//! The gateway's configuration model: per-period limits, per-model routes and
//! the server-wide settings, plus the environment-variable resolution applied
//! to each model's API key at load time.
use vstd::prelude::*;
use crate::numfmt::{push_dec, spec_dec};
use crate::text::{is_substring, spec_replace_all, str_replace_all, find_sub, lemma_find_sub};

verus! {

/// A six-field counter, one slot for each quota period the gateway tracks.
/// As a limit, a zero-valued slot means "unbounded" for that period.
#[derive(Clone, Copy, PartialEq, Eq, Structural, Debug)]
pub struct QuotaPeriod {
    pub second: u64,
    pub minute: u64,
    pub hour: u64,
    pub day: u64,
    pub week: u64,
    pub month: u64,
}

impl QuotaPeriod {
    pub fn new() -> (r: QuotaPeriod)
        ensures
            r == (QuotaPeriod { second: 0, minute: 0, hour: 0, day: 0, week: 0, month: 0 }),
    {
        QuotaPeriod { second: 0, minute: 0, hour: 0, day: 0, week: 0, month: 0 }
    }

    pub fn to_string(&self) -> (r: String)
        ensures
            r@ == spec_quota_period_str(*self),
    {
        let mut s = String::new();
        s.append("second: ");
        push_dec(&mut s, self.second);
        s.append(", minute: ");
        push_dec(&mut s, self.minute);
        s.append(", hour: ");
        push_dec(&mut s, self.hour);
        s.append(", day: ");
        push_dec(&mut s, self.day);
        s.append(", week: ");
        push_dec(&mut s, self.week);
        s.append(", month: ");
        push_dec(&mut s, self.month);
        assert(s@ =~= spec_quota_period_str(*self));
        s
    }
}

/// The rendering `QuotaPeriod::to_string` returns.
pub open spec fn spec_quota_period_str(q: QuotaPeriod) -> Seq<char> {
    "second: "@ + spec_dec(q.second as nat) + ", minute: "@ + spec_dec(q.minute as nat)
        + ", hour: "@ + spec_dec(q.hour as nat) + ", day: "@ + spec_dec(q.day as nat)
        + ", week: "@ + spec_dec(q.week as nat) + ", month: "@ + spec_dec(q.month as nat)
}

/// One configured quota: an optional cap on tokens and an optional cap on
/// request counts, each with six independent per-period limits.
#[derive(Clone, Copy, PartialEq, Eq, Structural, Debug)]
pub struct Quota {
    pub max_tokens: Option<QuotaPeriod>,
    pub max_requests: Option<QuotaPeriod>,
}

/// One configured backend route, immutable for the process lifetime.
pub struct ModelConfig {
    pub location: String,
    pub model_name: String,
    pub proxy_pass: String,
    pub authorization_header: bool,
    pub api_key: String,
    pub disabled_groups: String,
    pub blacklist_words: String,
    pub pii_protection_url: String,
    pub parser: String,
    pub quotas: Option<Vec<Quota>>,
}

/// The server-wide configuration.
pub struct ServerConf {
    pub models: Vec<ModelConfig>,
    pub db_filepath: String,
    pub port: u16,
    pub host: String,
    pub prometheus_host: String,
    pub prometheus_port: u16,
    pub admin_host: String,
    pub admin_port: u16,
    pub chat_host: String,
    pub chat_port: u16,
    pub echo_host: String,
    pub echo_port: u16,
    pub trust_header_authentication: Vec<String>,
    pub log_config_file: String,
}

/// The name of the environment variable a model's API key refers to:
/// the key without its leading dollar sign, when it has one.
pub fn api_key_env_var(model: &ModelConfig) -> (r: Option<String>)
    ensures
        match r {
            Some(v) => model.api_key@.len() > 0 && model.api_key@[0] == '$' && v@
                == model.api_key@.subrange(1, model.api_key@.len() as int),
            None => !(model.api_key@.len() > 0 && model.api_key@[0] == '$'),
        },
{
    let k = model.api_key.as_str();
    let n = k.unicode_len();
    if n > 0 && k.get_char(0) == '$' {
        Some(k.substring_char(1, n).to_owned())
    } else {
        None
    }
}

/// Applies the load-time API-key rule to one model: a key of the form `$VAR`
/// is replaced by the variable's value (empty when the variable is unset), and
/// when `$VAR` also occurs in the upstream URL it is substituted there and the
/// caller's own authorization header is forwarded instead of the key.
pub fn resolve_model_api_key(model: ModelConfig, env_val: Option<String>) -> (r: ModelConfig)
    ensures
        r.location == model.location,
        r.model_name == model.model_name,
        r.disabled_groups == model.disabled_groups,
        r.blacklist_words == model.blacklist_words,
        r.pii_protection_url == model.pii_protection_url,
        r.parser == model.parser,
        r.quotas == model.quotas,
        ({
            let dollar = model.api_key@.len() > 0 && model.api_key@[0] == '$';
            let resolved: Seq<char> = match env_val {
                Some(v) => v@,
                None => Seq::empty(),
            };
            if dollar {
                r.api_key@ == resolved && if is_substring(model.proxy_pass@, model.api_key@) {
                    r.authorization_header == false && r.proxy_pass@ == spec_replace_all(
                        model.proxy_pass@,
                        model.api_key@,
                        resolved,
                    )
                } else {
                    r.authorization_header == model.authorization_header && r.proxy_pass
                        == model.proxy_pass
                }
            } else {
                r.api_key == model.api_key && r.proxy_pass == model.proxy_pass
                    && r.authorization_header == model.authorization_header
            }
        }),
{
    let ModelConfig {
        location,
        model_name,
        proxy_pass,
        authorization_header,
        api_key,
        disabled_groups,
        blacklist_words,
        pii_protection_url,
        parser,
        quotas,
    } = model;
    let n = api_key.as_str().unicode_len();
    if n > 0 && api_key.as_str().get_char(0) == '$' {
        let resolved = match env_val {
            Some(v) => v,
            None => String::new(),
        };
        proof {
            lemma_find_sub(proxy_pass@, api_key@);
        }
        let occurs = crate::text::str_contains(proxy_pass.as_str(), api_key.as_str());
        if occurs {
            let new_pass = str_replace_all(
                proxy_pass.as_str(),
                api_key.as_str(),
                resolved.as_str(),
            );
            ModelConfig {
                location,
                model_name,
                proxy_pass: new_pass,
                authorization_header: false,
                api_key: resolved,
                disabled_groups,
                blacklist_words,
                pii_protection_url,
                parser,
                quotas,
            }
        } else {
            ModelConfig {
                location,
                model_name,
                proxy_pass,
                authorization_header,
                api_key: resolved,
                disabled_groups,
                blacklist_words,
                pii_protection_url,
                parser,
                quotas,
            }
        }
    } else {
        ModelConfig {
            location,
            model_name,
            proxy_pass,
            authorization_header,
            api_key,
            disabled_groups,
            blacklist_words,
            pii_protection_url,
            parser,
            quotas,
        }
    }
}

} // verus!
