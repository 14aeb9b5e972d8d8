//! The gateway pipeline's admission stage: authentication, model resolution,
//! group policy, rate limiting and token-quota enforcement, in that order,
//! with the first failing stage short-circuiting the rest.
use vstd::prelude::*;
use crate::clock::ClockTime;
use crate::config::{ModelConfig, QuotaPeriod, ServerConf};
use crate::rate::{RateLimitConfig, RateLimiter, check_rate_limits, spec_rate_violation};
use crate::store::Store;
use crate::text::{
    lists_intersect, spec_lists_intersect, spec_split_trim, split_csv_trim, str_eq,
    strip_prefix_str,
};
use crate::usage::{
    TokenLimitConfig, TokenLimitError, check_token_limits, spec_token_violation,
    spec_usage_period,
};
use crate::keys::Direction;

verus! {

/// The inbound request as the pipeline sees it: its path and its headers,
/// names as queried (the transport layer hands them over case-normalized).
pub struct GatewayRequest {
    pub path: String,
    pub headers: Vec<(String, String)>,
}

pub open spec fn spec_headers_view(req: GatewayRequest) -> Seq<(Seq<char>, Seq<char>)> {
    req.headers@.map_values(|h: (String, String)| (h.0@, h.1@))
}

/// The value of the first header with the given name.
pub open spec fn spec_header_lookup(
    hs: Seq<(Seq<char>, Seq<char>)>,
    name: Seq<char>,
) -> Option<Seq<char>>
    decreases hs.len(),
{
    if hs.len() == 0 {
        None
    } else if hs[0].0 == name {
        Some(hs[0].1)
    } else {
        spec_header_lookup(hs.drop_first(), name)
    }
}

#[verifier::loop_isolation(false)]
pub fn header_get(req: &GatewayRequest, name: &str) -> (r: Option<String>)
    ensures
        match r {
            Some(v) => spec_header_lookup(spec_headers_view(*req), name@) == Some(v@),
            None => spec_header_lookup(spec_headers_view(*req), name@) is None,
        },
{
    let ghost hs = spec_headers_view(*req);
    let n = req.headers.len();
    assert(hs.skip(0) =~= hs);
    let mut i: usize = 0;
    while i < n
        invariant
            0 <= i <= n,
            spec_header_lookup(hs.skip(i as int), name@) == spec_header_lookup(hs, name@),
        decreases n - i,
    {
        assert(hs.skip(i as int)[0] == hs[i as int]);
        if str_eq(req.headers[i].0.as_str(), name) {
            let v = req.headers[i].1.as_str().to_owned();
            return Some(v);
        }
        assert(hs.skip(i as int).drop_first() =~= hs.skip(i + 1));
        i += 1;
    }
    assert(hs.skip(n as int) =~= Seq::<(Seq<char>, Seq<char>)>::empty());
    None
}

/// The bearer credential of the request: what follows `Bearer ` in the first
/// `Authorization` header, when there is one.
pub open spec fn spec_bearer(hs: Seq<(Seq<char>, Seq<char>)>) -> Option<Seq<char>> {
    match spec_header_lookup(hs, "Authorization"@) {
        Some(v) => if v.len() >= "Bearer "@.len() && v.subrange(0, "Bearer "@.len() as int)
            == "Bearer "@ {
            Some(v.subrange("Bearer "@.len() as int, v.len() as int))
        } else {
            None
        },
        None => None,
    }
}

pub fn bearer_token(req: &GatewayRequest) -> (r: Option<String>)
    ensures
        match r {
            Some(t) => spec_bearer(spec_headers_view(*req)) == Some(t@),
            None => spec_bearer(spec_headers_view(*req)) is None,
        },
{
    match header_get(req, "Authorization") {
        Some(v) => strip_prefix_str(v.as_str(), "Bearer "),
        None => None,
    }
}

/// The identity asserted by the first configured trusted header that is
/// present on the request.
pub open spec fn spec_trusted_user(
    hs: Seq<(Seq<char>, Seq<char>)>,
    trust: Seq<Seq<char>>,
) -> Option<Seq<char>>
    decreases trust.len(),
{
    if trust.len() == 0 {
        None
    } else {
        match spec_header_lookup(hs, trust[0]) {
            Some(v) => Some(v),
            None => spec_trusted_user(hs, trust.drop_first()),
        }
    }
}

#[verifier::loop_isolation(false)]
fn trusted_user(req: &GatewayRequest, trust: &Vec<String>) -> (r: Option<String>)
    ensures
        match r {
            Some(u) => spec_trusted_user(spec_headers_view(*req), trust.deep_view()) == Some(
                u@,
            ),
            None => spec_trusted_user(spec_headers_view(*req), trust.deep_view()) is None,
        },
{
    let ghost hs = spec_headers_view(*req);
    let ghost tv = trust.deep_view();
    let n = trust.len();
    assert(tv.skip(0) =~= tv);
    let mut i: usize = 0;
    while i < n
        invariant
            0 <= i <= n,
            spec_trusted_user(hs, tv.skip(i as int)) == spec_trusted_user(hs, tv),
        decreases n - i,
    {
        assert(tv.skip(i as int)[0] == tv[i as int]);
        if let Some(v) = header_get(req, trust[i].as_str()) {
            return Some(v);
        }
        assert(tv.skip(i as int).drop_first() =~= tv.skip(i + 1));
        i += 1;
    }
    assert(tv.skip(n as int) =~= Seq::<Seq<char>>::empty());
    None
}

/// The first configured model whose location is exactly the request path.
pub open spec fn spec_find_model(models: Seq<ModelConfig>, path: Seq<char>) -> Option<int>
    decreases models.len(),
{
    if models.len() == 0 {
        None
    } else if models[0].location@ == path {
        Some(0int)
    } else {
        match spec_find_model(models.drop_first(), path) {
            Some(i) => Some(i + 1),
            None => None,
        }
    }
}

#[verifier::loop_isolation(false)]
pub fn resolve_model(models: &Vec<ModelConfig>, path: &str) -> (r: Option<usize>)
    ensures
        match r {
            Some(i) => 0 <= i < models.len() && spec_find_model(models@, path@) == Some(
                i as int,
            ) && models@[i as int].location@ == path@,
            None => spec_find_model(models@, path@) is None,
        },
{
    let n = models.len();
    assert(models@.skip(0) =~= models@);
    let mut i: usize = 0;
    while i < n
        invariant
            0 <= i <= n,
            forall|k: int| 0 <= k < i ==> (#[trigger] models@[k].location@) != path@,
            spec_find_model(models@.skip(i as int), path@) matches Some(j) ==> spec_find_model(
                models@,
                path@,
            ) == Some(j + i),
            spec_find_model(models@.skip(i as int), path@) is None ==> spec_find_model(
                models@,
                path@,
            ) is None,
        decreases n - i,
    {
        assert(models@.skip(i as int)[0] == models@[i as int]);
        if str_eq(models[i].location.as_str(), path) {
            return Some(i);
        }
        assert(models@.skip(i as int).drop_first() =~= models@.skip(i + 1));
        i += 1;
    }
    assert(models@.skip(n as int) =~= Seq::<ModelConfig>::empty());
    None
}

/// Whether the stored group list denies access: some trimmed group of the
/// user intersects the model's trimmed disabled-group list. A user with no
/// group record has no groups and is not denied.
pub open spec fn spec_group_denied(gv: Option<Seq<char>>, disabled: Seq<char>) -> bool {
    match gv {
        Some(g) => spec_lists_intersect(spec_split_trim(g), spec_split_trim(disabled)),
        None => false,
    }
}

pub fn group_denied(gv: Option<&String>, disabled_groups: &str) -> (r: bool)
    ensures
        r == spec_group_denied(
            match gv {
                Some(g) => Some(g@),
                None => None,
            },
            disabled_groups@,
        ),
{
    match gv {
        Some(g) => {
            let groups = split_csv_trim(g.as_str());
            let disabled = split_csv_trim(disabled_groups);
            lists_intersect(&groups, &disabled)
        },
        None => false,
    }
}

/// What the bearer credential resolves to: the mapped user when the token is
/// stored with a non-empty user, nothing otherwise.
pub open spec fn spec_bearer_auth(
    tokens: Map<Seq<char>, Seq<char>>,
    t: Seq<char>,
) -> Option<Seq<char>> {
    if tokens.contains_key(t) && tokens[t].len() > 0 {
        Some(tokens[t])
    } else {
        None
    }
}

/// Every stored token of length at least 32 that maps to a non-empty user
/// resolves: after inserting such a token, a request bearing it
/// authenticates as exactly the mapped user. (Shorter tokens are refused at
/// insertion and so are never stored.)
pub proof fn lemma_token_round_trip(
    tokens: Map<Seq<char>, Seq<char>>,
    t: Seq<char>,
    u: Seq<char>,
)
    requires
        t.len() >= 32,
        u.len() > 0,
    ensures
        spec_bearer_auth(tokens.insert(t, u), t) == Some(u),
{
}

/// The per-request state the pipeline threads through its stages: the
/// authenticated user, the resolved model, the instant the request started,
/// the buffered body, the pre-check usage snapshot and the measured token
/// counts. Owned by one request task and never shared.
pub struct GatewayContext {
    pub user: Option<String>,
    pub token: Option<String>,
    pub model_index: Option<usize>,
    pub time: ClockTime,
    pub buffer: Vec<u8>,
    pub input_tokens: u64,
    pub output_tokens: u64,
    pub usage_input: QuotaPeriod,
    pub usage_output: QuotaPeriod,
    pub response_gzip: bool,
}

impl GatewayContext {
    pub fn new(time: ClockTime) -> (r: GatewayContext)
        ensures
            r.user is None,
            r.token is None,
            r.model_index is None,
            r.time == time,
            r.buffer@ == Seq::<u8>::empty(),
            r.input_tokens == 0,
            r.output_tokens == 0,
            r.usage_input == (QuotaPeriod {
                second: 0,
                minute: 0,
                hour: 0,
                day: 0,
                week: 0,
                month: 0,
            }),
            r.usage_output == (QuotaPeriod {
                second: 0,
                minute: 0,
                hour: 0,
                day: 0,
                week: 0,
                month: 0,
            }),
            r.response_gzip == false,
    {
        GatewayContext {
            user: None,
            token: None,
            model_index: None,
            time,
            buffer: Vec::new(),
            input_tokens: 0,
            output_tokens: 0,
            usage_input: QuotaPeriod::new(),
            usage_output: QuotaPeriod::new(),
            response_gzip: false,
        }
    }

    /// Appends one streamed chunk to the buffered body.
    pub fn buffer_chunk(&mut self, chunk: &[u8])
        ensures
            final(self).buffer@ == old(self).buffer@ + chunk@,
            final(self).user == old(self).user,
            final(self).token == old(self).token,
            final(self).model_index == old(self).model_index,
            final(self).time == old(self).time,
            final(self).input_tokens == old(self).input_tokens,
            final(self).output_tokens == old(self).output_tokens,
            final(self).usage_input == old(self).usage_input,
            final(self).usage_output == old(self).usage_output,
            final(self).response_gzip == old(self).response_gzip,
    {
        let mut v = vstd::slice::slice_to_vec(chunk);
        self.buffer.append(&mut v);
    }

    /// Takes the buffered body out, leaving the buffer empty.
    pub fn take_buffer(&mut self) -> (r: Vec<u8>)
        ensures
            r@ == old(self).buffer@,
            final(self).buffer@ == Seq::<u8>::empty(),
            final(self).user == old(self).user,
            final(self).token == old(self).token,
            final(self).model_index == old(self).model_index,
            final(self).time == old(self).time,
            final(self).input_tokens == old(self).input_tokens,
            final(self).output_tokens == old(self).output_tokens,
            final(self).usage_input == old(self).usage_input,
            final(self).usage_output == old(self).usage_output,
            final(self).response_gzip == old(self).response_gzip,
    {
        let mut out: Vec<u8> = Vec::new();
        core::mem::swap(&mut out, &mut self.buffer);
        out
    }
}

/// The outcome of the admission stage for one request.
pub enum Admission {
    /// The root path: serve the configuration summary, touching nothing.
    RootSummary,
    /// A terminal denial with this status (401 or 404).
    Deny { status: u16 },
    /// A request-rate limit is exceeded: respond 429 with these headers.
    RateDeny { rate_limits: RateLimitConfig },
    /// A token quota on prior usage is exceeded: respond 429 with these headers.
    TokenDeny { token_limits: TokenLimitConfig },
    /// The store could not be read for the quota check: internal error.
    StoreFail,
    /// Admitted: forward to the resolved model as this user, with the
    /// pre-check usage snapshot.
    Forward {
        user: String,
        model_index: usize,
        usage_input: QuotaPeriod,
        usage_output: QuotaPeriod,
    },
}

/// Whether the stored group record of `u` (an absent record meaning no
/// groups) denies access against this disabled-group list.
pub open spec fn spec_group_map_denied(
    groups: Map<Seq<char>, Seq<char>>,
    u: Seq<char>,
    disabled: Seq<char>,
) -> bool {
    spec_group_denied(
        if groups.contains_key(u) {
            Some(groups[u])
        } else {
            None
        },
        disabled,
    )
}

/// What the pipeline owes once the credential has resolved to user `u`:
/// a 404 exactly when no model matches the path; given a model, a 401
/// exactly when the stored groups intersect its disabled groups, and past
/// that only a rate denial, a token denial bound to `u`'s own stored
/// counters, or admission as `u`.
pub open spec fn spec_post_credential(
    r: Admission,
    u: Seq<char>,
    models: Seq<ModelConfig>,
    path: Seq<char>,
    groups: Map<Seq<char>, Seq<char>>,
    usage: Map<Seq<char>, u64>,
    now: ClockTime,
) -> bool {
    match spec_find_model(models, path) {
        None => r == (Admission::Deny { status: 404u16 }),
        Some(i) => {
            let gd = spec_group_map_denied(groups, u, models[i].disabled_groups@);
            &&& (gd <==> r == (Admission::Deny { status: 401u16 }))
            &&& (!gd ==> (r is RateDeny || r is TokenDeny || r is Forward))
            &&& (match r {
                Admission::TokenDeny { token_limits } => Some(token_limits)
                    == spec_token_violation(
                    models[i],
                    spec_usage_period(usage, u, now, Direction::In),
                    spec_usage_period(usage, u, now, Direction::Out),
                ),
                Admission::Forward { user, model_index, usage_input, usage_output } => user@
                    == u && model_index as int == i,
                _ => true,
            })
        },
    }
}

/// Runs the admission pipeline in order — root shortcut, authentication,
/// model resolution, group policy, rate limit, token quota — denying at the
/// first failing stage.
///
/// For either credential kind the contract pins every stage against the
/// store's actual contents: a resolved credential is owed the
/// `spec_post_credential` outcomes, an unresolvable one a 401, and a store
/// read failure surfaces as `StoreFail` at whichever lookup it hits —
/// never as a credential or policy denial. A `Forward` outcome also carries
/// the usage snapshot, exactly the stored counters, with no token cap
/// violated; rate denials report a violation for the counts the in-memory
/// windows returned.
pub fn admit_request(
    store: &Store,
    limiter: &RateLimiter,
    conf: &ServerConf,
    req: &GatewayRequest,
    now: &ClockTime,
) -> (r: Admission)
    requires
        now.wf(),
    ensures
        (req.path@ == "/"@) <==> (r is RootSummary),
        ({
            let hs = spec_headers_view(*req);
            let trust = conf.trust_header_authentication.deep_view();
            let bearer = spec_bearer(hs);
            let trusted = spec_trusted_user(hs, trust);
            let models = conf.models@;
            &&& (req.path@ != "/"@ ==> match bearer {
                Some(t) => match spec_bearer_auth(store.tokens(), t) {
                    Some(u) => r is StoreFail || spec_post_credential(
                        r,
                        u,
                        models,
                        req.path@,
                        store.groups(),
                        store.usage(),
                        *now,
                    ),
                    None => r == (Admission::Deny { status: 401u16 }) || r is StoreFail,
                },
                None => match trusted {
                    Some(u) => r is StoreFail || spec_post_credential(
                        r,
                        u,
                        models,
                        req.path@,
                        store.groups(),
                        store.usage(),
                        *now,
                    ),
                    None => r == (Admission::Deny { status: 401u16 }),
                },
            })
            &&& (req.path@ != "/"@ && bearer is None && trusted is Some && spec_find_model(
                models,
                req.path@,
            ) is None ==> r == (Admission::Deny { status: 404u16 }))
            &&& (match r {
                Admission::Forward { user, model_index, usage_input, usage_output } => {
                    &&& req.path@ != "/"@
                    &&& (match bearer {
                        Some(t) => spec_bearer_auth(store.tokens(), t) == Some(user@),
                        None => trusted == Some(user@),
                    })
                    &&& spec_find_model(models, req.path@) == Some(model_index as int)
                    &&& model_index < models.len()
                    &&& usage_input == spec_usage_period(
                        store.usage(),
                        user@,
                        *now,
                        Direction::In,
                    )
                    &&& usage_output == spec_usage_period(
                        store.usage(),
                        user@,
                        *now,
                        Direction::Out,
                    )
                    &&& spec_token_violation(
                        models[model_index as int],
                        usage_input,
                        usage_output,
                    ) is None
                },
                Admission::RateDeny { rate_limits } => {
                    &&& spec_find_model(models, req.path@) is Some
                    &&& exists|cs: int, cm: int| #[trigger] spec_rate_violation(
                        models[spec_find_model(models, req.path@).unwrap()],
                        cs,
                        cm,
                    ) == Some(rate_limits)
                },
                _ => true,
            })
        }),
{
    if str_eq(req.path.as_str(), "/") {
        return Admission::RootSummary;
    }
    let bearer = bearer_token(req);
    let user: String = match &bearer {
        Some(t) => {
            match store.token_get(t.as_str()) {
                Ok(Some(u)) => {
                    if u.as_str().unicode_len() > 0 {
                        u
                    } else {
                        return Admission::Deny { status: 401 };
                    }
                },
                Ok(None) => {
                    return Admission::Deny { status: 401 };
                },
                Err(_) => {
                    return Admission::StoreFail;
                },
            }
        },
        None => {
            match trusted_user(req, &conf.trust_header_authentication) {
                Some(u) => u,
                None => {
                    return Admission::Deny { status: 401 };
                },
            }
        },
    };
    let model_index = match resolve_model(&conf.models, req.path.as_str()) {
        Some(i) => i,
        None => {
            return Admission::Deny { status: 404 };
        },
    };
    let model = &conf.models[model_index];
    let gv = match store.group_get(user.as_str()) {
        Ok(v) => v,
        Err(_) => {
            return Admission::StoreFail;
        },
    };
    if group_denied(gv.as_ref(), model.disabled_groups.as_str()) {
        return Admission::Deny { status: 401 };
    }
    let outcome = check_rate_limits(limiter, user.as_str(), model);
    if let Some(c) = outcome.verdict {
        assert(spec_find_model(conf.models@, req.path@).unwrap() == model_index as int);
        assert(spec_rate_violation(
            conf.models@[spec_find_model(conf.models@, req.path@).unwrap()],
            outcome.curr_second as int,
            outcome.curr_minute as int,
        ) == Some(c));
        return Admission::RateDeny { rate_limits: c };
    }
    match check_token_limits(store, user.as_str(), model, now) {
        Ok(p) => Admission::Forward {
            user,
            model_index,
            usage_input: p.0,
            usage_output: p.1,
        },
        Err(TokenLimitError::Store(_)) => Admission::StoreFail,
        Err(TokenLimitError::Exceeded(c)) => {
            assert(Some(c) == spec_token_violation(
                conf.models@[model_index as int],
                spec_usage_period(store.usage(), user@, *now, Direction::In),
                spec_usage_period(store.usage(), user@, *now, Direction::Out),
            ));
            Admission::TokenDeny { token_limits: c }
        },
    }
}

} // verus!
