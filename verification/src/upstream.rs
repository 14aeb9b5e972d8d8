//! Upstream peer selection: the parts of the model's upstream URL and the
//! outbound request rewrites derived from them.
use vstd::prelude::*;
use crate::config::ModelConfig;
use crate::text::str_eq;

verus! {

/// The parts of an absolute URL the gateway uses.
#[derive(Debug)]
pub struct UrlParts {
    pub host: String,
    pub port: Option<u16>,
    pub scheme: String,
    pub path: String,
}

/// The spec-level image of `UrlParts`.
pub struct UrlPartsView {
    pub host: Seq<char>,
    pub port: Option<u16>,
    pub scheme: Seq<char>,
    pub path: Seq<char>,
}

/// The parse of an absolute URL that names a host: its host, explicit port,
/// scheme and path; `None` for a string that is not such a URL. A function of
/// the string alone.
pub uninterp spec fn url_parse_of(s: Seq<char>) -> Option<UrlPartsView>;

/// Relies on the url crate: `Url::parse` and the `host_str`, `port`, `scheme`
/// and `path` accessors of the parsed URL.
#[verifier::external_body]
pub fn parse_url_parts(s: &str) -> (r: Option<UrlParts>)
    ensures
        match (r, url_parse_of(s@)) {
            (Some(p), Some(q)) => p.host@ == q.host && p.port == q.port && p.scheme@ == q.scheme
                && p.path@ == q.path,
            (None, None) => true,
            _ => false,
        },
{
    let u = match url::Url::parse(s) {
        Ok(u) => u,
        Err(_) => return None,
    };
    let host = match u.host_str() {
        Some(h) => h.to_string(),
        None => return None,
    };
    let (port, scheme, path) = (u.port(), u.scheme().to_string(), u.path().to_string());
    Some(UrlParts { host, port, scheme, path })
}

/// Everything the forwarding stage needs: where to connect and what to
/// rewrite on the outbound request.
#[derive(Debug)]
pub struct UpstreamPlan {
    pub host: String,
    pub port: u16,
    pub tls: bool,
    pub path: String,
    pub headers: Vec<(String, String)>,
}

/// The outbound header rewrites: the model's API key as a bearer credential
/// (unless the route forwards the caller's own authorization header), a JSON
/// content type, and the upstream host.
pub open spec fn spec_upstream_headers(model: ModelConfig, host: Seq<char>) -> Seq<
    (Seq<char>, Seq<char>),
> {
    let tail = seq![
        ("Content-Type"@, "application/json"@),
        ("Host"@, host),
    ];
    if model.authorization_header {
        seq![("Authorization"@, "Bearer "@ + model.api_key@)] + tail
    } else {
        tail
    }
}

/// Derives the upstream peer and the outbound rewrites from the model's
/// upstream URL: its host, its explicit port or 443, TLS exactly for the
/// `https` scheme, and the URL's path as the outbound request path. A model
/// whose upstream URL does not parse (or names no host) is a configuration
/// failure, reported as an internal error status.
pub fn upstream_plan(model: &ModelConfig) -> (r: Result<UpstreamPlan, u16>)
    ensures
        match (r, url_parse_of(model.proxy_pass@)) {
            (Ok(p), Some(q)) => p.host@ == q.host && p.port == (match q.port {
                Some(x) => x,
                None => 443u16,
            }) && p.tls == (q.scheme == "https"@) && p.path@ == q.path
                && p.headers@.map_values(|h: (String, String)| (h.0@, h.1@))
                == spec_upstream_headers(*model, q.host),
            (Err(s), None) => s == 500,
            _ => false,
        },
{
    let parts = match parse_url_parts(model.proxy_pass.as_str()) {
        Some(p) => p,
        None => {
            return Err(500);
        },
    };
    let port = match parts.port {
        Some(x) => x,
        None => 443,
    };
    let tls = str_eq(parts.scheme.as_str(), "https");
    let mut headers: Vec<(String, String)> = Vec::new();
    if model.authorization_header {
        let mut bearer = String::from_str("Bearer ");
        bearer.append(model.api_key.as_str());
        headers.push((String::from_str("Authorization"), bearer));
    }
    headers.push((String::from_str("Content-Type"), String::from_str("application/json")));
    let host_copy = parts.host.as_str().to_owned();
    headers.push((String::from_str("Host"), host_copy));
    assert(headers@.map_values(|h: (String, String)| (h.0@, h.1@)) =~= spec_upstream_headers(
        *model,
        parts.host@,
    ));
    Ok(UpstreamPlan { host: parts.host, port, tls, path: parts.path, headers })
}

} // verus!
