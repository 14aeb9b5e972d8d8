//! A reverse-proxy gateway for large-language-model backends: it
//! authenticates callers against a token store, resolves the model route for
//! the request path, enforces per-user request-rate and token-usage quotas,
//! screens request bodies, rewrites and forwards to the configured upstream,
//! extracts token counts from the response, and commits them to persisted
//! per-period usage counters.
//!
//! Every check fails closed: an unreadable credential, an unknown route, a
//! violated limit or an unparsable response denies or errors the request
//! rather than letting it through.
pub mod clock;
pub mod config;
pub mod echo;
pub mod filter;
pub mod gateway;
pub mod keys;
pub mod numfmt;
pub mod parsers;
pub mod rate;
pub mod response;
pub mod store;
pub mod text;
pub mod upstream;
pub mod usage;
