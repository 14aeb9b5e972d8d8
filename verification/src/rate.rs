//! Request-rate limiting: two in-memory sliding windows per process (one
//! second, sixty seconds) keyed by user id, and the verified decision that
//! compares the observed counts with the configured per-model limits.
use vstd::prelude::*;
use crate::config::{ModelConfig, Quota};

verus! {

#[verifier::external_type_specification]
#[verifier::external_body]
pub struct ExRate(pingora_limits::rate::Rate);

/// Relies on pingora_limits' Rate::new: a fresh estimator over the interval.
#[verifier::external_body]
fn rate_new(interval_secs: u64) -> (r: pingora_limits::rate::Rate) {
    pingora_limits::rate::Rate::new(std::time::Duration::from_secs(interval_secs))
}

/// Relies on pingora_limits' Rate::observe: records one event under the key
/// and returns the post-increment minimum of the window's counters, each of
/// which starts at zero, is only ever incremented here and reset to zero at
/// an interval boundary — so the returned count is at least one, as long as
/// a window sees fewer than isize::MAX events. Beyond that the count depends
/// on the clock and on concurrent observers, so nothing more is promised;
/// every decision taken on it is verified for every admitted count.
#[verifier::external_body]
fn rate_observe(rate: &pingora_limits::rate::Rate, key: &str) -> (r: isize)
    ensures
        r >= 1,
{
    rate.observe(&key, 1)
}

/// The process-wide request-rate windows, created once at startup.
pub struct RateLimiter {
    pub per_second: pingora_limits::rate::Rate,
    pub per_minute: pingora_limits::rate::Rate,
}

impl RateLimiter {
    pub fn new() -> (r: RateLimiter) {
        RateLimiter { per_second: rate_new(1), per_minute: rate_new(60) }
    }
}

/// The limit headers of a rate violation response.
#[derive(Clone, Copy, PartialEq, Eq, Structural, Debug)]
pub struct RateLimitConfig {
    pub limit: isize,
    pub remaining: isize,
    pub reset_seconds: u64,
}

/// The violation header set when `current` exceeds a nonzero `limit`;
/// a zero limit is unbounded, and a limit beyond the window counter's range
/// can never be exceeded.
pub open spec fn spec_rate_limit_config(limit: u64, current: int, reset_seconds: u64) -> Option<
    RateLimitConfig,
> {
    if limit > 0 && current > limit {
        Some(RateLimitConfig { limit: limit as isize, remaining: 0, reset_seconds })
    } else {
        None
    }
}

pub fn get_rate_limit_config(limit: u64, current: isize, reset_seconds: u64) -> (r: Option<
    RateLimitConfig,
>)
    ensures
        r == spec_rate_limit_config(limit, current as int, reset_seconds),
{
    if limit > 0 && limit <= isize::MAX as u64 && current > limit as isize {
        Some(RateLimitConfig { limit: limit as isize, remaining: 0, reset_seconds })
    } else {
        None
    }
}

/// The first violated window of one quota's request cap: the one-second
/// window, then the sixty-second window.
pub open spec fn spec_quota_rate_violation(q: Quota, cs: int, cm: int) -> Option<
    RateLimitConfig,
> {
    match q.max_requests {
        Some(mr) => {
            if spec_rate_limit_config(mr.second, cs, 1) is Some {
                spec_rate_limit_config(mr.second, cs, 1)
            } else {
                spec_rate_limit_config(mr.minute, cm, 60)
            }
        },
        None => None,
    }
}

/// The first violation over the configured quotas, in configuration order.
pub open spec fn spec_rate_violation_list(qs: Seq<Quota>, cs: int, cm: int) -> Option<
    RateLimitConfig,
>
    decreases qs.len(),
{
    if qs.len() == 0 {
        None
    } else {
        match spec_quota_rate_violation(qs[0], cs, cm) {
            Some(c) => Some(c),
            None => spec_rate_violation_list(qs.drop_first(), cs, cm),
        }
    }
}

pub open spec fn spec_rate_violation(model: ModelConfig, cs: int, cm: int) -> Option<
    RateLimitConfig,
> {
    match model.quotas {
        Some(v) => spec_rate_violation_list(v@, cs, cm),
        None => None,
    }
}

fn quota_rate_check(q: &Quota, cs: isize, cm: isize) -> (r: Option<RateLimitConfig>)
    ensures
        r == spec_quota_rate_violation(*q, cs as int, cm as int),
{
    match &q.max_requests {
        Some(mr) => {
            if let Some(c) = get_rate_limit_config(mr.second, cs, 1) {
                Some(c)
            } else {
                get_rate_limit_config(mr.minute, cm, 60)
            }
        },
        None => None,
    }
}

/// What one pass through the rate limiter observed and decided.
pub struct RateOutcome {
    pub curr_second: isize,
    pub curr_minute: isize,
    pub verdict: Option<RateLimitConfig>,
}

/// Observes the request in both windows for the user — exactly once each,
/// so both reported counts include this request and are at least one — and
/// reports the first violated `max_requests` limit for the observed counts,
/// in configuration order; a zero limit is unbounded.
#[verifier::loop_isolation(false)]
pub fn check_rate_limits(limiter: &RateLimiter, user: &str, model: &ModelConfig) -> (r:
    RateOutcome)
    ensures
        r.curr_second >= 1,
        r.curr_minute >= 1,
        r.verdict == spec_rate_violation(*model, r.curr_second as int, r.curr_minute as int),
{
    let curr_second = rate_observe(&limiter.per_second, user);
    let curr_minute = rate_observe(&limiter.per_minute, user);
    match &model.quotas {
        Some(qs) => {
            let n = qs.len();
            assert(qs@.skip(0) =~= qs@);
            let mut i: usize = 0;
            while i < n
                invariant
                    0 <= i <= n,
                    spec_rate_violation_list(
                        qs@.skip(i as int),
                        curr_second as int,
                        curr_minute as int,
                    ) == spec_rate_violation_list(qs@, curr_second as int, curr_minute as int),
                decreases n - i,
            {
                assert(qs@.skip(i as int)[0] == qs@[i as int]);
                if let Some(c) = quota_rate_check(&qs[i], curr_second, curr_minute) {
                    assert(spec_rate_violation_list(
                        qs@.skip(i as int),
                        curr_second as int,
                        curr_minute as int,
                    ) == Some(c));
                    return RateOutcome { curr_second, curr_minute, verdict: Some(c) };
                }
                assert(qs@.skip(i as int).drop_first() =~= qs@.skip(i + 1));
                i += 1;
            }
            assert(qs@.skip(n as int) =~= Seq::<Quota>::empty());
            RateOutcome { curr_second, curr_minute, verdict: None }
        },
        None => RateOutcome { curr_second, curr_minute, verdict: None },
    }
}

/// The three headers of a 429 rate-limit response: the violated limit, zero
/// remaining, and the window's reset interval in seconds.
pub fn rate_limit_headers(c: &RateLimitConfig) -> (r: Vec<(String, String)>)
    requires
        c.limit >= 0,
        c.remaining >= 0,
    ensures
        r@.map_values(|h: (String, String)| (h.0@, h.1@)) == seq![
            ("X-Rate-Limit-Limit"@, crate::numfmt::spec_dec(c.limit as nat)),
            ("X-Rate-Limit-Remaining"@, crate::numfmt::spec_dec(c.remaining as nat)),
            ("X-Rate-Limit-Reset"@, crate::numfmt::spec_dec(c.reset_seconds as nat)),
        ],
{
    let mut r: Vec<(String, String)> = Vec::new();
    r.push((String::from_str("X-Rate-Limit-Limit"), crate::numfmt::u64_to_dec(c.limit as u64)));
    r.push(
        (
            String::from_str("X-Rate-Limit-Remaining"),
            crate::numfmt::u64_to_dec(c.remaining as u64),
        ),
    );
    r.push(
        (String::from_str("X-Rate-Limit-Reset"), crate::numfmt::u64_to_dec(c.reset_seconds)),
    );
    assert(r@.map_values(|h: (String, String)| (h.0@, h.1@)) =~= seq![
        ("X-Rate-Limit-Limit"@, crate::numfmt::spec_dec(c.limit as nat)),
        ("X-Rate-Limit-Remaining"@, crate::numfmt::spec_dec(c.remaining as nat)),
        ("X-Rate-Limit-Reset"@, crate::numfmt::spec_dec(c.reset_seconds as nat)),
    ]);
    r
}

/// A request cap of `n` on the one-second window admits the `n`-th request
/// of the second and rejects the next one, reporting limit `n`, nothing
/// remaining and a one-second reset, whatever the sixty-second window shows
/// when its own limit is zero (unbounded).
pub proof fn lemma_rate_second_boundary(q: Quota, n: u64, cm: int)
    requires
        0 < n,
        n < isize::MAX as u64,
        q.max_requests == Some(
            crate::config::QuotaPeriod { second: n, minute: 0, hour: 0, day: 0, week: 0, month: 0 },
        ),
    ensures
        spec_rate_violation_list(seq![q], n as int, cm) is None,
        spec_rate_violation_list(seq![q], n as int + 1, cm) == Some(
            RateLimitConfig { limit: n as isize, remaining: 0, reset_seconds: 1 },
        ),
{
    assert(seq![q][0] == q);
    assert(seq![q].drop_first() =~= Seq::<Quota>::empty());
    assert(spec_rate_violation_list(Seq::<Quota>::empty(), n as int, cm) is None);
    assert(spec_rate_violation_list(Seq::<Quota>::empty(), n as int + 1, cm) is None);
    assert(spec_rate_limit_config(n, n as int, 1) is None);
    assert(spec_rate_limit_config(0, cm, 60) is None);
}

/// A zero-valued limit never limits its own window: no violation carrying a
/// zero-limit window's reset interval can come out of a quota whose limit for
/// that window is zero, whatever the counters show.
pub proof fn lemma_zero_rate_limit_unbounded(q: Quota, mr: crate::config::QuotaPeriod, cs: int, cm: int)
    requires
        q.max_requests == Some(mr),
    ensures
        mr.second == 0 ==> (match spec_quota_rate_violation(q, cs, cm) {
            Some(c) => c.reset_seconds != 1,
            None => true,
        }),
        mr.minute == 0 ==> (match spec_quota_rate_violation(q, cs, cm) {
            Some(c) => c.reset_seconds != 60,
            None => true,
        }),
{
}

} // verus!
