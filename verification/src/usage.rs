//! Token-usage accounting: reading the per-period counters, enforcing the
//! configured token caps on prior usage, and committing the measured tokens
//! of a finished request to all period buckets in one write transaction.
use vstd::prelude::*;
use crate::clock::ClockTime;
use crate::config::{ModelConfig, Quota, QuotaPeriod};
use crate::keys::{
    Direction, PeriodKind, UsageKeys, extract_usage_keys, lemma_usage_keys_distinct,
    spec_usage_key,
};
use crate::store::{Store, StoreError, spec_fold_insert};

verus! {

/// The counter stored under `k`; a missing key counts as zero.
pub open spec fn usage_lookup(m: Map<Seq<char>, u64>, k: Seq<char>) -> u64 {
    if m.contains_key(k) {
        m[k]
    } else {
        0
    }
}

/// The six-field snapshot of one direction's counters at instant `t`
/// (the one-second slot is never persisted and reads as zero).
pub open spec fn spec_usage_period(
    m: Map<Seq<char>, u64>,
    user: Seq<char>,
    t: ClockTime,
    d: Direction,
) -> QuotaPeriod {
    QuotaPeriod {
        second: 0,
        minute: usage_lookup(m, spec_usage_key(PeriodKind::Minute, d, user, t)),
        hour: usage_lookup(m, spec_usage_key(PeriodKind::Hour, d, user, t)),
        day: usage_lookup(m, spec_usage_key(PeriodKind::Day, d, user, t)),
        week: usage_lookup(m, spec_usage_key(PeriodKind::Week, d, user, t)),
        month: usage_lookup(m, spec_usage_key(PeriodKind::Month, d, user, t)),
    }
}

fn usage_value(store: &Store, key: &String) -> (r: Result<u64, StoreError>)
    ensures
        r is Ok ==> r->Ok_0 == usage_lookup(store.usage(), key@),
{
    match store.usage_get(key.as_str()) {
        Ok(Some(v)) => Ok(v),
        Ok(None) => Ok(0),
        Err(e) => Err(e),
    }
}

/// Reads the ten period counters of `user` at `t` from the store.
/// On success the two snapshots hold exactly the stored counters (zero for
/// absent buckets); a store failure is reported, never papered over.
pub fn get_usage_periods(store: &Store, user: &str, t: &ClockTime) -> (r: Result<
    (QuotaPeriod, QuotaPeriod),
    StoreError,
>)
    requires
        t.wf(),
    ensures
        r is Ok ==> r->Ok_0.0 == spec_usage_period(store.usage(), user@, *t, Direction::In)
            && r->Ok_0.1 == spec_usage_period(store.usage(), user@, *t, Direction::Out),
{
    let keys = extract_usage_keys(user, t);
    let usage_input = QuotaPeriod {
        second: 0,
        minute: usage_value(store, &keys.input_minute)?,
        hour: usage_value(store, &keys.input_hour)?,
        day: usage_value(store, &keys.input_day)?,
        week: usage_value(store, &keys.input_week)?,
        month: usage_value(store, &keys.input_month)?,
    };
    let usage_output = QuotaPeriod {
        second: 0,
        minute: usage_value(store, &keys.output_minute)?,
        hour: usage_value(store, &keys.output_hour)?,
        day: usage_value(store, &keys.output_day)?,
        week: usage_value(store, &keys.output_week)?,
        month: usage_value(store, &keys.output_month)?,
    };
    Ok((usage_input, usage_output))
}

/// The limit headers of a quota violation response: the violated limit,
/// zero remaining, and the window's reset interval in seconds.
#[derive(Clone, Copy, PartialEq, Eq, Structural, Debug)]
pub struct TokenLimitConfig {
    pub limit: u64,
    pub remaining: u64,
    pub reset_seconds: u64,
}

/// The violation header set when `current` exceeds a nonzero `limit`;
/// a zero limit is unbounded.
pub fn get_token_limit_config(limit: u64, current: u64, reset_seconds: u64) -> (r: Option<
    TokenLimitConfig,
>)
    ensures
        r == if limit > 0 && current > limit {
            Some(TokenLimitConfig { limit, remaining: 0, reset_seconds })
        } else {
            None::<TokenLimitConfig>
        },
{
    if limit > 0 && current > limit {
        Some(TokenLimitConfig { limit, remaining: 0, reset_seconds })
    } else {
        None
    }
}

/// The first violated period of one quota's token cap, in the order
/// minute, hour, day, week, month; zero limits are unbounded.
pub open spec fn spec_quota_token_violation(
    q: Quota,
    uin: QuotaPeriod,
    uout: QuotaPeriod,
) -> Option<TokenLimitConfig> {
    match q.max_tokens {
        Some(mt) => {
            if mt.minute > 0 && uin.minute + uout.minute > mt.minute {
                Some(TokenLimitConfig { limit: mt.minute, remaining: 0, reset_seconds: 60 })
            } else if mt.hour > 0 && uin.hour + uout.hour > mt.hour {
                Some(TokenLimitConfig { limit: mt.hour, remaining: 0, reset_seconds: 3600 })
            } else if mt.day > 0 && uin.day + uout.day > mt.day {
                Some(TokenLimitConfig { limit: mt.day, remaining: 0, reset_seconds: 86400 })
            } else if mt.week > 0 && uin.week + uout.week > mt.week {
                Some(TokenLimitConfig { limit: mt.week, remaining: 0, reset_seconds: 604800 })
            } else if mt.month > 0 && uin.month + uout.month > mt.month {
                Some(
                    TokenLimitConfig { limit: mt.month, remaining: 0, reset_seconds: 2592000 },
                )
            } else {
                None
            }
        },
        None => None,
    }
}

/// The first violation over the configured quotas, in configuration order.
pub open spec fn spec_token_violation_list(
    qs: Seq<Quota>,
    uin: QuotaPeriod,
    uout: QuotaPeriod,
) -> Option<TokenLimitConfig>
    decreases qs.len(),
{
    if qs.len() == 0 {
        None
    } else {
        match spec_quota_token_violation(qs[0], uin, uout) {
            Some(c) => Some(c),
            None => spec_token_violation_list(qs.drop_first(), uin, uout),
        }
    }
}

pub open spec fn spec_token_violation(
    model: ModelConfig,
    uin: QuotaPeriod,
    uout: QuotaPeriod,
) -> Option<TokenLimitConfig> {
    match model.quotas {
        Some(v) => spec_token_violation_list(v@, uin, uout),
        None => None,
    }
}

fn sum_check(limit: u64, a: u64, b: u64, reset_seconds: u64) -> (r: Option<TokenLimitConfig>)
    ensures
        r == if limit > 0 && a + b > limit {
            Some(TokenLimitConfig { limit, remaining: 0, reset_seconds })
        } else {
            None::<TokenLimitConfig>
        },
{
    if a <= u64::MAX - b {
        get_token_limit_config(limit, a + b, reset_seconds)
    } else if limit > 0 {
        Some(TokenLimitConfig { limit, remaining: 0, reset_seconds })
    } else {
        None
    }
}

fn quota_token_check(q: &Quota, uin: &QuotaPeriod, uout: &QuotaPeriod) -> (r: Option<
    TokenLimitConfig,
>)
    ensures
        r == spec_quota_token_violation(*q, *uin, *uout),
{
    match &q.max_tokens {
        Some(mt) => {
            if let Some(c) = sum_check(mt.minute, uin.minute, uout.minute, 60) {
                Some(c)
            } else if let Some(c) = sum_check(mt.hour, uin.hour, uout.hour, 3600) {
                Some(c)
            } else if let Some(c) = sum_check(mt.day, uin.day, uout.day, 86400) {
                Some(c)
            } else if let Some(c) = sum_check(mt.week, uin.week, uout.week, 604800) {
                Some(c)
            } else if let Some(c) = sum_check(mt.month, uin.month, uout.month, 2592000) {
                Some(c)
            } else {
                None
            }
        },
        None => None,
    }
}

/// Why a request was not admitted to the token-quota stage.
pub enum TokenLimitError {
    /// The store could not be read; the request fails closed.
    Store(StoreError),
    /// A configured cap on prior usage is exceeded; respond 429 with these headers.
    Exceeded(TokenLimitConfig),
}

/// Enforces the configured token caps on the usage recorded so far: reads the
/// ten counters of `user` at `t` and reports the first violated cap, in
/// configuration order and then minute, hour, day, week, month.
/// On success the returned snapshots are exactly the stored counters and no
/// configured cap is violated by them.
#[verifier::loop_isolation(false)]
pub fn check_token_limits(store: &Store, user: &str, model: &ModelConfig, t: &ClockTime) -> (r:
    Result<(QuotaPeriod, QuotaPeriod), TokenLimitError>)
    requires
        t.wf(),
    ensures
        ({
            let uin = spec_usage_period(store.usage(), user@, *t, Direction::In);
            let uout = spec_usage_period(store.usage(), user@, *t, Direction::Out);
            match r {
                Ok(p) => p.0 == uin && p.1 == uout && spec_token_violation(*model, uin, uout)
                    is None,
                Err(TokenLimitError::Exceeded(c)) => Some(c) == spec_token_violation(
                    *model,
                    uin,
                    uout,
                ),
                Err(TokenLimitError::Store(_)) => true,
            }
        }),
{
    let snap = match get_usage_periods(store, user, t) {
        Ok(p) => p,
        Err(e) => {
            return Err(TokenLimitError::Store(e));
        },
    };
    let (usage_input, usage_output) = snap;
    match &model.quotas {
        Some(qs) => {
            let n = qs.len();
            assert(qs@.skip(0) =~= qs@);
            let mut i: usize = 0;
            while i < n
                invariant
                    0 <= i <= n,
                    n == qs.len(),
                    spec_token_violation_list(qs@.skip(i as int), usage_input, usage_output)
                        == spec_token_violation_list(qs@, usage_input, usage_output),
                decreases n - i,
            {
                assert(qs@.skip(i as int)[0] == qs@[i as int]);
                if let Some(c) = quota_token_check(&qs[i], &usage_input, &usage_output) {
                    assert(spec_token_violation_list(
                        qs@.skip(i as int),
                        usage_input,
                        usage_output,
                    ) == Some(c));
                    return Err(TokenLimitError::Exceeded(c));
                }
                assert(qs@.skip(i as int).drop_first() =~= qs@.skip(i + 1));
                i += 1;
            }
            assert(qs@.skip(n as int) =~= Seq::<Quota>::empty());
            Ok((usage_input, usage_output))
        },
        None => Ok((usage_input, usage_output)),
    }
}

/// The three headers of a 429 token-limit response: the violated limit, zero
/// remaining, and the period's reset interval in seconds.
pub fn token_limit_headers(c: &TokenLimitConfig) -> (r: Vec<(String, String)>)
    ensures
        r@.map_values(|h: (String, String)| (h.0@, h.1@)) == seq![
            ("X-Token-Limit-Limit"@, crate::numfmt::spec_dec(c.limit as nat)),
            ("X-Token-Limit-Remaining"@, crate::numfmt::spec_dec(c.remaining as nat)),
            ("X-Token-Limit-Reset"@, crate::numfmt::spec_dec(c.reset_seconds as nat)),
        ],
{
    let mut r: Vec<(String, String)> = Vec::new();
    r.push((String::from_str("X-Token-Limit-Limit"), crate::numfmt::u64_to_dec(c.limit)));
    r.push(
        (String::from_str("X-Token-Limit-Remaining"), crate::numfmt::u64_to_dec(c.remaining)),
    );
    r.push(
        (String::from_str("X-Token-Limit-Reset"), crate::numfmt::u64_to_dec(c.reset_seconds)),
    );
    assert(r@.map_values(|h: (String, String)| (h.0@, h.1@)) =~= seq![
        ("X-Token-Limit-Limit"@, crate::numfmt::spec_dec(c.limit as nat)),
        ("X-Token-Limit-Remaining"@, crate::numfmt::spec_dec(c.remaining as nat)),
        ("X-Token-Limit-Reset"@, crate::numfmt::spec_dec(c.reset_seconds as nat)),
    ]);
    r
}

/// A zero-valued token cap never limits its own period: no violation carrying
/// a zero-capped period's reset interval can come out of the quota, whatever
/// the recorded usage is. Each period is identified by its reset interval,
/// which no two periods share.
pub proof fn lemma_zero_token_limit_unbounded(
    q: Quota,
    mt: QuotaPeriod,
    uin: QuotaPeriod,
    uout: QuotaPeriod,
)
    requires
        q.max_tokens == Some(mt),
    ensures
        mt.minute == 0 ==> (match spec_quota_token_violation(q, uin, uout) {
            Some(c) => c.reset_seconds != 60,
            None => true,
        }),
        mt.hour == 0 ==> (match spec_quota_token_violation(q, uin, uout) {
            Some(c) => c.reset_seconds != 3600,
            None => true,
        }),
        mt.day == 0 ==> (match spec_quota_token_violation(q, uin, uout) {
            Some(c) => c.reset_seconds != 86400,
            None => true,
        }),
        mt.week == 0 ==> (match spec_quota_token_violation(q, uin, uout) {
            Some(c) => c.reset_seconds != 604800,
            None => true,
        }),
        mt.month == 0 ==> (match spec_quota_token_violation(q, uin, uout) {
            Some(c) => c.reset_seconds != 2592000,
            None => true,
        }),
{
}

/// `q` with `tok` tokens added to each persisted period slot.
pub open spec fn spec_bumped(q: QuotaPeriod, tok: u64) -> QuotaPeriod {
    QuotaPeriod {
        second: q.second,
        minute: (q.minute + tok) as u64,
        hour: (q.hour + tok) as u64,
        day: (q.day + tok) as u64,
        week: (q.week + tok) as u64,
        month: (q.month + tok) as u64,
    }
}

/// The ten (key, counter) pairs one finished request writes, in order.
pub open spec fn spec_update_entries(
    user: Seq<char>,
    t: ClockTime,
    nin: QuotaPeriod,
    nout: QuotaPeriod,
) -> Seq<(Seq<char>, u64)> {
    seq![
        (spec_usage_key(PeriodKind::Minute, Direction::In, user, t), nin.minute),
        (spec_usage_key(PeriodKind::Minute, Direction::Out, user, t), nout.minute),
        (spec_usage_key(PeriodKind::Hour, Direction::In, user, t), nin.hour),
        (spec_usage_key(PeriodKind::Hour, Direction::Out, user, t), nout.hour),
        (spec_usage_key(PeriodKind::Day, Direction::In, user, t), nin.day),
        (spec_usage_key(PeriodKind::Day, Direction::Out, user, t), nout.day),
        (spec_usage_key(PeriodKind::Week, Direction::In, user, t), nin.week),
        (spec_usage_key(PeriodKind::Week, Direction::Out, user, t), nout.week),
        (spec_usage_key(PeriodKind::Month, Direction::In, user, t), nin.month),
        (spec_usage_key(PeriodKind::Month, Direction::Out, user, t), nout.month),
    ]
}

/// The usage table after one finished request committed its counters.
pub open spec fn spec_usage_after(
    m: Map<Seq<char>, u64>,
    user: Seq<char>,
    t: ClockTime,
    nin: QuotaPeriod,
    nout: QuotaPeriod,
) -> Map<Seq<char>, u64> {
    spec_fold_insert(m, spec_update_entries(user, t, nin, nout))
}

/// What each key reads after the update: a written bucket holds its new
/// counter, every other key is untouched.
pub proof fn lemma_usage_after_lookup(
    m: Map<Seq<char>, u64>,
    user: Seq<char>,
    t: ClockTime,
    nin: QuotaPeriod,
    nout: QuotaPeriod,
)
    requires
        t.wf(),
    ensures
        forall|p: PeriodKind| usage_lookup(
            spec_usage_after(m, user, t, nin, nout),
            #[trigger] spec_usage_key(p, Direction::In, user, t),
        ) == spec_period_field(nin, p),
        forall|p: PeriodKind| usage_lookup(
            spec_usage_after(m, user, t, nin, nout),
            #[trigger] spec_usage_key(p, Direction::Out, user, t),
        ) == spec_period_field(nout, p),
        forall|k: Seq<char>|
            (forall|p: PeriodKind, d: Direction| k != spec_usage_key(p, d, user, t))
                ==> #[trigger] usage_lookup(spec_usage_after(m, user, t, nin, nout), k)
                == usage_lookup(m, k),
{
    reveal_with_fuel(spec_fold_insert, 12);
    let es = spec_update_entries(user, t, nin, nout);
    assert forall|p1: PeriodKind, d1: Direction, p2: PeriodKind, d2: Direction|
        p1 != p2 || d1 != d2 implies #[trigger] spec_usage_key(p1, d1, user, t)
        != #[trigger] spec_usage_key(p2, d2, user, t) by {
        lemma_usage_keys_distinct(p1, d1, p2, d2, user, t);
    }
    assert(es.drop_first() =~= es.skip(1));
    assert(es.skip(1).drop_first() =~= es.skip(2));
    assert(es.skip(2).drop_first() =~= es.skip(3));
    assert(es.skip(3).drop_first() =~= es.skip(4));
    assert(es.skip(4).drop_first() =~= es.skip(5));
    assert(es.skip(5).drop_first() =~= es.skip(6));
    assert(es.skip(6).drop_first() =~= es.skip(7));
    assert(es.skip(7).drop_first() =~= es.skip(8));
    assert(es.skip(8).drop_first() =~= es.skip(9));
    assert(es.skip(9).drop_first() =~= Seq::<(Seq<char>, u64)>::empty());
}

/// The slot of `q` that belongs to period `p`.
pub open spec fn spec_period_field(q: QuotaPeriod, p: PeriodKind) -> u64 {
    match p {
        PeriodKind::Minute => q.minute,
        PeriodKind::Hour => q.hour,
        PeriodKind::Day => q.day,
        PeriodKind::Week => q.week,
        PeriodKind::Month => q.month,
    }
}

/// Usage accounting is additive and never double-counts or loses tokens:
/// for every user and every period, two sequential requests that each read
/// the committed counters, add their own `i` input and `o` output tokens and
/// commit, leave every input bucket exactly `2 * i` above its initial value
/// and every output bucket exactly `2 * o` above it.
#[verifier::rlimit(50)]
pub proof fn lemma_usage_update_additive(
    m0: Map<Seq<char>, u64>,
    user: Seq<char>,
    t: ClockTime,
    i: u64,
    o: u64,
)
    requires
        t.wf(),
        forall|p: PeriodKind| usage_lookup(
            m0,
            #[trigger] spec_usage_key(p, Direction::In, user, t),
        ) + 2 * i <= u64::MAX,
        forall|p: PeriodKind| usage_lookup(
            m0,
            #[trigger] spec_usage_key(p, Direction::Out, user, t),
        ) + 2 * o <= u64::MAX,
    ensures
        ({
            let uin0 = spec_usage_period(m0, user, t, Direction::In);
            let uout0 = spec_usage_period(m0, user, t, Direction::Out);
            let m1 = spec_usage_after(m0, user, t, spec_bumped(uin0, i), spec_bumped(uout0, o));
            let uin1 = spec_usage_period(m1, user, t, Direction::In);
            let uout1 = spec_usage_period(m1, user, t, Direction::Out);
            let m2 = spec_usage_after(m1, user, t, spec_bumped(uin1, i), spec_bumped(uout1, o));
            &&& forall|p: PeriodKind| usage_lookup(
                m2,
                #[trigger] spec_usage_key(p, Direction::In, user, t),
            ) == usage_lookup(m0, spec_usage_key(p, Direction::In, user, t)) + 2 * i
            &&& forall|p: PeriodKind| usage_lookup(
                m2,
                #[trigger] spec_usage_key(p, Direction::Out, user, t),
            ) == usage_lookup(m0, spec_usage_key(p, Direction::Out, user, t)) + 2 * o
        }),
{
    let uin0 = spec_usage_period(m0, user, t, Direction::In);
    let uout0 = spec_usage_period(m0, user, t, Direction::Out);
    let m1 = spec_usage_after(m0, user, t, spec_bumped(uin0, i), spec_bumped(uout0, o));
    let uin1 = spec_usage_period(m1, user, t, Direction::In);
    let uout1 = spec_usage_period(m1, user, t, Direction::Out);
    lemma_usage_after_lookup(m0, user, t, spec_bumped(uin0, i), spec_bumped(uout0, o));
    lemma_usage_after_lookup(m1, user, t, spec_bumped(uin1, i), spec_bumped(uout1, o));
}

/// Adds the measured input and output tokens of one finished request to all
/// period buckets of both directions and persists the ten counters in one
/// write transaction. The snapshots are the ones read before forwarding; the
/// returned pair holds the committed values. On a store failure the write
/// applied fully or not at all, and no other table was touched.
pub fn update_usage_periods(
    store: &mut Store,
    user: &str,
    t: &ClockTime,
    usage_in: &QuotaPeriod,
    usage_out: &QuotaPeriod,
    input_tokens: u64,
    output_tokens: u64,
) -> (r: Result<(QuotaPeriod, QuotaPeriod), StoreError>)
    requires
        t.wf(),
        usage_in.minute + input_tokens <= u64::MAX,
        usage_in.hour + input_tokens <= u64::MAX,
        usage_in.day + input_tokens <= u64::MAX,
        usage_in.week + input_tokens <= u64::MAX,
        usage_in.month + input_tokens <= u64::MAX,
        usage_out.minute + output_tokens <= u64::MAX,
        usage_out.hour + output_tokens <= u64::MAX,
        usage_out.day + output_tokens <= u64::MAX,
        usage_out.week + output_tokens <= u64::MAX,
        usage_out.month + output_tokens <= u64::MAX,
    ensures
        ({
            let nin = spec_bumped(*usage_in, input_tokens);
            let nout = spec_bumped(*usage_out, output_tokens);
            match r {
                Ok(p) => p.0 == nin && p.1 == nout && final(store).usage() == spec_usage_after(
                    old(store).usage(),
                    user@,
                    *t,
                    nin,
                    nout,
                ) && final(store).tokens() == old(store).tokens() && final(store).groups()
                    == old(store).groups(),
                Err(_) => (final(store).usage() == old(store).usage() || final(store).usage()
                    == spec_usage_after(old(store).usage(), user@, *t, nin, nout))
                    && final(store).tokens() == old(store).tokens() && final(store).groups()
                    == old(store).groups(),
            }
        }),
{
    let keys = extract_usage_keys(user, t);
    let nin = QuotaPeriod {
        second: usage_in.second,
        minute: usage_in.minute + input_tokens,
        hour: usage_in.hour + input_tokens,
        day: usage_in.day + input_tokens,
        week: usage_in.week + input_tokens,
        month: usage_in.month + input_tokens,
    };
    let nout = QuotaPeriod {
        second: usage_out.second,
        minute: usage_out.minute + output_tokens,
        hour: usage_out.hour + output_tokens,
        day: usage_out.day + output_tokens,
        week: usage_out.week + output_tokens,
        month: usage_out.month + output_tokens,
    };
    let UsageKeys {
        input_minute,
        output_minute,
        input_hour,
        output_hour,
        input_day,
        output_day,
        input_week,
        output_week,
        input_month,
        output_month,
    } = keys;
    let mut entries: Vec<(String, u64)> = Vec::new();
    entries.push((input_minute, nin.minute));
    entries.push((output_minute, nout.minute));
    entries.push((input_hour, nin.hour));
    entries.push((output_hour, nout.hour));
    entries.push((input_day, nin.day));
    entries.push((output_day, nout.day));
    entries.push((input_week, nin.week));
    entries.push((output_week, nout.week));
    entries.push((input_month, nin.month));
    entries.push((output_month, nout.month));
    assert(entries@.map_values(|e: (String, u64)| (e.0@, e.1)) =~= spec_update_entries(
        user@,
        *t,
        nin,
        nout,
    ));
    match store.usage_put_all(&entries) {
        Ok(_) => Ok((nin, nout)),
        Err(e) => Err(e),
    }
}

} // verus!
