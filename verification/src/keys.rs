//! Usage bucket keys: `<prefix>:<bucket timestamp>:<user>:<direction>`, one
//! per period and direction, derived deterministically from the instant.
use vstd::prelude::*;
use crate::clock::{ClockTime, week_of_year, week_of_year_exec};
use crate::numfmt::{spec_pad, spec_dec, push_pad};
use crate::text::string_push;

verus! {

/// The five persisted quota periods (the one-second window is only rate
/// limited in memory and never persisted).
#[derive(Clone, Copy, PartialEq, Eq, Structural, Debug)]
pub enum PeriodKind {
    Minute,
    Hour,
    Day,
    Week,
    Month,
}

/// Whether a counter counts the request's input tokens or its output tokens.
#[derive(Clone, Copy, PartialEq, Eq, Structural, Debug)]
pub enum Direction {
    In,
    Out,
}

pub open spec fn spec_prefix_char(p: PeriodKind) -> char {
    match p {
        PeriodKind::Minute => 'M',
        PeriodKind::Hour => 'H',
        PeriodKind::Day => 'd',
        PeriodKind::Week => 'W',
        PeriodKind::Month => 'm',
    }
}

/// The bucket timestamp: the instant truncated to the period's resolution.
pub open spec fn spec_stamp(p: PeriodKind, t: ClockTime) -> Seq<char> {
    let y = spec_pad(t.year as nat, 4);
    let mo = spec_pad(t.month as nat, 2);
    let d = spec_pad(t.day as nat, 2);
    let h = spec_pad(t.hour as nat, 2);
    let mi = spec_pad(t.minute as nat, 2);
    match p {
        PeriodKind::Minute => y + mo + d + h + mi,
        PeriodKind::Hour => y + mo + d + h,
        PeriodKind::Day => y + mo + d,
        PeriodKind::Week => y + spec_pad(week_of_year(t), 2),
        PeriodKind::Month => y + mo,
    }
}

pub open spec fn spec_dir_suffix(d: Direction) -> Seq<char> {
    match d {
        Direction::In => seq![':', 'i', 'n'],
        Direction::Out => seq![':', 'o', 'u', 't'],
    }
}

/// The persisted key of one usage counter.
pub open spec fn spec_usage_key(p: PeriodKind, d: Direction, user: Seq<char>, t: ClockTime) -> Seq<
    char,
> {
    seq![spec_prefix_char(p), ':'] + spec_stamp(p, t) + seq![':'] + user + spec_dir_suffix(d)
}

proof fn lemma_dec_len(n: nat)
    ensures
        spec_dec(n).len() >= 1,
        n < 10 ==> spec_dec(n).len() == 1,
        n < 100 ==> spec_dec(n).len() <= 2,
        n < 1000 ==> spec_dec(n).len() <= 3,
        n < 10000 ==> spec_dec(n).len() <= 4,
    decreases n,
{
    if n >= 10 {
        lemma_dec_len(n / 10);
    }
}

proof fn lemma_pad_len(n: nat, w: nat)
    requires
        spec_dec(n).len() <= w,
    ensures
        spec_pad(n, w).len() == w,
{
}

pub proof fn lemma_stamp_len(p: PeriodKind, t: ClockTime)
    requires
        t.wf(),
    ensures
        spec_stamp(p, t).len() == match p {
            PeriodKind::Minute => 12int,
            PeriodKind::Hour => 10int,
            PeriodKind::Day => 8int,
            PeriodKind::Week => 6int,
            PeriodKind::Month => 6int,
        },
{
    lemma_dec_len(t.year as nat);
    lemma_dec_len(t.month as nat);
    lemma_dec_len(t.day as nat);
    lemma_dec_len(t.hour as nat);
    lemma_dec_len(t.minute as nat);
    lemma_dec_len(week_of_year(t));
    crate::clock::lemma_week_of_year_le(t);
    lemma_pad_len(t.year as nat, 4);
    lemma_pad_len(t.month as nat, 2);
    lemma_pad_len(t.day as nat, 2);
    lemma_pad_len(t.hour as nat, 2);
    lemma_pad_len(t.minute as nat, 2);
    lemma_pad_len(week_of_year(t), 2);
}

/// Two different (period, direction) pairs never collide on a key, whatever
/// the user id holds: different periods differ in the first character, and the
/// two directions of one period give keys of different lengths.
pub proof fn lemma_usage_keys_distinct(
    p1: PeriodKind,
    d1: Direction,
    p2: PeriodKind,
    d2: Direction,
    user: Seq<char>,
    t: ClockTime,
)
    requires
        t.wf(),
        p1 != p2 || d1 != d2,
    ensures
        spec_usage_key(p1, d1, user, t) != spec_usage_key(p2, d2, user, t),
{
    let k1 = spec_usage_key(p1, d1, user, t);
    let k2 = spec_usage_key(p2, d2, user, t);
    lemma_stamp_len(p1, t);
    lemma_stamp_len(p2, t);
    if p1 != p2 {
        assert(k1[0] == spec_prefix_char(p1));
        assert(k2[0] == spec_prefix_char(p2));
    } else {
        assert(k1.len() != k2.len());
    }
}

/// The ten bucket keys one request touches.
pub struct UsageKeys {
    pub input_minute: String,
    pub output_minute: String,
    pub input_hour: String,
    pub output_hour: String,
    pub input_day: String,
    pub output_day: String,
    pub input_week: String,
    pub output_week: String,
    pub input_month: String,
    pub output_month: String,
}

impl UsageKeys {
    pub open spec fn wf(self, user: Seq<char>, t: ClockTime) -> bool {
        &&& self.input_minute@ == spec_usage_key(PeriodKind::Minute, Direction::In, user, t)
        &&& self.output_minute@ == spec_usage_key(PeriodKind::Minute, Direction::Out, user, t)
        &&& self.input_hour@ == spec_usage_key(PeriodKind::Hour, Direction::In, user, t)
        &&& self.output_hour@ == spec_usage_key(PeriodKind::Hour, Direction::Out, user, t)
        &&& self.input_day@ == spec_usage_key(PeriodKind::Day, Direction::In, user, t)
        &&& self.output_day@ == spec_usage_key(PeriodKind::Day, Direction::Out, user, t)
        &&& self.input_week@ == spec_usage_key(PeriodKind::Week, Direction::In, user, t)
        &&& self.output_week@ == spec_usage_key(PeriodKind::Week, Direction::Out, user, t)
        &&& self.input_month@ == spec_usage_key(PeriodKind::Month, Direction::In, user, t)
        &&& self.output_month@ == spec_usage_key(PeriodKind::Month, Direction::Out, user, t)
    }
}

fn push_stamp(s: &mut String, p: PeriodKind, t: &ClockTime)
    requires
        t.wf(),
    ensures
        final(s)@ == old(s)@ + spec_stamp(p, *t),
{
    push_pad(s, t.year, 4);
    match p {
        PeriodKind::Minute => {
            push_pad(s, t.month, 2);
            push_pad(s, t.day, 2);
            push_pad(s, t.hour, 2);
            push_pad(s, t.minute, 2);
        },
        PeriodKind::Hour => {
            push_pad(s, t.month, 2);
            push_pad(s, t.day, 2);
            push_pad(s, t.hour, 2);
        },
        PeriodKind::Day => {
            push_pad(s, t.month, 2);
            push_pad(s, t.day, 2);
        },
        PeriodKind::Week => {
            let w = week_of_year_exec(t);
            push_pad(s, w, 2);
        },
        PeriodKind::Month => {
            push_pad(s, t.month, 2);
        },
    }
    assert(s@ =~= old(s)@ + spec_stamp(p, *t));
}

fn build_key(p: PeriodKind, d: Direction, user: &str, t: &ClockTime) -> (r: String)
    requires
        t.wf(),
    ensures
        r@ == spec_usage_key(p, d, user@, *t),
{
    let mut s = String::new();
    let prefix = match p {
        PeriodKind::Minute => 'M',
        PeriodKind::Hour => 'H',
        PeriodKind::Day => 'd',
        PeriodKind::Week => 'W',
        PeriodKind::Month => 'm',
    };
    string_push(&mut s, prefix);
    string_push(&mut s, ':');
    push_stamp(&mut s, p, t);
    string_push(&mut s, ':');
    s.append(user);
    match d {
        Direction::In => {
            string_push(&mut s, ':');
            string_push(&mut s, 'i');
            string_push(&mut s, 'n');
        },
        Direction::Out => {
            string_push(&mut s, ':');
            string_push(&mut s, 'o');
            string_push(&mut s, 'u');
            string_push(&mut s, 't');
        },
    }
    assert(s@ =~= spec_usage_key(p, d, user@, *t));
    s
}

/// Derives the ten period-bucket keys for `user` at the instant `t`.
pub fn extract_usage_keys(user: &str, t: &ClockTime) -> (r: UsageKeys)
    requires
        t.wf(),
    ensures
        r.wf(user@, *t),
{
    UsageKeys {
        input_minute: build_key(PeriodKind::Minute, Direction::In, user, t),
        output_minute: build_key(PeriodKind::Minute, Direction::Out, user, t),
        input_hour: build_key(PeriodKind::Hour, Direction::In, user, t),
        output_hour: build_key(PeriodKind::Hour, Direction::Out, user, t),
        input_day: build_key(PeriodKind::Day, Direction::In, user, t),
        output_day: build_key(PeriodKind::Day, Direction::Out, user, t),
        input_week: build_key(PeriodKind::Week, Direction::In, user, t),
        output_week: build_key(PeriodKind::Week, Direction::Out, user, t),
        input_month: build_key(PeriodKind::Month, Direction::In, user, t),
        output_month: build_key(PeriodKind::Month, Direction::Out, user, t),
    }
}

} // verus!
