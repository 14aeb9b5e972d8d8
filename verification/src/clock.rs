//! The gateway's model of a UTC instant: the fields a usage bucket key is
//! derived from, with verified civil-calendar arithmetic (leap years, day of
//! year, weekday, and the Monday-based week number used by the weekly bucket).
use vstd::prelude::*;

verus! {

/// One UTC instant, truncated to the minute. The collaborator that reads the
/// real clock converts into this; everything derived from it is verified.
#[derive(Clone, Copy, PartialEq, Eq, Structural, Debug)]
pub struct ClockTime {
    pub year: u64,
    pub month: u64,
    pub day: u64,
    pub hour: u64,
    pub minute: u64,
}

pub open spec fn is_leap_year(y: nat) -> bool {
    (y % 4 == 0 && y % 100 != 0) || y % 400 == 0
}

pub open spec fn days_in_month(y: nat, m: nat) -> nat {
    if m == 2 {
        if is_leap_year(y) {
            29
        } else {
            28
        }
    } else if m == 4 || m == 6 || m == 9 || m == 11 {
        30
    } else {
        31
    }
}

impl ClockTime {
    /// A calendar-valid instant in the range the four-digit key format covers.
    pub open spec fn wf(self) -> bool {
        &&& 1970 <= self.year <= 9999
        &&& 1 <= self.month <= 12
        &&& 1 <= self.day <= days_in_month(self.year as nat, self.month as nat)
        &&& self.hour < 24
        &&& self.minute < 60
    }

    pub fn new(year: u64, month: u64, day: u64, hour: u64, minute: u64) -> (r: Option<ClockTime>)
        ensures
            match r {
                Some(t) => t.wf() && t.year == year && t.month == month && t.day == day
                    && t.hour == hour && t.minute == minute,
                None => !(ClockTime { year, month, day, hour, minute }).wf(),
            },
    {
        let t = ClockTime { year, month, day, hour, minute };
        if 1970 <= year && year <= 9999 && 1 <= month && month <= 12 && 1 <= day
            && day <= days_in_month_exec(year, month) && hour < 24 && minute < 60 {
            Some(t)
        } else {
            None
        }
    }
}

fn days_in_month_exec(y: u64, m: u64) -> (r: u64)
    ensures
        r == days_in_month(y as nat, m as nat),
{
    if m == 2 {
        if (y % 4 == 0 && y % 100 != 0) || y % 400 == 0 {
            29
        } else {
            28
        }
    } else if m == 4 || m == 6 || m == 9 || m == 11 {
        30
    } else {
        31
    }
}

/// Days in the months of year `y` strictly before month `m`.
pub open spec fn days_before_month(y: nat, m: nat) -> nat
    decreases m,
{
    if m <= 1 {
        0
    } else {
        days_before_month(y, (m - 1) as nat) + days_in_month(y, (m - 1) as nat)
    }
}

/// Zero-based day of the year of `t` (0 for the first of January).
pub open spec fn day_of_year0(t: ClockTime) -> nat
    recommends
        t.wf(),
{
    (days_before_month(t.year as nat, t.month as nat) + t.day - 1) as nat
}

/// Days in the years from 1970 up to, excluding, `y`.
pub open spec fn days_before_year(y: nat) -> nat
    decreases y,
{
    if y <= 1970 {
        0
    } else {
        days_before_year((y - 1) as nat) + if is_leap_year((y - 1) as nat) {
            366nat
        } else {
            365nat
        }
    }
}

/// Days between 1970-01-01 and the date of `t`.
pub open spec fn days_since_epoch(t: ClockTime) -> nat
    recommends
        t.wf(),
{
    days_before_year(t.year as nat) + day_of_year0(t)
}

/// Days since Monday of the week of `t` (0 = Monday, ..., 6 = Sunday).
/// 1970-01-01 was a Thursday, three days after a Monday.
pub open spec fn weekday_from_monday(t: ClockTime) -> nat
    recommends
        t.wf(),
{
    (days_since_epoch(t) + 3) % 7
}

/// The Monday-based week number of the year (00..53): days in or after the
/// first Monday of the year fall in week 1 and onward, earlier days in week 0.
pub open spec fn week_of_year(t: ClockTime) -> nat
    recommends
        t.wf(),
{
    ((day_of_year0(t) + 7 - weekday_from_monday(t)) / 7) as nat
}

proof fn lemma_days_before_month_le(y: nat, m: nat)
    requires
        1 <= m <= 13,
    ensures
        days_before_month(y, m) <= 31 * (m - 1),
    decreases m,
{
    if m > 1 {
        lemma_days_before_month_le(y, (m - 1) as nat);
    }
}

pub proof fn lemma_day_of_year0_le(t: ClockTime)
    requires
        t.wf(),
    ensures
        day_of_year0(t) <= 371,
{
    lemma_days_before_month_le(t.year as nat, t.month as nat);
}

pub proof fn lemma_week_of_year_le(t: ClockTime)
    requires
        t.wf(),
    ensures
        week_of_year(t) <= 54,
{
    lemma_day_of_year0_le(t);
}

fn days_before_month_exec(y: u64, m: u64) -> (r: u64)
    requires
        m <= 13,
    ensures
        r == days_before_month(y as nat, m as nat),
{
    let mut k: u64 = 1;
    let mut acc: u64 = 0;
    while k < m
        invariant
            1 <= k,
            k <= m || k == 1,
            m <= 13,
            acc == days_before_month(y as nat, k as nat),
            acc <= 31 * (k - 1),
        decreases m - k,
    {
        proof {
            lemma_days_before_month_le(y as nat, (k + 1) as nat);
        }
        acc = acc + days_in_month_exec(y, k);
        k += 1;
    }
    acc
}

fn days_before_year_exec(y: u64) -> (r: u64)
    requires
        y <= 9999,
    ensures
        r == days_before_year(y as nat),
        r <= 2938980,
{
    let mut k: u64 = 1970;
    let mut acc: u64 = 0;
    while k < y
        invariant
            1970 <= k,
            k <= y || k == 1970,
            y <= 9999,
            acc == days_before_year(k as nat),
            acc <= 366 * (k - 1970),
        decreases y - k,
    {
        let leap = (k % 4 == 0 && k % 100 != 0) || k % 400 == 0;
        acc = acc + if leap {
            366
        } else {
            365
        };
        k += 1;
    }
    acc
}

/// Days since Monday of the week of `t` (0 = Monday, ..., 6 = Sunday).
pub fn weekday_from_monday_exec(t: &ClockTime) -> (r: u64)
    requires
        t.wf(),
    ensures
        r == weekday_from_monday(*t),
        r < 7,
{
    let yd = days_before_year_exec(t.year);
    let md = days_before_month_exec(t.year, t.month);
    proof {
        lemma_days_before_month_le(t.year as nat, t.month as nat);
    }
    (yd + md + (t.day - 1) + 3) % 7
}

/// The Monday-based week number of the year of `t` (00..53).
pub fn week_of_year_exec(t: &ClockTime) -> (r: u64)
    requires
        t.wf(),
    ensures
        r == week_of_year(*t),
        r <= 54,
{
    let md = days_before_month_exec(t.year, t.month);
    proof {
        lemma_days_before_month_le(t.year as nat, t.month as nat);
    }
    let yday0 = md + (t.day - 1);
    let wd = weekday_from_monday_exec(t);
    proof {
        lemma_week_of_year_le(*t);
    }
    (yday0 + 7 - wd) / 7
}

} // verus!
