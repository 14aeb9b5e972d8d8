//! Verified decimal formatting: plain and zero-padded renderings of counters,
//! used by the usage bucket keys and the limit response headers.
use vstd::prelude::*;
use crate::text::string_push;

verus! {

pub open spec fn spec_digit(d: nat) -> char {
    if d == 0 {
        '0'
    } else if d == 1 {
        '1'
    } else if d == 2 {
        '2'
    } else if d == 3 {
        '3'
    } else if d == 4 {
        '4'
    } else if d == 5 {
        '5'
    } else if d == 6 {
        '6'
    } else if d == 7 {
        '7'
    } else if d == 8 {
        '8'
    } else {
        '9'
    }
}

/// The decimal rendering of `n`, most significant digit first, no sign,
/// no leading zeros (except for `n == 0` itself).
pub open spec fn spec_dec(n: nat) -> Seq<char>
    decreases n,
{
    if n < 10 {
        seq![spec_digit(n)]
    } else {
        spec_dec(n / 10).push(spec_digit(n % 10))
    }
}

/// The decimal rendering of `n` left-padded with zeros to at least `w` characters.
pub open spec fn spec_pad(n: nat, w: nat) -> Seq<char> {
    if spec_dec(n).len() >= w {
        spec_dec(n)
    } else {
        Seq::new((w - spec_dec(n).len()) as nat, |i: int| '0') + spec_dec(n)
    }
}

fn digit_char(d: u64) -> (c: char)
    requires
        d < 10,
    ensures
        c == spec_digit(d as nat),
{
    if d == 0 {
        '0'
    } else if d == 1 {
        '1'
    } else if d == 2 {
        '2'
    } else if d == 3 {
        '3'
    } else if d == 4 {
        '4'
    } else if d == 5 {
        '5'
    } else if d == 6 {
        '6'
    } else if d == 7 {
        '7'
    } else if d == 8 {
        '8'
    } else {
        '9'
    }
}

pub fn push_dec(s: &mut String, n: u64)
    ensures
        final(s)@ == old(s)@ + spec_dec(n as nat),
    decreases n,
{
    if n < 10 {
        string_push(s, digit_char(n));
        assert(s@ =~= old(s)@ + spec_dec(n as nat));
    } else {
        push_dec(s, n / 10);
        string_push(s, digit_char(n % 10));
        assert(s@ =~= old(s)@ + spec_dec(n as nat));
    }
}

pub fn push_pad(s: &mut String, n: u64, w: usize)
    ensures
        final(s)@ == old(s)@ + spec_pad(n as nat, w as nat),
{
    let mut tmp = String::new();
    push_dec(&mut tmp, n);
    let d = tmp.as_str().unicode_len();
    let mut z: usize = d;
    while z < w
        invariant
            d <= z,
            z <= w || z == d,
            d == spec_dec(n as nat).len(),
            tmp@ == spec_dec(n as nat),
            s@ == old(s)@ + Seq::new((z - d) as nat, |i: int| '0'),
        decreases w - z,
    {
        string_push(s, '0');
        z += 1;
        assert(s@ =~= old(s)@ + Seq::new((z - d) as nat, |i: int| '0'));
    }
    s.append(tmp.as_str());
    assert(s@ =~= old(s)@ + spec_pad(n as nat, w as nat));
}

pub fn u64_to_dec(n: u64) -> (r: String)
    ensures
        r@ == spec_dec(n as nat),
{
    let mut s = String::new();
    push_dec(&mut s, n);
    assert(s@ =~= spec_dec(n as nat));
    s
}

} // verus!
