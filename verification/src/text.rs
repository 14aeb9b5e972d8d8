//! Verified text helpers: equality, trimming, comma-splitting, substring
//! search, and the trusted case-folding primitives the content filter uses.
use vstd::prelude::*;

verus! {

/// Relies on String::push: appends exactly one character at the end.
#[verifier::external_body]
pub fn string_push(s: &mut String, c: char)
    ensures
        final(s)@ == old(s)@.push(c),
{
    s.push(c);
}

/// What `str::to_lowercase` returns; it depends on the characters alone.
pub uninterp spec fn lower_of(s: Seq<char>) -> Seq<char>;

/// Relies on str::to_lowercase: Unicode lowercasing of the whole string,
/// a function of the characters alone.
#[verifier::external_body]
pub fn lowercase(s: &str) -> (r: String)
    ensures
        r@ == lower_of(s@),
{
    s.to_lowercase()
}

/// What `String::from_utf8_lossy` returns; it depends on the bytes alone.
pub uninterp spec fn utf8_lossy_of(b: Seq<u8>) -> Seq<char>;

/// Relies on String::from_utf8_lossy: decodes UTF-8, substituting the
/// replacement character for invalid sequences; a function of the bytes alone.
#[verifier::external_body]
pub fn utf8_lossy(b: &[u8]) -> (r: String)
    ensures
        r@ == utf8_lossy_of(b@),
{
    String::from_utf8_lossy(b).into_owned()
}

pub fn str_eq(a: &str, b: &str) -> (r: bool)
    ensures
        r == (a@ == b@),
{
    let x = a.to_owned();
    let y = b.to_owned();
    x == y
}

/// The whitespace the configuration syntax strips around comma-separated items.
pub open spec fn is_space(c: char) -> bool {
    c == ' ' || c == '\t' || c == '\n' || c == '\r'
}

fn is_space_exec(c: char) -> (r: bool)
    ensures
        r == is_space(c),
{
    c == ' ' || c == '\t' || c == '\n' || c == '\r'
}

pub open spec fn spec_trim_start(s: Seq<char>) -> Seq<char>
    decreases s.len(),
{
    if s.len() > 0 && is_space(s[0]) {
        spec_trim_start(s.subrange(1, s.len() as int))
    } else {
        s
    }
}

pub open spec fn spec_trim_end(s: Seq<char>) -> Seq<char>
    decreases s.len(),
{
    if s.len() > 0 && is_space(s[s.len() - 1]) {
        spec_trim_end(s.subrange(0, s.len() - 1))
    } else {
        s
    }
}

/// The value of a configuration item with surrounding whitespace removed.
pub open spec fn spec_trim(s: Seq<char>) -> Seq<char> {
    spec_trim_end(spec_trim_start(s))
}

fn trim_start_exec(s: &str) -> (r: String)
    ensures
        r@ == spec_trim_start(s@),
    decreases s@.len(),
{
    let n = s.unicode_len();
    if n == 0 {
        String::new()
    } else {
        let c = s.get_char(0);
        if is_space_exec(c) {
            let rest = s.substring_char(1, n);
            trim_start_exec(rest)
        } else {
            s.to_owned()
        }
    }
}

fn trim_end_exec(s: &str) -> (r: String)
    ensures
        r@ == spec_trim_end(s@),
    decreases s@.len(),
{
    let n = s.unicode_len();
    if n == 0 {
        String::new()
    } else {
        let c = s.get_char(n - 1);
        if is_space_exec(c) {
            let rest = s.substring_char(0, n - 1);
            trim_end_exec(rest)
        } else {
            s.to_owned()
        }
    }
}

pub fn trim_str(s: &str) -> (r: String)
    ensures
        r@ == spec_trim(s@),
{
    let a = trim_start_exec(s);
    trim_end_exec(a.as_str())
}

/// Index of the first occurrence of `sep`, or -1 when `sep` does not occur.
pub open spec fn find_sep(s: Seq<char>, sep: char) -> int
    decreases s.len(),
{
    if s.len() == 0 {
        -1
    } else if s[0] == sep {
        0
    } else {
        let r = find_sep(s.subrange(1, s.len() as int), sep);
        if r == -1 {
            -1
        } else {
            r + 1
        }
    }
}

pub proof fn lemma_find_sep(s: Seq<char>, sep: char)
    ensures
        find_sep(s, sep) == -1 ==> forall|k: int| 0 <= k < s.len() ==> s[k] != sep,
        find_sep(s, sep) != -1 ==> 0 <= find_sep(s, sep) < s.len() && s[find_sep(s, sep)] == sep
            && forall|k: int| 0 <= k < find_sep(s, sep) ==> s[k] != sep,
    decreases s.len(),
{
    if s.len() > 0 && s[0] != sep {
        let tail = s.subrange(1, s.len() as int);
        lemma_find_sep(tail, sep);
        assert forall|k: int| 1 <= k < s.len() implies s[k] == tail[k - 1] by {}
    }
}

fn find_char(s: &str, sep: char) -> (r: Option<usize>)
    ensures
        match r {
            Some(i) => i == find_sep(s@, sep),
            None => find_sep(s@, sep) == -1,
        },
{
    let n = s.unicode_len();
    let mut i: usize = 0;
    while i < n
        invariant
            0 <= i <= n,
            n == s@.len(),
            forall|k: int| 0 <= k < i ==> s@[k] != sep,
        decreases n - i,
    {
        if s.get_char(i) == sep {
            proof {
                lemma_find_sep(s@, sep);
            }
            return Some(i);
        }
        i += 1;
    }
    proof {
        lemma_find_sep(s@, sep);
    }
    None
}

/// The comma-separated items of a configuration value, each trimmed.
pub open spec fn spec_split_trim(s: Seq<char>) -> Seq<Seq<char>>
    decreases s.len(),
{
    let i = find_sep(s, ',');
    if i < 0 || i >= s.len() {
        seq![spec_trim(s)]
    } else {
        seq![spec_trim(s.subrange(0, i))] + spec_split_trim(s.subrange(i + 1, s.len() as int))
    }
}

pub fn split_csv_trim(s: &str) -> (r: Vec<String>)
    ensures
        r.deep_view() == spec_split_trim(s@),
    decreases s@.len(),
{
    let n = s.unicode_len();
    let idx = find_char(s, ',');
    proof {
        lemma_find_sep(s@, ',');
    }
    match idx {
        None => {
            let mut out: Vec<String> = Vec::new();
            out.push(trim_str(s));
            assert(out.deep_view() =~= spec_split_trim(s@));
            out
        },
        Some(i) => {
            let head = s.substring_char(0, i);
            let tail = s.substring_char(i + 1, n);
            let mut rest = split_csv_trim(tail);
            rest.insert(0, trim_str(head));
            assert(rest.deep_view() =~= spec_split_trim(s@));
            rest
        },
    }
}

pub fn list_contains_str(v: &Vec<String>, x: &str) -> (r: bool)
    ensures
        r == v.deep_view().contains(x@),
{
    let n = v.len();
    let mut i: usize = 0;
    while i < n
        invariant
            0 <= i <= n,
            n == v.len(),
            forall|k: int| 0 <= k < i ==> v.deep_view()[k] != x@,
        decreases n - i,
    {
        if str_eq(v[i].as_str(), x) {
            assert(v.deep_view()[i as int] == x@);
            return true;
        }
        i += 1;
    }
    false
}

/// Whether some item of `a` also occurs in `b`.
pub open spec fn spec_lists_intersect(a: Seq<Seq<char>>, b: Seq<Seq<char>>) -> bool {
    exists|i: int| 0 <= i < a.len() && b.contains(a[i])
}

pub fn lists_intersect(a: &Vec<String>, b: &Vec<String>) -> (r: bool)
    ensures
        r == spec_lists_intersect(a.deep_view(), b.deep_view()),
{
    let n = a.len();
    let mut i: usize = 0;
    while i < n
        invariant
            0 <= i <= n,
            n == a.len(),
            forall|k: int| 0 <= k < i ==> !b.deep_view().contains(a.deep_view()[k]),
        decreases n - i,
    {
        if list_contains_str(b, a[i].as_str()) {
            assert(b.deep_view().contains(a.deep_view()[i as int]));
            return true;
        }
        i += 1;
    }
    false
}

fn match_at(hay: &str, pat: &str, i: usize) -> (r: bool)
    requires
        i + pat@.len() <= hay@.len(),
    ensures
        r == (hay@.subrange(i as int, i + pat@.len()) == pat@),
{
    let n = hay.unicode_len();
    let m = pat.unicode_len();
    let mut j: usize = 0;
    while j < m
        invariant
            0 <= j <= m,
            m == pat@.len(),
            n == hay@.len(),
            i + m <= n,
            forall|k: int| 0 <= k < j ==> hay@[i + k] == pat@[k],
        decreases m - j,
    {
        if hay.get_char(i + j) != pat.get_char(j) {
            assert(hay@.subrange(i as int, i + pat@.len())[j as int] != pat@[j as int]);
            return false;
        }
        j += 1;
    }
    assert(hay@.subrange(i as int, i + pat@.len()) =~= pat@);
    true
}

/// Whether `pat` occurs contiguously inside `hay`.
pub open spec fn is_substring(hay: Seq<char>, pat: Seq<char>) -> bool {
    exists|i: int| 0 <= i <= hay.len() - pat.len() && #[trigger] hay.subrange(i, i + pat.len())
        == pat
}

pub fn str_contains(hay: &str, pat: &str) -> (r: bool)
    ensures
        r == is_substring(hay@, pat@),
{
    let n = hay.unicode_len();
    let m = pat.unicode_len();
    if m > n {
        return false;
    }
    if m == 0 {
        assert(hay@.subrange(0, 0 + pat@.len() as int) =~= pat@);
        return true;
    }
    let mut i: usize = 0;
    while i <= n - m
        invariant
            0 <= i <= n - m + 1,
            1 <= m <= n,
            n == hay@.len(),
            m == pat@.len(),
            forall|k: int| 0 <= k < i ==> #[trigger] hay@.subrange(k, k + pat@.len()) != pat@,
        decreases n - i,
    {
        if match_at(hay, pat, i) {
            assert(is_substring(hay@, pat@));
            return true;
        }
        i += 1;
    }
    false
}

/// Index of the first occurrence of `pat` inside `hay`, or -1 when none.
pub open spec fn find_sub(hay: Seq<char>, pat: Seq<char>) -> int
    decreases hay.len(),
{
    if hay.len() < pat.len() {
        -1
    } else if hay.subrange(0, pat.len() as int) == pat {
        0
    } else if hay.len() == 0 {
        -1
    } else {
        let r = find_sub(hay.subrange(1, hay.len() as int), pat);
        if r == -1 {
            -1
        } else {
            r + 1
        }
    }
}

pub proof fn lemma_find_sub(hay: Seq<char>, pat: Seq<char>)
    ensures
        find_sub(hay, pat) == -1 ==> forall|k: int|
            0 <= k <= hay.len() - pat.len() ==> #[trigger] hay.subrange(k, k + pat.len())
                != pat,
        find_sub(hay, pat) != -1 ==> 0 <= find_sub(hay, pat) && find_sub(hay, pat)
            + pat.len() <= hay.len() && hay.subrange(
            find_sub(hay, pat),
            find_sub(hay, pat) + pat.len(),
        ) == pat && forall|k: int|
            0 <= k < find_sub(hay, pat) ==> #[trigger] hay.subrange(k, k + pat.len())
                != pat,
    decreases hay.len(),
{
    if hay.len() >= pat.len() && hay.subrange(0, pat.len() as int) != pat {
        if hay.len() == 0 {
            assert(hay.subrange(0, pat.len() as int) =~= pat);
        } else {
            let tail = hay.subrange(1, hay.len() as int);
            lemma_find_sub(tail, pat);
            assert forall|k: int| 1 <= k <= hay.len() - pat.len() implies #[trigger] hay.subrange(
                k,
                k + pat.len(),
            ) == tail.subrange(k - 1, k - 1 + pat.len()) by {
                assert(hay.subrange(k, k + pat.len()) =~= tail.subrange(
                    k - 1,
                    k - 1 + pat.len(),
                ));
            }
        }
    }
}

fn find_sub_exec(hay: &str, pat: &str) -> (r: Option<usize>)
    ensures
        match r {
            Some(i) => i == find_sub(hay@, pat@),
            None => find_sub(hay@, pat@) == -1,
        },
{
    let n = hay.unicode_len();
    let m = pat.unicode_len();
    proof {
        lemma_find_sub(hay@, pat@);
    }
    if m > n {
        return None;
    }
    if m == 0 {
        assert(hay@.subrange(0, 0 + pat@.len() as int) =~= pat@);
        return Some(0);
    }
    let mut i: usize = 0;
    while i <= n - m
        invariant
            0 <= i <= n - m + 1,
            1 <= m <= n,
            n == hay@.len(),
            m == pat@.len(),
            forall|k: int| 0 <= k < i ==> #[trigger] hay@.subrange(k, k + pat@.len()) != pat@,
        decreases n - i,
    {
        if match_at(hay, pat, i) {
            proof {
                lemma_find_sub(hay@, pat@);
            }
            return Some(i);
        }
        i += 1;
    }
    proof {
        lemma_find_sub(hay@, pat@);
    }
    None
}

/// `s` with every occurrence of `pat` replaced by `rep`, scanning left to
/// right and never rescanning replaced text.
pub open spec fn spec_replace_all(s: Seq<char>, pat: Seq<char>, rep: Seq<char>) -> Seq<char>
    decreases s.len(),
{
    let i = find_sub(s, pat);
    if pat.len() == 0 || i < 0 || i + pat.len() > s.len() {
        s
    } else {
        s.subrange(0, i) + rep + spec_replace_all(
            s.subrange(i + pat.len(), s.len() as int),
            pat,
            rep,
        )
    }
}

pub fn str_replace_all(s: &str, pat: &str, rep: &str) -> (r: String)
    requires
        pat@.len() > 0,
    ensures
        r@ == spec_replace_all(s@, pat@, rep@),
    decreases s@.len(),
{
    proof {
        lemma_find_sub(s@, pat@);
    }
    match find_sub_exec(s, pat) {
        None => s.to_owned(),
        Some(i) => {
            let n = s.unicode_len();
            let m = pat.unicode_len();
            let head = s.substring_char(0, i);
            let tail = s.substring_char(i + m, n);
            let rest = str_replace_all(tail, pat, rep);
            let mut out = head.to_owned();
            out.append(rep);
            out.append(rest.as_str());
            assert(out@ =~= spec_replace_all(s@, pat@, rep@));
            out
        },
    }
}

pub fn strip_prefix_str(s: &str, prefix: &str) -> (r: Option<String>)
    ensures
        match r {
            Some(t) => s@.len() >= prefix@.len() && s@.subrange(0, prefix@.len() as int)
                == prefix@ && t@ == s@.subrange(prefix@.len() as int, s@.len() as int),
            None => !(s@.len() >= prefix@.len() && s@.subrange(0, prefix@.len() as int)
                == prefix@),
        },
{
    let n = s.unicode_len();
    let m = prefix.unicode_len();
    if m > n {
        return None;
    }
    if match_at(s, prefix, 0) {
        let rest = s.substring_char(m, n);
        Some(rest.to_owned())
    } else {
        None
    }
}

} // verus!
