//! The content filter: a case-insensitive blacklist scan over the buffered
//! request body, and the payload and verdict of the external PII check.
use vstd::prelude::*;
use crate::text::{
    is_substring, lower_of, lowercase, spec_split_trim, split_csv_trim, str_contains,
    utf8_lossy, utf8_lossy_of,
};

verus! {

/// Whether the word occurs in the text when both are seen through UTF-8
/// decoding and Unicode lowercasing.
pub open spec fn spec_word_in_text(text: Seq<u8>, word: Seq<char>) -> bool {
    is_substring(lower_of(utf8_lossy_of(text)), lower_of(word))
}

/// Case-insensitive containment of `word` in the UTF-8 text `text`.
pub fn contains_word_case_insensitive(text: &[u8], word: &str) -> (r: bool)
    ensures
        r == spec_word_in_text(text@, word@),
{
    let lowercase_word = lowercase(word);
    let decoded = utf8_lossy(text);
    let lowercase_text = lowercase(decoded.as_str());
    str_contains(lowercase_text.as_str(), lowercase_word.as_str())
}

/// Whether the body contains one of the configured blacklist words: some
/// non-empty trimmed item of the comma-separated list occurs in the body,
/// case-insensitively.
pub open spec fn spec_blacklist_hit(words: Seq<char>, body: Seq<u8>) -> bool {
    exists|k: int|
        0 <= k < spec_split_trim(words).len() && (#[trigger] spec_split_trim(words)[k]).len()
            > 0 && spec_word_in_text(body, spec_split_trim(words)[k])
}

/// Scans the buffered request body against the model's blacklist; reports
/// a hit exactly when some configured non-empty word occurs in the body,
/// case-insensitively.
#[verifier::loop_isolation(false)]
pub fn scan_blacklist(blacklist_words: &str, body: &[u8]) -> (r: bool)
    ensures
        r == spec_blacklist_hit(blacklist_words@, body@),
{
    let words = split_csv_trim(blacklist_words);
    let n = words.len();
    let mut i: usize = 0;
    while i < n
        invariant
            0 <= i <= n,
            forall|k: int|
                0 <= k < i ==> !((#[trigger] spec_split_trim(blacklist_words@)[k]).len() > 0
                    && spec_word_in_text(body@, spec_split_trim(blacklist_words@)[k])),
        decreases n - i,
    {
        let w = &words[i];
        if w.as_str().unicode_len() > 0 && contains_word_case_insensitive(body, w.as_str()) {
            assert(words.deep_view()[i as int] == spec_split_trim(blacklist_words@)[i as int]);
            return true;
        }
        assert(words.deep_view()[i as int] == spec_split_trim(blacklist_words@)[i as int]);
        i += 1;
    }
    false
}

/// What the base64 encoding of the bytes is; a function of the bytes alone.
pub uninterp spec fn base64_of(b: Seq<u8>) -> Seq<char>;

/// Relies on base64's STANDARD engine: padded standard-alphabet encoding,
/// four characters for every started group of three bytes.
#[verifier::external_body]
fn b64_encode(b: &[u8]) -> (r: String)
    ensures
        r@ == base64_of(b@),
        r@.len() == 4 * ((b@.len() + 2) / 3),
{
    base64::Engine::encode(&base64::engine::general_purpose::STANDARD, b)
}

/// The JSON document posted to the PII collaborator: the body, base64-encoded,
/// under the single field `text`.
pub open spec fn spec_pii_payload(body: Seq<u8>) -> Seq<char> {
    "{\"text\": \""@ + base64_of(body) + "\"}"@
}

pub fn pii_payload(body: &[u8]) -> (r: String)
    ensures
        r@ == spec_pii_payload(body@),
{
    let encoded = b64_encode(body);
    let mut s = String::from_str("{\"text\": \"");
    s.append(encoded.as_str());
    s.append("\"}");
    assert(s@ =~= spec_pii_payload(body@));
    s
}

/// The gateway's reading of a PII-check attempt: `None` when no denial is
/// owed (HTTP 200, clean); otherwise the status to deny with. PII found
/// (HTTP 400), any other status and a transport failure all deny with 403 —
/// the check fails closed.
pub open spec fn spec_pii_verdict(status: Option<u16>) -> Option<u16> {
    match status {
        Some(s) => if s == 200 {
            None
        } else {
            Some(403)
        },
        None => Some(403),
    }
}

/// Decides the PII check from what the HTTP call produced: the response
/// status, or `None` for a transport failure.
pub fn pii_verdict(status: Option<u16>) -> (r: Option<u16>)
    ensures
        r == spec_pii_verdict(status),
{
    match status {
        Some(s) => if s == 200 {
            None
        } else {
            Some(403)
        },
        None => Some(403),
    }
}

} // verus!
