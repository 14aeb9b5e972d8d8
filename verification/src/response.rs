//! The response side of the pipeline: the header rewrites applied to every
//! upstream response, gzip decompression of the buffered body, token-count
//! extraction, and the static summary served for the root path.
use vstd::prelude::*;
use crate::config::ModelConfig;
use crate::numfmt::spec_digit;
use crate::parsers::{ParseError, json_parses, parse, parse_json, spec_parse_result};
use crate::text::string_push;

verus! {

/// One rewrite applied to the upstream response headers.
pub enum HeaderOp {
    Insert(String, String),
    Remove(String),
}

/// The spec-level image of a header rewrite.
pub enum HeaderOpView {
    Insert(Seq<char>, Seq<char>),
    Remove(Seq<char>),
}

impl View for HeaderOp {
    type V = HeaderOpView;

    open spec fn view(&self) -> HeaderOpView {
        match self {
            HeaderOp::Insert(n, v) => HeaderOpView::Insert(n@, v@),
            HeaderOp::Remove(n) => HeaderOpView::Remove(n@),
        }
    }
}

/// The rewrites applied to every upstream response, in order: permissive
/// CORS headers, the gateway's own server identifier, no `alt-svc`, no
/// content encoding or length (the body is re-streamed after buffering), and
/// chunked transfer encoding.
pub open spec fn spec_response_header_ops() -> Seq<HeaderOpView> {
    seq![
        HeaderOpView::Insert("Access-Control-Allow-Origin"@, "*"@),
        HeaderOpView::Insert("Access-Control-Allow-Methods"@, "GET, POST, OPTIONS"@),
        HeaderOpView::Insert("Access-Control-Allow-Headers"@, "Content-Type, Authorization"@),
        HeaderOpView::Insert("Server"@, "Burgonet"@),
        HeaderOpView::Remove("alt-svc"@),
        HeaderOpView::Remove("Content-Encoding"@),
        HeaderOpView::Remove("content-encoding"@),
        HeaderOpView::Remove("Content-Length"@),
        HeaderOpView::Insert("Transfer-Encoding"@, "Chunked"@),
    ]
}

pub fn response_header_ops() -> (r: Vec<HeaderOp>)
    ensures
        r@.map_values(|h: HeaderOp| h@) == spec_response_header_ops(),
{
    let mut ops: Vec<HeaderOp> = Vec::new();
    ops.push(
        HeaderOp::Insert(String::from_str("Access-Control-Allow-Origin"), String::from_str("*")),
    );
    ops.push(
        HeaderOp::Insert(
            String::from_str("Access-Control-Allow-Methods"),
            String::from_str("GET, POST, OPTIONS"),
        ),
    );
    ops.push(
        HeaderOp::Insert(
            String::from_str("Access-Control-Allow-Headers"),
            String::from_str("Content-Type, Authorization"),
        ),
    );
    ops.push(HeaderOp::Insert(String::from_str("Server"), String::from_str("Burgonet")));
    ops.push(HeaderOp::Remove(String::from_str("alt-svc")));
    ops.push(HeaderOp::Remove(String::from_str("Content-Encoding")));
    ops.push(HeaderOp::Remove(String::from_str("content-encoding")));
    ops.push(HeaderOp::Remove(String::from_str("Content-Length")));
    ops.push(
        HeaderOp::Insert(String::from_str("Transfer-Encoding"), String::from_str("Chunked")),
    );
    assert(ops@.map_values(|h: HeaderOp| h@) =~= spec_response_header_ops());
    ops
}

/// Whether the captured upstream headers call for gzip decompression.
pub fn is_gzip_encoding(content_encoding: Option<&String>) -> (r: bool)
    ensures
        r == match content_encoding {
            Some(v) => v@ == "gzip"@,
            None => false,
        },
{
    match content_encoding {
        Some(v) => crate::text::str_eq(v.as_str(), "gzip"),
        None => false,
    }
}

/// What gzip decompression of the bytes yields, or `None` when they are not
/// a valid gzip stream; a function of the bytes alone.
pub uninterp spec fn gunzip_of(b: Seq<u8>) -> Option<Seq<u8>>;

/// Relies on flate2's GzDecoder: whole-buffer gzip decompression.
#[verifier::external_body]
pub fn gunzip(b: &[u8]) -> (r: Option<Vec<u8>>)
    ensures
        match (r, gunzip_of(b@)) {
            (Some(v), Some(s)) => v@ == s,
            (None, None) => true,
            _ => false,
        },
{
    let mut decoder = flate2::read::GzDecoder::new(b);
    let mut out: Vec<u8> = Vec::new();
    match std::io::Read::read_to_end(&mut decoder, &mut out) {
        Ok(_) => Some(out),
        Err(_) => None,
    }
}

/// Why the buffered response body yielded no usable token counts; each case
/// is an internal error (500) — a failure never passes as zero usage.
#[derive(Clone, Copy, PartialEq, Eq, Structural, Debug)]
pub enum ResponseError {
    /// The upstream declared gzip but the body is not a valid gzip stream.
    Decompress,
    /// The (decompressed) body is not one JSON document.
    Json,
    /// The document lacks the fields of the configured parser, or the model
    /// names no known parser.
    Parse(ParseError),
}

/// Processes the fully buffered upstream body: decompresses it when the
/// captured upstream headers declared gzip, parses the result as JSON and
/// extracts the token counts with the model's configured parser. On success
/// the returned bytes are exactly what flows on to the client — the
/// decompressed document — and the counts are what the configured parser
/// read out of a parsed document: the named fields of some JSON value hold
/// exactly these numbers, so an unknown parser or a missing field can never
/// pass as zero usage.
pub fn process_response_body(buffer: Vec<u8>, gzip: bool, parser: &str) -> (r: Result<
    (Vec<u8>, u64, u64),
    ResponseError,
>)
    ensures
        ({
            let decoded = if gzip {
                gunzip_of(buffer@)
            } else {
                Some(buffer@)
            };
            match r {
                Ok(p) => decoded is Some && p.0@ == decoded.unwrap() && json_parses(
                    decoded.unwrap(),
                ) && exists|v: serde_json::Value| #[trigger] spec_parse_result(
                    v,
                    parser@,
                    Ok((p.1, p.2)),
                ),
                Err(ResponseError::Decompress) => gzip && gunzip_of(buffer@) is None,
                Err(ResponseError::Json) => decoded is Some && !json_parses(decoded.unwrap()),
                Err(ResponseError::Parse(e)) => decoded is Some && json_parses(decoded.unwrap())
                    && (e == ParseError::UnknownParser ==> parser@ != "ollama"@ && parser@
                    != "deepseek"@ && parser@ != "llamacpp"@ && parser@ != "openai"@),
            }
        }),
{
    let body: Vec<u8> = if gzip {
        match gunzip(buffer.as_slice()) {
            Some(v) => v,
            None => {
                return Err(ResponseError::Decompress);
            },
        }
    } else {
        buffer
    };
    let doc = match parse_json(body.as_slice()) {
        Some(v) => v,
        None => {
            return Err(ResponseError::Json);
        },
    };
    match parse(&doc, parser) {
        Ok(p) => {
            let res: (Vec<u8>, u64, u64) = (body, p.0, p.1);
            assert(spec_parse_result(doc, parser@, Ok::<(u64, u64), ParseError>((res.1, res.2))));
            assert(exists|v: serde_json::Value| #[trigger] spec_parse_result(
                v,
                parser@,
                Ok::<(u64, u64), ParseError>((res.1, res.2)),
            ));
            Ok(res)
        },
        Err(e) => Err(ResponseError::Parse(e)),
    }
}

pub open spec fn spec_hex_digit(d: nat) -> char {
    if d < 10 {
        spec_digit(d)
    } else if d == 10 {
        'a'
    } else if d == 11 {
        'b'
    } else if d == 12 {
        'c'
    } else if d == 13 {
        'd'
    } else if d == 14 {
        'e'
    } else {
        'f'
    }
}

/// One character of a JSON string, escaped as serde_json renders it.
pub open spec fn spec_escape_char(c: char) -> Seq<char> {
    if c == '"' {
        seq!['\\', '"']
    } else if c == '\\' {
        seq!['\\', '\\']
    } else if c == '\u{8}' {
        seq!['\\', 'b']
    } else if c == '\u{c}' {
        seq!['\\', 'f']
    } else if c == '\n' {
        seq!['\\', 'n']
    } else if c == '\r' {
        seq!['\\', 'r']
    } else if c == '\t' {
        seq!['\\', 't']
    } else if (c as u32) < 0x20 {
        seq!['\\', 'u', '0', '0', spec_hex_digit((c as u32) as nat / 16), spec_hex_digit(
            (c as u32) as nat % 16,
        )]
    } else {
        seq![c]
    }
}

/// The characters of `s` escaped for a JSON string literal.
pub open spec fn spec_escape(s: Seq<char>) -> Seq<char>
    decreases s.len(),
{
    if s.len() == 0 {
        Seq::empty()
    } else {
        spec_escape_char(s[0]) + spec_escape(s.drop_first())
    }
}

fn hex_digit_char(d: u32) -> (c: char)
    requires
        d < 16,
    ensures
        c == spec_hex_digit(d as nat),
{
    if d == 0 {
        '0'
    } else if d == 1 {
        '1'
    } else if d == 2 {
        '2'
    } else if d == 3 {
        '3'
    } else if d == 4 {
        '4'
    } else if d == 5 {
        '5'
    } else if d == 6 {
        '6'
    } else if d == 7 {
        '7'
    } else if d == 8 {
        '8'
    } else if d == 9 {
        '9'
    } else if d == 10 {
        'a'
    } else if d == 11 {
        'b'
    } else if d == 12 {
        'c'
    } else if d == 13 {
        'd'
    } else if d == 14 {
        'e'
    } else {
        'f'
    }
}

fn push_escaped(out: &mut String, s: &str)
    ensures
        final(out)@ == old(out)@ + spec_escape(s@),
{
    let n = s.unicode_len();
    let mut i: usize = 0;
    while i < n
        invariant
            0 <= i <= n,
            n == s@.len(),
            out@ == old(out)@ + spec_escape(s@.take(i as int)),
        decreases n - i,
    {
        let c = s.get_char(i);
        if c == '"' {
            string_push(out, '\\');
            string_push(out, '"');
        } else if c == '\\' {
            string_push(out, '\\');
            string_push(out, '\\');
        } else if c == '\u{8}' {
            string_push(out, '\\');
            string_push(out, 'b');
        } else if c == '\u{c}' {
            string_push(out, '\\');
            string_push(out, 'f');
        } else if c == '\n' {
            string_push(out, '\\');
            string_push(out, 'n');
        } else if c == '\r' {
            string_push(out, '\\');
            string_push(out, 'r');
        } else if c == '\t' {
            string_push(out, '\\');
            string_push(out, 't');
        } else if (c as u32) < 0x20 {
            string_push(out, '\\');
            string_push(out, 'u');
            string_push(out, '0');
            string_push(out, '0');
            string_push(out, hex_digit_char((c as u32) / 16));
            string_push(out, hex_digit_char((c as u32) % 16));
        } else {
            string_push(out, c);
        }
        proof {
            assert(s@.take(i + 1).drop_last() =~= s@.take(i as int));
            lemma_escape_snoc(s@.take(i + 1));
        }
        i += 1;
    }
    assert(s@.take(n as int) =~= s@);
}

proof fn lemma_escape_snoc(s: Seq<char>)
    requires
        s.len() > 0,
    ensures
        spec_escape(s) == spec_escape(s.drop_last()) + spec_escape_char(s.last()),
    decreases s.len(),
{
    if s.len() == 1 {
        assert(s.drop_first() =~= Seq::<char>::empty());
        assert(s.drop_last() =~= Seq::<char>::empty());
        assert(spec_escape(s.drop_last()) + spec_escape_char(s.last()) =~= spec_escape_char(
            s[0],
        ) + spec_escape(s.drop_first()));
    } else {
        lemma_escape_snoc(s.drop_first());
        assert(s.drop_first().drop_last() =~= s.drop_last().drop_first());
        assert(s.drop_last()[0] == s[0]);
        assert(s.drop_first().last() == s.last());
        assert(spec_escape(s.drop_last()) == spec_escape_char(s[0]) + spec_escape(
            s.drop_last().drop_first(),
        ));
        assert(spec_escape(s) =~= spec_escape(s.drop_last()) + spec_escape_char(s.last()));
    }
}

/// The summary entry of one model: its display name mapped to its location.
pub open spec fn spec_model_entry(m: ModelConfig) -> Seq<char> {
    seq!['{', '"'] + spec_escape(m.model_name@) + seq!['"', ':', '"'] + spec_escape(m.location@)
        + seq!['"', '}']
}

pub open spec fn spec_models_items(ms: Seq<ModelConfig>) -> Seq<char>
    decreases ms.len(),
{
    if ms.len() == 0 {
        Seq::empty()
    } else if ms.len() == 1 {
        spec_model_entry(ms[0])
    } else {
        spec_models_items(ms.drop_last()) + seq![','] + spec_model_entry(ms.last())
    }
}

/// The JSON document served for the root path: the configured model-name to
/// location mapping, one single-entry object per model, in configuration
/// order.
pub open spec fn spec_models_json(ms: Seq<ModelConfig>) -> Seq<char> {
    seq!['['] + spec_models_items(ms) + seq![']']
}

/// Renders the root-path summary. It reads only the configuration: serving it
/// touches neither the store nor the rate windows.
#[verifier::loop_isolation(false)]
pub fn models_summary_json(models: &Vec<ModelConfig>) -> (r: String)
    ensures
        r@ == spec_models_json(models@),
{
    let mut out = String::new();
    string_push(&mut out, '[');
    let n = models.len();
    let mut i: usize = 0;
    while i < n
        invariant
            0 <= i <= n,
            out@ == seq!['['] + spec_models_items(models@.take(i as int)),
        decreases n - i,
    {
        if i > 0 {
            string_push(&mut out, ',');
        }
        string_push(&mut out, '{');
        string_push(&mut out, '"');
        push_escaped(&mut out, models[i].model_name.as_str());
        string_push(&mut out, '"');
        string_push(&mut out, ':');
        string_push(&mut out, '"');
        push_escaped(&mut out, models[i].location.as_str());
        string_push(&mut out, '"');
        string_push(&mut out, '}');
        proof {
            assert(models@.take(i + 1).drop_last() =~= models@.take(i as int));
            assert(models@.take(i + 1).last() == models@[i as int]);
            assert(out@ =~= seq!['['] + spec_models_items(models@.take(i + 1)));
        }
        i += 1;
    }
    assert(models@.take(n as int) =~= models@);
    string_push(&mut out, ']');
    assert(out@ =~= spec_models_json(models@));
    out
}

} // verus!
