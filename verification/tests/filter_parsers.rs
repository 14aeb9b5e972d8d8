use burgonet::filter::{contains_word_case_insensitive, pii_payload, pii_verdict, scan_blacklist};
use burgonet::parsers::{
    ParseError, parse, parse_json, parser_deepseek, parser_llamacpp, parser_ollama,
    parser_openai,
};
use burgonet::response::{
    gunzip, is_gzip_encoding, process_response_body, response_header_ops, HeaderOp,
};
use std::io::Write;

fn gzip_bytes(data: &[u8]) -> Vec<u8> {
    let mut enc = flate2::write::GzEncoder::new(Vec::new(), flate2::Compression::default());
    enc.write_all(data).unwrap();
    enc.finish().unwrap()
}

#[test]
fn blacklist_is_case_insensitive() {
    assert!(contains_word_case_insensitive(b"my SECRET plan", "secret"));
    assert!(contains_word_case_insensitive(b"my secret plan", "SeCrEt"));
    assert!(!contains_word_case_insensitive(b"nothing to see", "secret"));
}

#[test]
fn blacklisted_word_rejects_body() {
    assert!(scan_blacklist("secret, internal", b"please leak the SECRET sauce"));
    assert!(scan_blacklist("secret, internal", b"strictly INTERNAL memo"));
    assert!(!scan_blacklist("secret, internal", b"a harmless request"));
}

#[test]
fn empty_blacklist_items_are_ignored() {
    assert!(!scan_blacklist("", b"anything at all"));
    assert!(!scan_blacklist(" , ,", b"anything at all"));
}

#[test]
fn pii_payload_exact() {
    assert_eq!(pii_payload(b"hello"), "{\"text\": \"aGVsbG8=\"}");
    assert_eq!(pii_payload(b""), "{\"text\": \"\"}");
}

#[test]
fn pii_verdict_fails_closed() {
    assert_eq!(pii_verdict(Some(200)), None);
    assert_eq!(pii_verdict(Some(400)), Some(403));
    assert_eq!(pii_verdict(Some(503)), Some(403));
    assert_eq!(pii_verdict(None), Some(403));
}

#[test]
fn parsers_extract_token_counts() {
    let ollama: serde_json::Value =
        serde_json::from_str("{\"prompt_eval_count\": 12, \"eval_count\": 34}").unwrap();
    assert_eq!(parser_ollama(&ollama), Ok((12, 34)));

    let openai: serde_json::Value = serde_json::from_str(
        "{\"usage\": {\"prompt_tokens\": 28, \"completion_tokens\": 9}}",
    )
    .unwrap();
    assert_eq!(parser_openai(&openai), Ok((28, 9)));
    assert_eq!(parser_deepseek(&openai), Ok((28, 9)));

    let llamacpp: serde_json::Value =
        serde_json::from_str("{\"tokens_evaluated\": 5, \"tokens_predicted\": 6}").unwrap();
    assert_eq!(parser_llamacpp(&llamacpp), Ok((5, 6)));
}

#[test]
fn parser_errors_name_the_missing_field() {
    let empty: serde_json::Value = serde_json::from_str("{}").unwrap();
    assert_eq!(parser_ollama(&empty), Err(ParseError::MissingInput));
    let only_input: serde_json::Value =
        serde_json::from_str("{\"prompt_eval_count\": 12}").unwrap();
    assert_eq!(parser_ollama(&only_input), Err(ParseError::MissingOutput));
    let wrong_type: serde_json::Value =
        serde_json::from_str("{\"prompt_eval_count\": \"12\"}").unwrap();
    assert_eq!(parser_ollama(&wrong_type), Err(ParseError::MissingInput));
}

#[test]
fn parse_dispatches_on_parser_name() {
    let v: serde_json::Value = serde_json::from_str(
        "{\"usage\": {\"prompt_tokens\": 10, \"completion_tokens\": 5}}",
    )
    .unwrap();
    assert_eq!(parse(&v, "openai"), Ok((10, 5)));
    assert_eq!(parse(&v, "deepseek"), Ok((10, 5)));
    assert_eq!(parse(&v, "mystery"), Err(ParseError::UnknownParser));
    assert_eq!(parse(&v, ""), Err(ParseError::UnknownParser));
}

#[test]
fn parse_json_wrapper_accepts_and_rejects() {
    assert!(parse_json(b"{\"a\": 1}").is_some());
    assert!(parse_json(b"not json").is_none());
}

#[test]
fn gunzip_round_trip() {
    let data = b"some response body";
    let packed = gzip_bytes(data);
    assert_ne!(packed, data.to_vec());
    assert_eq!(gunzip(&packed), Some(data.to_vec()));
    assert_eq!(gunzip(b"definitely not gzip"), None);
}

#[test]
fn gzip_detection() {
    assert!(is_gzip_encoding(Some(&"gzip".to_string())));
    assert!(!is_gzip_encoding(Some(&"br".to_string())));
    assert!(!is_gzip_encoding(None));
}

#[test]
fn response_body_processing_decompresses_and_parses() {
    let body = b"{\"usage\": {\"prompt_tokens\": 10, \"completion_tokens\": 5}}";
    let packed = gzip_bytes(body);
    let (out, tin, tout) = process_response_body(packed, true, "openai").unwrap();
    assert_eq!(out, body.to_vec());
    assert_eq!((tin, tout), (10, 5));

    let (out2, a, b) = process_response_body(body.to_vec(), false, "openai").unwrap();
    assert_eq!(out2, body.to_vec());
    assert_eq!((a, b), (10, 5));
}

#[test]
fn response_body_processing_errors() {
    let bad_gzip = process_response_body(b"junk".to_vec(), true, "openai");
    assert!(matches!(bad_gzip, Err(burgonet::response::ResponseError::Decompress)));
    let bad_json = process_response_body(b"junk".to_vec(), false, "openai");
    assert!(matches!(bad_json, Err(burgonet::response::ResponseError::Json)));
    let bad_parser = process_response_body(b"{}".to_vec(), false, "nope");
    assert!(matches!(
        bad_parser,
        Err(burgonet::response::ResponseError::Parse(ParseError::UnknownParser))
    ));
}

#[test]
fn response_header_rewrites() {
    let ops = response_header_ops();
    let mut removed_encoding = false;
    let mut chunked = false;
    let mut cors = false;
    for op in &ops {
        match op {
            HeaderOp::Remove(n) => {
                if n.as_str() == "Content-Encoding" || n.as_str() == "content-encoding" {
                    removed_encoding = true;
                }
            },
            HeaderOp::Insert(n, v) => {
                if n.as_str() == "Transfer-Encoding" && v.as_str() == "Chunked" {
                    chunked = true;
                }
                if n.as_str() == "Access-Control-Allow-Origin" && v.as_str() == "*" {
                    cors = true;
                }
            },
        }
    }
    assert!(removed_encoding && chunked && cors);
    assert_eq!(ops.len(), 9);
}
