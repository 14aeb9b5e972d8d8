//! The response parser registry: a closed set of named extractors that read
//! the token counts out of a backend's decoded JSON response body.
use vstd::prelude::*;
use crate::text::str_eq;

verus! {

#[verifier::external_type_specification]
#[verifier::external_body]
pub struct ExJsonValue(serde_json::Value);

/// The unsigned integer under the top-level field `key` of the document, when
/// the document is an object, holds the field, and the field is an unsigned
/// integer; a function of the document alone.
pub uninterp spec fn json_u64_field(v: serde_json::Value, key: Seq<char>) -> Option<u64>;

/// The unsigned integer under `key1`.`key2` of the document, under the same
/// conditions, one level deeper.
pub uninterp spec fn json_u64_field2(
    v: serde_json::Value,
    key1: Seq<char>,
    key2: Seq<char>,
) -> Option<u64>;

/// Whether the bytes parse as one JSON document.
pub uninterp spec fn json_parses(b: Seq<u8>) -> bool;

/// Relies on serde_json's Value::get and Value::as_u64: looks the top-level
/// field up and reads it as an unsigned integer.
#[verifier::external_body]
pub fn get_u64_field(v: &serde_json::Value, key: &str) -> (r: Option<u64>)
    ensures
        r == json_u64_field(*v, key@),
{
    v.get(key).and_then(|x| x.as_u64())
}

/// Relies on serde_json's Value::get and Value::as_u64: looks the nested
/// field up and reads it as an unsigned integer.
#[verifier::external_body]
pub fn get_u64_field2(v: &serde_json::Value, key1: &str, key2: &str) -> (r: Option<u64>)
    ensures
        r == json_u64_field2(*v, key1@, key2@),
{
    v.get(key1).and_then(|x| x.get(key2)).and_then(|x| x.as_u64())
}

/// Relies on serde_json::from_slice: parses the bytes as one JSON document;
/// whether they parse is a function of the bytes alone.
#[verifier::external_body]
pub fn parse_json(b: &[u8]) -> (r: Option<serde_json::Value>)
    ensures
        r is Some <==> json_parses(b@),
{
    serde_json::de::from_slice(b).ok()
}

/// Why a response body yielded no token counts.
#[derive(Clone, Copy, PartialEq, Eq, Structural, Debug)]
pub enum ParseError {
    /// The input-token field is missing or not an unsigned integer.
    MissingInput,
    /// The output-token field is missing or not an unsigned integer.
    MissingOutput,
    /// The model names no known parser.
    UnknownParser,
}

/// How a two-field extraction relates to the fields it read: token counts on
/// success, and the error that names the first field that was missing.
pub open spec fn spec_two_field_result(
    fin: Option<u64>,
    fout: Option<u64>,
    r: Result<(u64, u64), ParseError>,
) -> bool {
    match r {
        Ok(p) => fin == Some(p.0) && fout == Some(p.1),
        Err(ParseError::MissingInput) => fin is None,
        Err(ParseError::MissingOutput) => fin is Some && fout is None,
        Err(ParseError::UnknownParser) => false,
    }
}

/// Token counts of an ollama response: `prompt_eval_count` and `eval_count`.
pub fn parser_ollama(response: &serde_json::Value) -> (r: Result<(u64, u64), ParseError>)
    ensures
        spec_two_field_result(
            json_u64_field(*response, "prompt_eval_count"@),
            json_u64_field(*response, "eval_count"@),
            r,
        ),
{
    let tokens_input = match get_u64_field(response, "prompt_eval_count") {
        Some(v) => v,
        None => {
            return Err(ParseError::MissingInput);
        },
    };
    let tokens_output = match get_u64_field(response, "eval_count") {
        Some(v) => v,
        None => {
            return Err(ParseError::MissingOutput);
        },
    };
    Ok((tokens_input, tokens_output))
}

/// Token counts of a deepseek response: `usage.prompt_tokens` and
/// `usage.completion_tokens`.
pub fn parser_deepseek(response: &serde_json::Value) -> (r: Result<(u64, u64), ParseError>)
    ensures
        spec_two_field_result(
            json_u64_field2(*response, "usage"@, "prompt_tokens"@),
            json_u64_field2(*response, "usage"@, "completion_tokens"@),
            r,
        ),
{
    let tokens_input = match get_u64_field2(response, "usage", "prompt_tokens") {
        Some(v) => v,
        None => {
            return Err(ParseError::MissingInput);
        },
    };
    let tokens_output = match get_u64_field2(response, "usage", "completion_tokens") {
        Some(v) => v,
        None => {
            return Err(ParseError::MissingOutput);
        },
    };
    Ok((tokens_input, tokens_output))
}

/// Token counts of a llama.cpp response: `tokens_evaluated` and
/// `tokens_predicted`.
pub fn parser_llamacpp(response: &serde_json::Value) -> (r: Result<(u64, u64), ParseError>)
    ensures
        spec_two_field_result(
            json_u64_field(*response, "tokens_evaluated"@),
            json_u64_field(*response, "tokens_predicted"@),
            r,
        ),
{
    let tokens_input = match get_u64_field(response, "tokens_evaluated") {
        Some(v) => v,
        None => {
            return Err(ParseError::MissingInput);
        },
    };
    let tokens_output = match get_u64_field(response, "tokens_predicted") {
        Some(v) => v,
        None => {
            return Err(ParseError::MissingOutput);
        },
    };
    Ok((tokens_input, tokens_output))
}

/// Token counts of an OpenAI-style response: `usage.prompt_tokens` and
/// `usage.completion_tokens`.
pub fn parser_openai(response: &serde_json::Value) -> (r: Result<(u64, u64), ParseError>)
    ensures
        spec_two_field_result(
            json_u64_field2(*response, "usage"@, "prompt_tokens"@),
            json_u64_field2(*response, "usage"@, "completion_tokens"@),
            r,
        ),
{
    let tokens_input = match get_u64_field2(response, "usage", "prompt_tokens") {
        Some(v) => v,
        None => {
            return Err(ParseError::MissingInput);
        },
    };
    let tokens_output = match get_u64_field2(response, "usage", "completion_tokens") {
        Some(v) => v,
        None => {
            return Err(ParseError::MissingOutput);
        },
    };
    Ok((tokens_input, tokens_output))
}

/// What `parse` returns for each configured parser name: the named backend's
/// extraction, or the unknown-parser error for any other name.
pub open spec fn spec_parse_result(
    v: serde_json::Value,
    parser: Seq<char>,
    r: Result<(u64, u64), ParseError>,
) -> bool {
    if parser == "ollama"@ {
        spec_two_field_result(
            json_u64_field(v, "prompt_eval_count"@),
            json_u64_field(v, "eval_count"@),
            r,
        )
    } else if parser == "deepseek"@ {
        spec_two_field_result(
            json_u64_field2(v, "usage"@, "prompt_tokens"@),
            json_u64_field2(v, "usage"@, "completion_tokens"@),
            r,
        )
    } else if parser == "llamacpp"@ {
        spec_two_field_result(
            json_u64_field(v, "tokens_evaluated"@),
            json_u64_field(v, "tokens_predicted"@),
            r,
        )
    } else if parser == "openai"@ {
        spec_two_field_result(
            json_u64_field2(v, "usage"@, "prompt_tokens"@),
            json_u64_field2(v, "usage"@, "completion_tokens"@),
            r,
        )
    } else {
        r == Err::<(u64, u64), ParseError>(ParseError::UnknownParser)
    }
}

/// Dispatches on the model's configured parser name.
pub fn parse(json_body: &serde_json::Value, parser: &str) -> (r: Result<(u64, u64), ParseError>)
    ensures
        spec_parse_result(*json_body, parser@, r),
{
    if str_eq(parser, "ollama") {
        parser_ollama(json_body)
    } else if str_eq(parser, "deepseek") {
        parser_deepseek(json_body)
    } else if str_eq(parser, "llamacpp") {
        parser_llamacpp(json_body)
    } else if str_eq(parser, "openai") {
        parser_openai(json_body)
    } else {
        Err(ParseError::UnknownParser)
    }
}

} // verus!
