//! The text boundary of the normalizer. Parsing and rendering of JSON text
//! go through serde_json; everything between — envelope rewriting and `type`
//! stripping — is the verified logic of [`crate::envelope`].

use vstd::prelude::*;

use crate::envelope::{is_wrapped_doc, normalize_envelope, normalize_post, strip_type, PayloadError};
use crate::json::{obj_has_key, Json};

verus! {

#[verifier::external_type_specification]
#[verifier::external_body]
pub struct ExValue(serde_json::Value);

/// The document that `serde_json::from_str::<serde_json::Value>` yields on
/// this text, as the library's model; `None` exactly when the text is not
/// valid JSON. The outcome depends on the text alone.
pub uninterp spec fn json_of(s: Seq<char>) -> Option<Json>;

/// The text that `serde_json::to_string` renders this document as; it
/// depends on the document alone.
pub uninterp spec fn text_of(j: Json) -> Seq<char>;

/// Relies on serde_json::Value's six variants: moves a parsed document into
/// the library's model, one variant arm each. Carries no contract of its
/// own; it feeds `parse_json`, whose contract names the combined result.
#[verifier::external_body]
fn value_to_json(v: serde_json::Value) -> Json {
    match v {
        serde_json::Value::Null => Json::Null,
        serde_json::Value::Bool(b) => Json::Bool(b),
        serde_json::Value::Number(n) => Json::Num(n.to_string()),
        serde_json::Value::String(s) => Json::Str(s),
        serde_json::Value::Array(a) => Json::Arr(a.into_iter().map(value_to_json).collect()),
        serde_json::Value::Object(m) => Json::Obj(
            m.into_iter().map(|e| (e.0, value_to_json(e.1))).collect(),
        ),
    }
}

/// Relies on serde_json::Value's six variants the other way: moves a model
/// document back, one variant arm each. A number lexeme goes through
/// serde_json::Number, falling back to null if it is not one serde_json
/// accepts. Carries no contract of its own; it feeds `render_json`.
#[verifier::external_body]
fn json_to_value(j: &Json) -> serde_json::Value {
    match j {
        Json::Null => serde_json::Value::Null,
        Json::Bool(b) => serde_json::Value::Bool(*b),
        Json::Num(s) => match serde_json::from_str::<serde_json::Number>(s) {
            Ok(n) => serde_json::Value::Number(n),
            Err(_) => serde_json::Value::Null,
        },
        Json::Str(s) => serde_json::Value::String(s.clone()),
        Json::Arr(a) => serde_json::Value::Array(a.iter().map(json_to_value).collect()),
        Json::Obj(es) => serde_json::Value::Object(
            es.iter().map(|e| (e.0.clone(), json_to_value(&e.1))).collect(),
        ),
    }
}

/// Relies on serde_json::from_str::<serde_json::Value>: parses the text as a
/// generic JSON document or rejects it, depending on the text alone.
#[verifier::external_body]
fn parse_json(s: &str) -> (r: Option<Json>)
    ensures
        r == json_of(s@),
{
    match serde_json::from_str::<serde_json::Value>(s) {
        Ok(v) => Some(value_to_json(v)),
        Err(_) => None,
    }
}

/// Relies on serde_json::to_string on a Value: renders the document as
/// compact JSON text, depending on the document alone. (Rendering a Value
/// cannot fail: every object key is a string.)
#[verifier::external_body]
fn render_json(j: &Json) -> (r: String)
    ensures
        r@ == text_of(*j),
{
    match serde_json::to_string(&json_to_value(j)) {
        Ok(t) => t,
        Err(_) => String::new(),
    }
}

/// Normalizes a raw response body: no body stays no body; text that is not
/// JSON passes through unchanged (the caller's typed decode is the
/// fallback); a document already carrying `included` passes through
/// unchanged; any other parsed document is wrapped into envelope shape and
/// rendered back to text.
pub fn normalize_response(body: Option<&str>) -> (r: Option<String>)
    ensures
        body is None ==> r is None,
        body matches Some(s) ==> match json_of(s@) {
            Option::None => r matches Some(t) && t@ == s@,
            Option::Some(j) => if is_wrapped_doc(j) {
                r matches Some(t) && t@ == s@
            } else {
                r matches Some(t) && exists|n: Json|
                    #[trigger] normalize_post(j, n) && t@ == text_of(n)
            },
        },
{
    match body {
        Option::None => Option::None,
        Option::Some(s) => {
            match parse_json(s) {
                Option::None => Option::Some(s.to_owned()),
                Option::Some(j) => {
                    let wrapped = match &j {
                        Json::Obj(es) => obj_has_key(es, "included"),
                        _ => false,
                    };
                    if wrapped {
                        Option::Some(s.to_owned())
                    } else {
                        let n = normalize_envelope(j);
                        let t = render_json(&n);
                        Option::Some(t)
                    }
                },
            }
        },
    }
}

/// Normalizes an outbound payload already serialized to text: the payload
/// must be a JSON object; its `type` binding is stripped and the rest is
/// rendered back to text. Anything else is the payload's author's error,
/// never retried.
pub fn normalize_request(payload: &str) -> (r: Result<String, PayloadError>)
    ensures
        match json_of(payload@) {
            Option::None => r == Result::<String, PayloadError>::Err(PayloadError::NotJson),
            Option::Some(j) => match j {
                Json::Obj(_) => r matches Ok(t) && exists|stripped: Json|
                    #[trigger] crate::envelope::strip_post(j, Ok(stripped)) && t@ == text_of(
                        stripped,
                    ),
                _ => r == Result::<String, PayloadError>::Err(PayloadError::NotAnObject),
            },
        },
{
    match parse_json(payload) {
        Option::None => Result::Err(PayloadError::NotJson),
        Option::Some(j) => {
            match strip_type(j) {
                Result::Ok(stripped) => {
                    let t = render_json(&stripped);
                    Result::Ok(t)
                },
                Result::Err(e) => Result::Err(e),
            }
        },
    }
}

} // verus!
