use vstd::prelude::*;
use crate::json::Json;

verus! {

#[verifier::external_type_specification]
#[verifier::external_body]
pub struct ExValue(serde_json::Value);

/// Relies on str::chars: the characters of a string slice, in order, as a
/// vector. vstd specifies the iterator only prophetically, so the collection
/// into a vector is taken on trust.
#[verifier::external_body]
pub fn str_chars(s: &str) -> (r: Vec<char>)
    ensures
        r@ == s@,
{
    s.chars().collect()
}

/// Relies on String's FromIterator impl: a string made of exactly the given
/// characters, in order.
#[verifier::external_body]
pub fn chars_to_string(v: Vec<char>) -> (r: String)
    ensures
        r@ == v@,
{
    v.into_iter().collect()
}

/// Relies on serde_json::Value: converts a parsed JSON tree into the relay's
/// own model, variant by variant. A number becomes its serialized text, an
/// object's members come out in the order serde_json stores them. Called only
/// from `parse_body`; nothing can be stated of the result, since the input is
/// opaque here.
#[verifier::external_body]
fn json_model(v: &serde_json::Value) -> Json {
    match v {
        serde_json::Value::Null => Json::Null,
        serde_json::Value::Bool(b) => Json::Bool(*b),
        serde_json::Value::Number(n) => Json::Num(n.to_string()),
        serde_json::Value::String(s) => Json::Str(s.clone()),
        serde_json::Value::Array(a) => Json::Arr(a.iter().map(json_model).collect()),
        serde_json::Value::Object(m) => Json::Obj(
            m.iter().map(|(k, x)| (k.clone(), json_model(x))).collect(),
        ),
    }
}

/// What parsing a body yields: serde_json's parse and the conversion above
/// are both functions of the text alone, so the result can bear a name. The
/// decoding that follows is verified for every value the parse could hand
/// back.
pub uninterp spec fn parsed(s: Seq<char>) -> Option<Json>;

/// Relies on serde_json::from_str: parses JSON text, `None` on malformed or
/// too deeply nested input.
#[verifier::external_body]
pub fn parse_body(s: &str) -> (r: Option<Json>)
    ensures
        r == parsed(s@),
{
    match serde_json::from_str::<serde_json::Value>(s) {
        Ok(v) => Some(json_model(&v)),
        Err(_) => None,
    }
}

/// Whether a token is cryptographically valid for a secret: with no claim
/// interpreted, the check reads nothing but its two arguments, so its outcome
/// can bear a name.
pub uninterp spec fn signature_ok(token: Seq<char>, secret: Seq<char>) -> bool;

/// Relies on jsonwebtoken::decode with the HS256 algorithm: checks the
/// token's integrity and algorithm against the shared secret, and nothing
/// else — no claim is required, interpreted or compared, so the payload may
/// be empty and the clock is never read.
#[verifier::external_body]
pub fn verify_signature(token: &str, secret: &str) -> (r: bool)
    ensures
        r == signature_ok(token@, secret@),
{
    let mut validation = jsonwebtoken::Validation::new(jsonwebtoken::Algorithm::HS256);
    validation.required_spec_claims = std::collections::HashSet::new();
    validation.validate_exp = false;
    validation.validate_aud = false;
    jsonwebtoken::decode::<serde_json::Value>(
        token,
        &jsonwebtoken::DecodingKey::from_secret(secret.as_bytes()),
        &validation,
    ).is_ok()
}

} // verus!
