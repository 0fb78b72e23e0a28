//! The envelope normalizer: every response handed to a caller is a document
//! with both `data` and `included` present; a document already carrying
//! `included` passes through unchanged, any other parsed body is wrapped as
//! `{ data: <body>, included: [] }`.

use vstd::prelude::*;

use crate::json::{
    has_key, lemma_remove_key_absent, lemma_remove_key_keeps_others, lemma_remove_key_removes,
    obj_has_key, remove_entries,
    remove_key, Json,
};

verus! {

/// A document that already carries the envelope's `included` field.
pub open spec fn is_wrapped_doc(j: Json) -> bool {
    j matches Json::Obj(es) && has_key(es@, "included"@)
}

/// `r` is the fresh envelope around `v`: exactly `{ data: v, included: [] }`.
pub open spec fn envelope_of(v: Json, r: Json) -> bool {
    &&& r matches Json::Obj(es)
    &&& es@.len() == 2
    &&& es@[0].0@ == "data"@
    &&& es@[0].1 == v
    &&& es@[1].0@ == "included"@
    &&& es@[1].1 matches Json::Arr(a) && a@.len() == 0
}

/// What normalization does to a parsed body: identity on documents that
/// already carry `included`, a fresh envelope around everything else.
pub open spec fn normalize_post(v: Json, r: Json) -> bool {
    if is_wrapped_doc(v) {
        r == v
    } else {
        envelope_of(v, r)
    }
}

/// Rewrites one parsed response body into envelope shape.
pub fn normalize_envelope(v: Json) -> (r: Json)
    ensures
        normalize_post(v, r),
{
    let wrapped = match &v {
        Json::Obj(es) => obj_has_key(es, "included"),
        _ => false,
    };
    if wrapped {
        v
    } else {
        let mut entries: Vec<(String, Json)> = Vec::new();
        entries.push(("data".to_owned(), v));
        entries.push(("included".to_owned(), Json::Arr(Vec::new())));
        Json::Obj(entries)
    }
}

/// Why an outbound payload was rejected: the remote API only takes a JSON
/// object, and the payload text must parse before it can be reshaped.
#[derive(Clone, Copy, Debug, PartialEq, Eq, Structural)]
pub enum PayloadError {
    /// The payload text is not valid JSON.
    NotJson,
    /// The payload is valid JSON but not an object.
    NotAnObject,
}

/// What request normalization does to a parsed payload: an object loses every
/// `type` binding, order otherwise kept; anything else is rejected.
pub open spec fn strip_post(v: Json, r: Result<Json, PayloadError>) -> bool {
    match v {
        Json::Obj(es) => r matches Ok(o) && o matches Json::Obj(es2) && es2@ == remove_key(
            es@,
            "type"@,
        ),
        _ => r == Result::<Json, PayloadError>::Err(PayloadError::NotAnObject),
    }
}

/// Strips the `type` discriminator from an outbound payload; the remote API
/// rejects or ignores it, so it never goes on the wire.
pub fn strip_type(v: Json) -> (r: Result<Json, PayloadError>)
    ensures
        strip_post(v, r),
{
    match v {
        Json::Obj(es) => Ok(Json::Obj(remove_entries(es, "type"))),
        _ => Err(PayloadError::NotAnObject),
    }
}

/// A stripped payload has no `type` binding left.
pub proof fn lemma_strip_removes_type(v: Json, r: Result<Json, PayloadError>)
    requires
        strip_post(v, r),
        r matches Ok(o),
    ensures
        r matches Ok(o) && o matches Json::Obj(es2) && !has_key(es2@, "type"@),
{
    match v {
        Json::Obj(es) => {
            lemma_remove_key_removes(es@, "type"@);
        },
        _ => {
        },
    }
}

/// A payload without a `type` binding is unaffected by stripping.
pub proof fn lemma_strip_keeps_typeless(v: Json, r: Result<Json, PayloadError>)
    requires
        strip_post(v, r),
        v matches Json::Obj(es) && !has_key(es@, "type"@),
    ensures
        r matches Ok(o) && o matches Json::Obj(es2) && (v matches Json::Obj(es) ==> es2@ == es@),
{
    match v {
        Json::Obj(es) => {
            lemma_remove_key_absent(es@, "type"@);
        },
        _ => {
        },
    }
}

/// Stripping `type` leaves the presence of every other key unchanged.
pub proof fn lemma_strip_keeps_other_keys(v: Json, r: Result<Json, PayloadError>, k: Seq<char>)
    requires
        strip_post(v, r),
        r matches Ok(o),
        k != "type"@,
    ensures
        r matches Ok(o) && o matches Json::Obj(es2) && (v matches Json::Obj(es) ==> has_key(
            es2@,
            k,
        ) == has_key(es@, k)),
{
    match v {
        Json::Obj(es) => {
            lemma_remove_key_keeps_others(es@, "type"@, k);
        },
        _ => {
        },
    }
}

/// A response missing `included` becomes an envelope whose `included` is the
/// empty sequence and whose `data` is the original parsed body.
pub proof fn lemma_normalize_missing_included(v: Json, r: Json)
    requires
        !is_wrapped_doc(v),
        normalize_post(v, r),
    ensures
        envelope_of(v, r),
{
}

/// A response already carrying `included` is passed through unchanged.
pub proof fn lemma_normalize_identity(v: Json, r: Json)
    requires
        is_wrapped_doc(v),
        normalize_post(v, r),
    ensures
        r == v,
{
}

/// Every normalized document carries `included`.
pub proof fn lemma_normalize_wraps(v: Json, r: Json)
    requires
        normalize_post(v, r),
    ensures
        is_wrapped_doc(r),
{
    if is_wrapped_doc(v) {
    } else {
        match r {
            Json::Obj(es) => {
                assert((es@[1]).0@ == "included"@);
                assert(has_key(es@, "included"@));
            },
            _ => {
                assert(false);
            },
        }
    }
}

/// Normalization is idempotent: normalizing an already normalized document
/// changes nothing.
pub proof fn lemma_normalize_idempotent(v: Json, r1: Json, r2: Json)
    requires
        normalize_post(v, r1),
        normalize_post(r1, r2),
    ensures
        r2 == r1,
{
    lemma_normalize_wraps(v, r1);
}

} // verus!
