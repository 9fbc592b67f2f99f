//! Response policy shared by all resource handlers: conditional-GET
//! short-circuiting against a cache entry's validator, and the fallback
//! from the remote snapshot to the local one.

use vstd::prelude::*;
use crate::entry::CacheEntry;

verus! {

/// What a resource handler answers: `304 Not Modified` with no body, or
/// `200 OK` with the full payload and its validator.
pub enum Reply {
    NotModified,
    Full { body: Vec<u8>, etag: String },
}

/// Mathematical model of a [`Reply`].
pub enum ReplyModel {
    NotModified,
    Full { body: Seq<u8>, etag: Seq<char> },
}

impl View for Reply {
    type V = ReplyModel;

    open spec fn view(&self) -> ReplyModel {
        match self {
            Reply::NotModified => ReplyModel::NotModified,
            Reply::Full { body, etag } => ReplyModel::Full { body: body@, etag: etag@ },
        }
    }
}

/// The client-supplied `If-None-Match` validator, as a sequence of
/// characters, if the request carried one.
pub open spec fn validator_view(v: Option<&String>) -> Option<Seq<char>> {
    match v {
        Some(s) => Some(s@),
        None => None,
    }
}

/// The conditional-GET policy: `304 Not Modified` exactly when the
/// client's validator equals the entry's validator byte for byte; the full
/// payload with its validator otherwise.
pub open spec fn spec_respond(bytes: Seq<u8>, etag: Seq<char>, validator: Option<Seq<char>>) -> ReplyModel {
    if validator == Some(etag) {
        ReplyModel::NotModified
    } else {
        ReplyModel::Full { body: bytes, etag: etag }
    }
}

/// Renders one cache entry under the conditional-GET policy: 304 if and
/// only if the request's validator exactly equals the entry's etag;
/// otherwise 200 with the entry's bytes and etag.
pub fn respond(entry: &CacheEntry, if_none_match: Option<&String>) -> (r: Reply)
    ensures
        r@ == spec_respond(entry.bytes@, entry.etag@, validator_view(if_none_match)),
        r is NotModified <==> (if_none_match matches Some(v) && v@ == entry.etag@),
        r matches Reply::Full { body, etag } ==> body@ == entry.bytes@ && etag@ == entry.etag@,
{
    let matched = match if_none_match {
        Some(v) => *v == entry.etag,
        None => false,
    };
    if matched {
        Reply::NotModified
    } else {
        let copy = entry.clone();
        Reply::Full { body: copy.bytes, etag: copy.etag }
    }
}

/// The model of the remote cache slot's content as the handlers see it:
/// the payload and validator of the cached entry, if one is present.
pub open spec fn remote_view(remote: Option<&CacheEntry>) -> Option<(Seq<u8>, Seq<char>)> {
    match remote {
        Some(e) => Some((e.bytes@, e.etag@)),
        None => None,
    }
}

/// The policy of the remote-snapshot resource: serve the remote entry when
/// the slot holds one, and fall back to the local entry — including the
/// conditional-GET evaluation against the local validator — when it is
/// empty.
pub open spec fn spec_people(
    remote: Option<(Seq<u8>, Seq<char>)>,
    local_bytes: Seq<u8>,
    local_etag: Seq<char>,
    validator: Option<Seq<char>>,
) -> ReplyModel {
    match remote {
        Some(r) => spec_respond(r.0, r.1, validator),
        None => spec_respond(local_bytes, local_etag, validator),
    }
}

/// Renders the remote-snapshot resource from a snapshot of the remote slot
/// and the local entry.
pub fn people_reply(remote: Option<&CacheEntry>, local: &CacheEntry, if_none_match: Option<&String>) -> (r: Reply)
    ensures
        r@ == spec_people(remote_view(remote), local.bytes@, local.etag@, validator_view(if_none_match)),
{
    match remote {
        Some(e) => respond(e, if_none_match),
        None => respond(local, if_none_match),
    }
}

/// Conditional-GET correctness: for every entry and every request
/// validator, the policy answers `304 Not Modified` exactly when the
/// validator equals the entry's etag, and otherwise answers the full
/// payload together with that same etag.
pub proof fn lemma_conditional_get(bytes: Seq<u8>, etag: Seq<char>, validator: Option<Seq<char>>)
    ensures
        spec_respond(bytes, etag, validator) is NotModified <==> validator == Some(etag),
        validator != Some(etag) ==> spec_respond(bytes, etag, validator) == (ReplyModel::Full {
            body: bytes,
            etag: etag,
        }),
{
}

/// Fallback correctness: when the remote slot is empty, the
/// remote-snapshot resource answers exactly what the local-snapshot
/// resource answers, for every request validator.
pub proof fn lemma_empty_remote_falls_back(
    local_bytes: Seq<u8>,
    local_etag: Seq<char>,
    validator: Option<Seq<char>>,
)
    ensures
        spec_people(None, local_bytes, local_etag, validator) == spec_respond(
            local_bytes,
            local_etag,
            validator,
        ),
{
}

/// The `Content-Type` header value of every 200 response of this service.
pub fn content_type_value() -> (r: &'static str)
    ensures
        r@ == "application/json; charset=utf-8"@,
{
    "application/json; charset=utf-8"
}

/// The `Cache-Control` header value of every 200 response of this service.
pub fn cache_control_value() -> (r: &'static str)
    ensures
        r@ == "public, max-age=30"@,
{
    "public, max-age=30"
}

/// The body of the liveness resource, which succeeds unconditionally.
pub fn health_body() -> (r: &'static str)
    ensures
        r@ == "ok"@,
{
    "ok"
}

} // verus!
