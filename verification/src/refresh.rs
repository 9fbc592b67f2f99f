//! The decision core of the background refresher. One tick performs a
//! conditional fetch against the remote source; the transport itself is
//! outside work, but everything the tick decides — which validator to
//! send, what an upstream response means, and how the remote slot changes
//! — is here. A transport error (timeout, connection failure) never
//! produces a response to classify: the tick is simply over, the slot
//! untouched, exactly as with an unexpected status.

use vstd::prelude::*;
use crate::digest::spec_fingerprint;
use crate::entry::CacheEntry;
use crate::slot::RemoteSlot;

verus! {

/// The result of one refresh attempt: new content arrived, the cached
/// content is still current, or the attempt failed with an unexpected
/// HTTP status.
pub enum FetchOutcome {
    Updated(CacheEntry),
    NotModified,
    Failed(u16),
}

/// Mathematical model of a [`FetchOutcome`].
pub enum OutcomeModel {
    Updated { bytes: Seq<u8>, etag: Seq<char> },
    NotModified,
    Failed { status: u16 },
}

impl View for FetchOutcome {
    type V = OutcomeModel;

    open spec fn view(&self) -> OutcomeModel {
        match self {
            FetchOutcome::Updated(e) => OutcomeModel::Updated { bytes: e.bytes@, etag: e.etag@ },
            FetchOutcome::NotModified => OutcomeModel::NotModified,
            FetchOutcome::Failed(s) => OutcomeModel::Failed { status: *s },
        }
    }
}

/// How one tick's outcome changes the cached remote content: new content
/// replaces the whole entry; everything else leaves the cache exactly at
/// its last good state.
pub open spec fn next_state(
    current: Option<(Seq<u8>, Seq<char>)>,
    outcome: OutcomeModel,
) -> Option<(Seq<u8>, Seq<char>)> {
    match outcome {
        OutcomeModel::Updated { bytes, etag } => Some((bytes, etag)),
        OutcomeModel::NotModified => current,
        OutcomeModel::Failed { status } => current,
    }
}

/// The payload and validator of an optional cached entry.
pub open spec fn stored_view(v: Option<CacheEntry>) -> Option<(Seq<u8>, Seq<char>)> {
    match v {
        Some(e) => Some((e.bytes@, e.etag@)),
        None => None,
    }
}

/// Computes the cache content after one tick, following [`next_state`]:
/// the new entry on new content, the current content — bit for bit the
/// same entry — otherwise. Well-formedness of the stored entry is
/// preserved, so the remote slot can apply this under its write lock.
pub fn next_cache(current: Option<CacheEntry>, outcome: FetchOutcome) -> (r: (
    Option<CacheEntry>,
    bool,
))
    requires
        current matches Some(e) ==> e.wf(),
        outcome matches FetchOutcome::Updated(e) ==> e.wf(),
    ensures
        stored_view(r.0) == next_state(stored_view(current), outcome@),
        r.0 matches Some(e) ==> e.wf(),
        r.1 <==> outcome is Updated,
        !(outcome is Updated) ==> r.0 == current,
{
    match outcome {
        FetchOutcome::Updated(e) => (Some(e), true),
        FetchOutcome::NotModified => (current, false),
        FetchOutcome::Failed(_) => (current, false),
    }
}

/// The validator a conditional fetch sends: the cached entry's etag when
/// the cache is warm, nothing when it is cold.
pub fn request_validator(current: &Option<CacheEntry>) -> (r: Option<String>)
    ensures
        r is Some <==> current is Some,
        current matches Some(e) ==> (r matches Some(t) && t@ == e.etag@),
{
    match current {
        Some(e) => Some(e.etag.clone()),
        None => None,
    }
}

/// Classifies one upstream response. HTTP 200 yields new content: the
/// body together with the upstream `ETag` header when one was sent, the
/// body's own fingerprint otherwise. HTTP 304 means the cached content is
/// still current. Every other status is a failed attempt.
pub fn classify_response(status: u16, etag_header: Option<String>, body: Vec<u8>) -> (o: FetchOutcome)
    ensures
        status == 200 ==> (o matches FetchOutcome::Updated(e) && e.wf() && e.bytes@ == body@
            && e.etag@ == match etag_header {
            Some(t) => t@,
            None => spec_fingerprint(body@),
        }),
        status == 304 ==> o is NotModified,
        status != 200 && status != 304 ==> o == FetchOutcome::Failed(status),
{
    if status == 200 {
        FetchOutcome::Updated(CacheEntry::from_fetch(body, etag_header))
    } else if status == 304 {
        FetchOutcome::NotModified
    } else {
        FetchOutcome::Failed(status)
    }
}

/// One whole refresh decision, given the upstream response of this tick:
/// classify it and apply it to the slot under the write lock. The slot
/// is replaced exactly on HTTP 200; 304 and every unexpected status
/// leave the cached entry at its last good state.
pub fn ingest_response(
    slot: &RemoteSlot,
    status: u16,
    etag_header: Option<String>,
    body: Vec<u8>,
) -> (updated: bool)
    ensures
        updated <==> status == 200,
{
    let outcome = classify_response(status, etag_header, body);
    slot.apply(outcome)
}

/// A not-modified tick keeps the cached content: for every cache state,
/// the refresher's transition on a 304 outcome is the identity.
pub proof fn lemma_not_modified_keeps_state(current: Option<(Seq<u8>, Seq<char>)>)
    ensures
        next_state(current, OutcomeModel::NotModified) == current,
{
}

/// A failed tick keeps the cached content: for every cache state and
/// every unexpected status, the refresher's transition is the identity,
/// so one failed attempt never disturbs the last good entry.
pub proof fn lemma_failed_tick_keeps_state(current: Option<(Seq<u8>, Seq<char>)>, status: u16)
    ensures
        next_state(current, OutcomeModel::Failed { status }) == current,
{
}

} // verus!
