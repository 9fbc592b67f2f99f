//! Immutable cache entries: a byte payload paired with the strong ETag
//! validator for it. An entry is built in one piece and never mutated;
//! updates replace the whole entry.

use vstd::prelude::*;
use crate::digest::{fingerprint, spec_fingerprint};

verus! {

/// Ghost record of the single construction an entry came from: the payload
/// it was built from, and the upstream-supplied validator if the builder
/// was handed one (`None` means the validator was computed by the content
/// hasher).
pub struct Provenance {
    pub bytes: Seq<u8>,
    pub supplied_etag: Option<Seq<char>>,
}

/// One cached resource version: payload bytes and the strong validator
/// served alongside them.
pub struct CacheEntry {
    pub bytes: Vec<u8>,
    pub etag: String,
    pub origin: Ghost<Provenance>,
}

impl CacheEntry {
    /// The entry is untorn: its bytes and its etag both come from the one
    /// construction recorded in `origin` — the bytes are exactly that
    /// construction's payload, and the etag is either the validator
    /// supplied to that same construction or the fingerprint of that same
    /// payload. Bytes and etag of a well-formed entry can never stem from
    /// two different fetches.
    pub open spec fn wf(self) -> bool {
        &&& self.bytes@ == self.origin@.bytes
        &&& match self.origin@.supplied_etag {
            Some(t) => self.etag@ == t,
            None => self.etag@ == spec_fingerprint(self.origin@.bytes),
        }
    }

    /// The validator was computed from the bytes by the content hasher,
    /// rather than supplied by an upstream source.
    pub open spec fn hashed(self) -> bool {
        self.etag@ == spec_fingerprint(self.bytes@)
    }

    /// Builds an entry whose validator is the fingerprint of the payload.
    pub fn from_bytes(bytes: Vec<u8>) -> (e: CacheEntry)
        ensures
            e.bytes@ == bytes@,
            e.etag@ == spec_fingerprint(bytes@),
            e.wf(),
            e.hashed(),
    {
        let etag = fingerprint(bytes.as_slice());
        let ghost origin = Provenance { bytes: bytes@, supplied_etag: None };
        CacheEntry { bytes, etag, origin: Ghost(origin) }
    }

    /// Builds an entry from one fetched payload: the upstream validator is
    /// kept as-is when the upstream sent one, and computed by the hasher
    /// otherwise. Either way both fields come from this one fetch.
    pub fn from_fetch(body: Vec<u8>, upstream_etag: Option<String>) -> (e: CacheEntry)
        ensures
            e.bytes@ == body@,
            e.etag@ == match upstream_etag {
                Some(t) => t@,
                None => spec_fingerprint(body@),
            },
            e.wf(),
    {
        match upstream_etag {
            Some(t) => {
                let ghost origin = Provenance { bytes: body@, supplied_etag: Some(t@) };
                CacheEntry { bytes: body, etag: t, origin: Ghost(origin) }
            },
            None => Self::from_bytes(body),
        }
    }
}

/// The local cache slot's content, decided once at startup: the file's
/// bytes when the local snapshot file could be read, the embedded
/// fallback payload otherwise. Either way the entry's validator is the
/// fingerprint of the payload actually used, and a usable entry always
/// comes back — a failed read degrades to the fallback, it never fails
/// the caller.
pub fn local_entry(file_bytes: Option<Vec<u8>>, fallback: Vec<u8>) -> (e: CacheEntry)
    ensures
        e.bytes@ == match file_bytes {
            Some(b) => b@,
            None => fallback@,
        },
        e.etag@ == spec_fingerprint(e.bytes@),
        e.wf(),
        e.hashed(),
{
    match file_bytes {
        Some(b) => CacheEntry::from_bytes(b),
        None => CacheEntry::from_bytes(fallback),
    }
}

/// Copies a byte vector; the copy holds exactly the same bytes.
pub fn clone_bytes(v: &Vec<u8>) -> (r: Vec<u8>)
    ensures
        r@ == v@,
{
    let r = v.clone();
    proof {
        assert(r@ =~= v@);
    }
    r
}

impl Clone for CacheEntry {
    /// The copy carries the same bytes, the same etag and the same
    /// provenance, so well-formedness carries over.
    fn clone(&self) -> (r: Self)
        ensures
            r.bytes@ == self.bytes@,
            r.etag@ == self.etag@,
            r.origin == self.origin,
            self.wf() ==> r.wf(),
    {
        CacheEntry { bytes: clone_bytes(&self.bytes), etag: self.etag.clone(), origin: self.origin }
    }
}

} // verus!
