//! The remote cache slot: a reader/writer-locked holder of an optional
//! cache entry, written only by the refresher and read concurrently by
//! request handlers. The whole optional value is replaced under the write
//! lock, so a reader sees either the entry before a refresh or the entry
//! after it, never a torn mixture; the lock's invariant keeps every stored
//! entry well-formed (its bytes and etag stem from one construction).

use vstd::prelude::*;
use vstd::rwlock::{RwLock, RwLockPredicate};
use crate::entry::CacheEntry;
use crate::refresh::{next_cache, FetchOutcome};

verus! {

/// The invariant of the remote slot: an occupied slot holds a well-formed
/// entry, i.e. one whose bytes and validator come from a single
/// construction.
pub struct SlotInv;

impl RwLockPredicate<Option<CacheEntry>> for SlotInv {
    open spec fn inv(self, v: Option<CacheEntry>) -> bool {
        match v {
            Some(e) => e.wf(),
            None => true,
        }
    }
}

/// A concurrently readable, single-writer holder of the latest remote
/// cache entry. Created empty; the refresher replaces the whole value
/// atomically on each successful fetch.
pub struct RemoteSlot {
    lock: RwLock<Option<CacheEntry>, SlotInv>,
}

impl RemoteSlot {
    /// A fresh slot, empty until the first successful fetch.
    pub fn new() -> (s: RemoteSlot)
        ensures
            forall|v: Option<CacheEntry>| s.inv(v) <==> (v matches Some(e) ==> e.wf()),
    {
        RemoteSlot { lock: RwLock::new(None, Ghost(SlotInv)) }
    }

    /// Which values the slot may hold.
    pub closed spec fn inv(&self, v: Option<CacheEntry>) -> bool {
        self.lock.inv(v)
    }

    /// Takes one consistent snapshot of the slot under a shared read lock:
    /// a copy of the whole entry currently stored, if any. The lock is
    /// held only for the duration of the copy, and any entry handed out is
    /// well-formed.
    pub fn snapshot(&self) -> (r: Option<CacheEntry>)
        ensures
            r matches Some(e) ==> e.wf(),
    {
        let handle = self.lock.acquire_read();
        let r = match handle.borrow() {
            Some(e) => Some(e.clone()),
            None => None,
        };
        handle.release_read();
        r
    }

    /// The validator of the currently cached entry, if any: what a
    /// conditional fetch should send as `If-None-Match`. A validator is
    /// only ever handed out together with a well-formed entry that
    /// carried it, never fabricated.
    pub fn current_validator(&self) -> (r: Option<String>)
        ensures
            r matches Some(t) ==> exists|e: CacheEntry| e.wf() && e.etag@ == t@,
    {
        let handle = self.lock.acquire_read();
        let r = match handle.borrow() {
            Some(e) => {
                let t = e.etag.clone();
                proof {
                    assert(e.wf() && e.etag@ == t@);
                }
                Some(t)
            },
            None => None,
        };
        handle.release_read();
        r
    }

    /// Replaces the slot's content with one new entry, wholesale, under
    /// the write lock. The superseded entry is discarded; readers see
    /// either it or the new entry, never parts of both.
    pub fn store(&self, entry: CacheEntry)
        requires
            entry.wf(),
    {
        let (_superseded, write_handle) = self.lock.acquire_write();
        write_handle.release_write(Some(entry));
    }

    /// Applies one refresh tick's outcome while holding the write lock:
    /// the stored value becomes exactly `next_state` (see the refresh
    /// module) of the value held at the moment of the update — new
    /// content replaces the whole entry, a not-modified or failed tick
    /// leaves the held entry untouched. Returns whether the slot was
    /// replaced.
    pub fn apply(&self, outcome: FetchOutcome) -> (updated: bool)
        requires
            outcome matches FetchOutcome::Updated(e) ==> e.wf(),
        ensures
            updated <==> outcome is Updated,
    {
        let (current, write_handle) = self.lock.acquire_write();
        let (next, updated) = next_cache(current, outcome);
        write_handle.release_write(next);
        updated
    }
}

} // verus!
