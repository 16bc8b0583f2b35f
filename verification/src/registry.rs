//! The process-wide registry of live receiver connections.
//!
//! Each entry pairs a stream identity `(ip, stream_name)` with the opaque
//! connection handle the SDK returned for it, the receiver's epoch timestamp,
//! and a reference count. At most one live entry exists per identity; entry
//! id `0` is reserved to mean "no receiver". The host performs the actual
//! SDK connect and disconnect calls and hands their results in as plain
//! values.

use vstd::prelude::*;

verus! {

/// One live receiver connection shared by any number of adapters.
pub struct ReceiverEntry {
    /// Non-zero registry id handed to adapters.
    pub id: u64,
    /// Address the connection was made with; empty means name-based
    /// discovery.
    pub ip: String,
    /// Stream name the connection was made with.
    pub stream_name: String,
    /// Opaque token for the SDK connection handle, chosen by the host.
    pub handle: u64,
    /// Epoch timestamp in source ticks; `0` until established.
    pub initial_timestamp: u64,
    /// Number of adapters attached to this connection.
    pub reference_count: u32,
}

/// What the caller must do after releasing a receiver id.
#[derive(Clone, Copy, Debug, PartialEq, Eq, Structural)]
pub enum ReleaseAction {
    /// The id named no live entry; nothing to do.
    NotFound,
    /// Other adapters still hold the connection; keep it open.
    StillShared,
    /// The last adapter detached: close this SDK handle.
    CloseConnection { handle: u64 },
}

/// Whether some entry carries the identity `(ip, stream_name)`.
pub open spec fn has_key(s: Seq<ReceiverEntry>, ip: Seq<char>, stream_name: Seq<char>) -> bool {
    exists|i: int|
        0 <= i < s.len() && s[i].ip@ == ip && s[i].stream_name@ == stream_name
}

/// The index of the entry carrying `(ip, stream_name)`; meaningful only
/// when `has_key` holds (under well-formedness it is unique).
pub open spec fn index_of_key(s: Seq<ReceiverEntry>, ip: Seq<char>, stream_name: Seq<char>) -> int {
    choose|i: int| 0 <= i < s.len() && s[i].ip@ == ip && s[i].stream_name@ == stream_name
}

/// Whether some entry carries the id.
pub open spec fn has_id(s: Seq<ReceiverEntry>, id: u64) -> bool {
    exists|i: int| 0 <= i < s.len() && s[i].id == id
}

/// The index of the entry carrying the id; meaningful only when `has_id`
/// holds (under well-formedness it is unique).
pub open spec fn index_of_id(s: Seq<ReceiverEntry>, id: u64) -> int {
    choose|i: int| 0 <= i < s.len() && s[i].id == id
}

/// A second adapter attaches to the entry at `i`: its reference count goes
/// up by one and nothing else changes.
pub open spec fn attach_transition(s: Seq<ReceiverEntry>, i: int) -> Seq<ReceiverEntry> {
    s.update(
        i,
        ReceiverEntry { reference_count: (s[i].reference_count + 1) as u32, ..s[i] },
    )
}

/// An adapter releases the entry at `i` while others still hold it: the
/// reference count goes down by one and the connection stays.
pub open spec fn release_shared_transition(s: Seq<ReceiverEntry>, i: int) -> Seq<ReceiverEntry> {
    s.update(
        i,
        ReceiverEntry { reference_count: (s[i].reference_count - 1) as u32, ..s[i] },
    )
}

/// The last adapter releases the entry at `i`: it leaves the registry and
/// its connection is to be closed.
pub open spec fn release_last_transition(s: Seq<ReceiverEntry>, i: int) -> Seq<ReceiverEntry> {
    s.remove(i)
}

/// The epoch update rule: the first observation establishes the epoch, and a
/// later observation moves it only backward, tolerating slightly
/// out-of-order delivery at stream start.
pub open spec fn epoch_update(current: u64, observed: u64) -> u64 {
    if current == 0 || observed < current {
        observed
    } else {
        current
    }
}

/// The registry of live receiver connections.
pub struct ReceiverRegistry {
    /// The live entries, each holding one distinct stream identity.
    pub entries: Vec<ReceiverEntry>,
    /// The next id to hand out; ids are never reused.
    pub next_id: u64,
}

impl ReceiverRegistry {
    /// Well-formedness: ids are non-zero, unique and below `next_id`, every
    /// entry is held by at least one adapter, and stream identities are
    /// unique.
    pub open spec fn wf(self) -> bool {
        &&& self.next_id >= 1
        &&& forall|i: int|
            0 <= i < self.entries@.len() ==> {
                &&& (#[trigger] self.entries@[i]).id != 0
                &&& self.entries@[i].id < self.next_id
                &&& self.entries@[i].reference_count >= 1
            }
        &&& forall|i: int, j: int|
            0 <= i < j < self.entries@.len() ==> #[trigger] self.entries@[i].id
                != #[trigger] self.entries@[j].id
        &&& forall|i: int, j: int|
            0 <= i < j < self.entries@.len() ==> !((#[trigger] self.entries@[i]).ip@
                == (#[trigger] self.entries@[j]).ip@ && self.entries@[i].stream_name@
                == self.entries@[j].stream_name@)
    }

    /// An empty registry.
    pub fn new() -> (r: ReceiverRegistry)
        ensures
            r.wf(),
            r.entries@.len() == 0,
            r.next_id == 1,
    {
        ReceiverRegistry { entries: Vec::new(), next_id: 1 }
    }

    /// Attach to an existing connection for `(ip, stream_name)`: if one is
    /// live, its reference count goes up and its id is returned; otherwise
    /// `0` is returned and the caller must establish a new connection and
    /// register it.
    pub fn attach(&mut self, ip: &String, stream_name: &String) -> (r: u64)
        requires
            old(self).wf(),
            has_key(old(self).entries@, ip@, stream_name@) ==> old(self).entries@[index_of_key(
                old(self).entries@,
                ip@,
                stream_name@,
            )].reference_count < u32::MAX,
        ensures
            final(self).wf(),
            final(self).next_id == old(self).next_id,
            has_key(old(self).entries@, ip@, stream_name@) ==> {
                let i = index_of_key(old(self).entries@, ip@, stream_name@);
                &&& r == old(self).entries@[i].id
                &&& r != 0
                &&& final(self).entries@ == attach_transition(old(self).entries@, i)
            },
            !has_key(old(self).entries@, ip@, stream_name@) ==> r == 0 && final(self).entries@
                == old(self).entries@,
    {
        let n = self.entries.len();
        let mut k: usize = 0;
        while k < n
            invariant
                self.entries@ == old(self).entries@,
                self.next_id == old(self).next_id,
                n == self.entries@.len(),
                0 <= k <= n,
                forall|i: int|
                    0 <= i < k ==> !((#[trigger] self.entries@[i]).ip@ == ip@
                        && self.entries@[i].stream_name@ == stream_name@),
                self.wf(),
                has_key(self.entries@, ip@, stream_name@) ==> self.entries@[index_of_key(
                    self.entries@,
                    ip@,
                    stream_name@,
                )].reference_count < u32::MAX,
            decreases n - k,
        {
            if self.entries[k].ip.eq(ip) && self.entries[k].stream_name.eq(stream_name) {
                let ghost s0 = self.entries@;
                let ghost w = index_of_key(s0, ip@, stream_name@);
                proof {
                    assert(has_key(s0, ip@, stream_name@));
                    assert(0 <= w < s0.len() && s0[w].ip@ == ip@ && s0[w].stream_name@
                        == stream_name@);
                    assert(w == k as int);
                }
                let id = self.entries[k].id;
                let rc = self.entries[k].reference_count;
                let e = &mut self.entries[k];
                e.reference_count = rc + 1;
                proof {
                    assert(self.entries@ =~= attach_transition(s0, k as int));
                }
                return id;
            }
            k = k + 1;
        }
        proof {
            assert(!has_key(self.entries@, ip@, stream_name@));
        }
        0
    }

    /// Register a connection the host just established for a stream identity
    /// that had no live entry. The new entry starts with an unset epoch and
    /// one holder, under a freshly allocated non-zero id, which is returned.
    pub fn register_connection(&mut self, ip: &String, stream_name: &String, handle: u64) -> (r:
        u64)
        requires
            old(self).wf(),
            !has_key(old(self).entries@, ip@, stream_name@),
            old(self).next_id < u64::MAX,
        ensures
            final(self).wf(),
            r == old(self).next_id,
            r != 0,
            final(self).next_id == old(self).next_id + 1,
            final(self).entries@.len() == old(self).entries@.len() + 1,
            forall|i: int|
                0 <= i < old(self).entries@.len() ==> final(self).entries@[i] == old(self).entries@[i],
            ({
                let e = final(self).entries@.last();
                &&& e.id == r
                &&& e.ip@ == ip@
                &&& e.stream_name@ == stream_name@
                &&& e.handle == handle
                &&& e.initial_timestamp == 0
                &&& e.reference_count == 1
            }),
            has_id(final(self).entries@, r),
    {
        let id = self.next_id;
        let entry = ReceiverEntry {
            id,
            ip: ip.clone(),
            stream_name: stream_name.clone(),
            handle,
            initial_timestamp: 0,
            reference_count: 1,
        };
        self.entries.push(entry);
        self.next_id = self.next_id + 1;
        proof {
            let s = self.entries@;
            assert(s[s.len() - 1].id == id);
        }
        id
    }

    /// Release one adapter's hold on a receiver id. When the last hold goes,
    /// the entry leaves the registry and the caller must close the returned
    /// SDK handle.
    pub fn release(&mut self, id_receiver: u64) -> (r: ReleaseAction)
        requires
            old(self).wf(),
        ensures
            final(self).wf(),
            final(self).next_id == old(self).next_id,
            !has_id(old(self).entries@, id_receiver) ==> r == ReleaseAction::NotFound && final(self).entries@ == old(self).entries@,
            has_id(old(self).entries@, id_receiver) ==> {
                let i = index_of_id(old(self).entries@, id_receiver);
                if old(self).entries@[i].reference_count >= 2 {
                    &&& r == ReleaseAction::StillShared
                    &&& final(self).entries@ == release_shared_transition(old(self).entries@, i)
                } else {
                    &&& (r matches ReleaseAction::CloseConnection { handle } && handle == old(self).entries@[i].handle)
                    &&& final(self).entries@ == release_last_transition(old(self).entries@, i)
                }
            },
    {
        let n = self.entries.len();
        let mut k: usize = 0;
        while k < n
            invariant
                self.entries@ == old(self).entries@,
                self.next_id == old(self).next_id,
                n == self.entries@.len(),
                0 <= k <= n,
                forall|i: int| 0 <= i < k ==> (#[trigger] self.entries@[i]).id != id_receiver,
                self.wf(),
            decreases n - k,
        {
            if self.entries[k].id == id_receiver {
                let ghost s0 = self.entries@;
                let ghost w = index_of_id(s0, id_receiver);
                proof {
                    assert(has_id(s0, id_receiver));
                    assert(0 <= w < s0.len() && s0[w].id == id_receiver);
                    assert(w == k as int);
                }
                let rc = self.entries[k].reference_count;
                if rc >= 2 {
                    let e = &mut self.entries[k];
                    e.reference_count = rc - 1;
                    proof {
                        assert(self.entries@ =~= release_shared_transition(s0, k as int));
                    }
                    return ReleaseAction::StillShared;
                } else {
                    let entry = self.entries.remove(k);
                    proof {
                        assert(self.entries@ =~= release_last_transition(s0, k as int));
                    }
                    return ReleaseAction::CloseConnection { handle: entry.handle };
                }
            }
            k = k + 1;
        }
        proof {
            assert(!has_id(self.entries@, id_receiver));
        }
        ReleaseAction::NotFound
    }

    /// Fold an observed audio timestamp into a receiver's epoch, under the
    /// `epoch_update` rule. Returns whether the id named a live entry.
    pub fn observe_timestamp(&mut self, id_receiver: u64, timestamp: u64) -> (r: bool)
        requires
            old(self).wf(),
        ensures
            final(self).wf(),
            final(self).next_id == old(self).next_id,
            r == has_id(old(self).entries@, id_receiver),
            !has_id(old(self).entries@, id_receiver) ==> final(self).entries@ == old(self).entries@,
            has_id(old(self).entries@, id_receiver) ==> {
                let i = index_of_id(old(self).entries@, id_receiver);
                final(self).entries@ == old(self).entries@.update(
                    i,
                    ReceiverEntry {
                        initial_timestamp: epoch_update(
                            old(self).entries@[i].initial_timestamp,
                            timestamp,
                        ),
                        ..old(self).entries@[i]
                    },
                )
            },
    {
        let n = self.entries.len();
        let mut k: usize = 0;
        while k < n
            invariant
                self.entries@ == old(self).entries@,
                self.next_id == old(self).next_id,
                n == self.entries@.len(),
                0 <= k <= n,
                forall|i: int| 0 <= i < k ==> (#[trigger] self.entries@[i]).id != id_receiver,
                self.wf(),
            decreases n - k,
        {
            if self.entries[k].id == id_receiver {
                let ghost s0 = self.entries@;
                let ghost w = index_of_id(s0, id_receiver);
                proof {
                    assert(has_id(s0, id_receiver));
                    assert(0 <= w < s0.len() && s0[w].id == id_receiver);
                    assert(w == k as int);
                }
                let current = self.entries[k].initial_timestamp;
                if current == 0 || timestamp < current {
                    let e = &mut self.entries[k];
                    e.initial_timestamp = timestamp;
                }
                proof {
                    assert(self.entries@ =~= s0.update(
                        k as int,
                        ReceiverEntry {
                            initial_timestamp: epoch_update(s0[k as int].initial_timestamp,
                            timestamp),
                            ..s0[k as int]
                        },
                    ));
                }
                return true;
            }
            k = k + 1;
        }
        proof {
            assert(!has_id(self.entries@, id_receiver));
        }
        false
    }

    /// The epoch timestamp of a live receiver, or `None` for an unknown id.
    pub fn initial_timestamp_of(&self, id_receiver: u64) -> (r: Option<u64>)
        requires
            self.wf(),
        ensures
            has_id(self.entries@, id_receiver) ==> r == Some(
                self.entries@[index_of_id(self.entries@, id_receiver)].initial_timestamp,
            ),
            !has_id(self.entries@, id_receiver) ==> r is None,
    {
        let n = self.entries.len();
        let mut k: usize = 0;
        while k < n
            invariant
                n == self.entries@.len(),
                0 <= k <= n,
                forall|i: int| 0 <= i < k ==> (#[trigger] self.entries@[i]).id != id_receiver,
                self.wf(),
            decreases n - k,
        {
            if self.entries[k].id == id_receiver {
                proof {
                    let w = index_of_id(self.entries@, id_receiver);
                    assert(has_id(self.entries@, id_receiver));
                    assert(0 <= w < self.entries@.len() && self.entries@[w].id == id_receiver);
                    assert(w == k as int);
                }
                return Some(self.entries[k].initial_timestamp);
            }
            k = k + 1;
        }
        None
    }

    /// The reference count of a live receiver, or `None` for an unknown id.
    pub fn reference_count_of(&self, id_receiver: u64) -> (r: Option<u32>)
        requires
            self.wf(),
        ensures
            has_id(self.entries@, id_receiver) ==> r == Some(
                self.entries@[index_of_id(self.entries@, id_receiver)].reference_count,
            ),
            !has_id(self.entries@, id_receiver) ==> r is None,
    {
        let n = self.entries.len();
        let mut k: usize = 0;
        while k < n
            invariant
                n == self.entries@.len(),
                0 <= k <= n,
                forall|i: int| 0 <= i < k ==> (#[trigger] self.entries@[i]).id != id_receiver,
                self.wf(),
            decreases n - k,
        {
            if self.entries[k].id == id_receiver {
                proof {
                    let w = index_of_id(self.entries@, id_receiver);
                    assert(has_id(self.entries@, id_receiver));
                    assert(0 <= w < self.entries@.len() && self.entries@[w].id == id_receiver);
                    assert(w == k as int);
                }
                return Some(self.entries[k].reference_count);
            }
            k = k + 1;
        }
        None
    }

    /// The connection handle of a live receiver, or `None` for an unknown
    /// id: what the host polls and eventually closes.
    pub fn handle_of(&self, id_receiver: u64) -> (r: Option<u64>)
        requires
            self.wf(),
        ensures
            has_id(self.entries@, id_receiver) ==> r == Some(
                self.entries@[index_of_id(self.entries@, id_receiver)].handle,
            ),
            !has_id(self.entries@, id_receiver) ==> r is None,
    {
        let n = self.entries.len();
        let mut k: usize = 0;
        while k < n
            invariant
                n == self.entries@.len(),
                0 <= k <= n,
                forall|i: int| 0 <= i < k ==> (#[trigger] self.entries@[i]).id != id_receiver,
                self.wf(),
            decreases n - k,
        {
            if self.entries[k].id == id_receiver {
                proof {
                    let w = index_of_id(self.entries@, id_receiver);
                    assert(has_id(self.entries@, id_receiver));
                    assert(0 <= w < self.entries@.len() && self.entries@[w].id == id_receiver);
                    assert(w == k as int);
                }
                return Some(self.entries[k].handle);
            }
            k = k + 1;
        }
        None
    }

    /// How many live connections the registry holds.
    pub fn live_connections(&self) -> (r: usize)
        ensures
            r == self.entries@.len(),
    {
        self.entries.len()
    }
}

} // verus!
