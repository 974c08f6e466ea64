//! The shared registry of active streams.
//!
//! It maps each live stream identifier to the send handle of that stream's
//! broadcast channel, and owns the catalog channel on which it publishes a
//! full snapshot of the identifiers after every successful mutation.  The
//! ghost catalog log records each published snapshot in order, so the
//! contracts pin down that exactly one snapshot goes out per successful
//! mutation and none on a failed one.

use vstd::prelude::*;

use crate::bus::CATALOG_BUS_CAPACITY;
use crate::bus::STREAM_BUS_CAPACITY;
use crate::channel::broadcast_send;
use crate::channel::broadcast_sender;
use crate::channel::broadcast_subscribe;
use crate::channel::clone_broadcast_sender;

verus! {

/// The views of a list of stream identifiers.
pub open spec fn id_views(ids: Seq<String>) -> Seq<Seq<char>> {
    ids.map_values(|s: String| s@)
}

/// Why a registration was refused.
#[derive(Debug, Clone, Copy, PartialEq, Eq, Structural)]
pub enum AddStreamError {
    /// The identifier already names a live stream.
    StreamIdAlreadyExists,
}

/// Why a deregistration was refused.
#[derive(Debug, Clone, Copy, PartialEq, Eq, Structural)]
pub enum RemoveStreamError {
    /// The identifier names no live stream.
    StreamIdNotFound,
}

struct StreamEntry {
    id: String,
    sender: tokio::sync::broadcast::Sender<bytes::Bytes>,
}

/// The registry: live streams and the catalog channel.
pub struct State {
    streams: Vec<StreamEntry>,
    streams_changed: tokio::sync::broadcast::Sender<Vec<String>>,
    log: Ghost<Seq<Seq<Seq<char>>>>,
}

impl State {
    /// The identifiers of the live streams, in registration order.
    pub closed spec fn ids(self) -> Seq<Seq<char>> {
        self.streams@.map_values(|e: StreamEntry| e.id@)
    }

    /// The set of live stream identifiers.
    pub open spec fn id_set(self) -> Set<Seq<char>> {
        self.ids().to_set()
    }

    /// Whether `id` names a live stream.
    pub open spec fn has_stream(self, id: Seq<char>) -> bool {
        self.ids().contains(id)
    }

    /// Every snapshot published on the catalog channel, oldest first; each
    /// entry is the full identifier list at the time it was published.
    pub closed spec fn catalog_log(self) -> Seq<Seq<Seq<char>>> {
        self.log@
    }

    /// The registry never holds two streams with one identifier.
    pub open spec fn wf(self) -> bool {
        self.ids().no_duplicates()
    }

    /// Once anything has been published, the newest catalog snapshot is the
    /// registry's current identifier list: every successful mutation
    /// publishes the list it leaves behind.
    pub open spec fn catalog_consistent(self) -> bool {
        self.catalog_log().len() > 0 ==> self.catalog_log().last() == self.ids()
    }

    /// An empty registry with a fresh catalog channel.
    pub fn new() -> (s: State)
        ensures
            s.wf(),
            s.ids() =~= Seq::<Seq<char>>::empty(),
            s.catalog_log() =~= Seq::<Seq<Seq<char>>>::empty(),
    {
        State {
            streams: Vec::new(),
            streams_changed: broadcast_sender::<Vec<String>>(CATALOG_BUS_CAPACITY),
            log: Ghost(Seq::empty()),
        }
    }

    /// The index of the entry for `stream_id`, if the stream is live.
    fn find_index(&self, stream_id: &String) -> (r: Option<usize>)
        ensures
            r matches Some(i) ==> 0 <= i < self.ids().len() && self.ids()[i as int] == stream_id@,
            r is None ==> !self.has_stream(stream_id@),
    {
        let mut i: usize = 0;
        while i < self.streams.len()
            invariant
                i <= self.streams.len(),
                forall|j: int| 0 <= j < i ==> self.ids()[j] != stream_id@,
            decreases self.streams.len() - i,
        {
            if self.streams[i].id == *stream_id {
                return Some(i);
            }
            i = i + 1;
        }
        None
    }

    /// Registers a stream: fails if the identifier is already live, and
    /// otherwise creates the stream's broadcast channel, inserts the entry,
    /// and publishes one catalog snapshot of the new identifier list.
    pub fn add_stream(&mut self, stream_id: String) -> (r: Result<(), AddStreamError>)
        requires
            old(self).wf(),
        ensures
            final(self).wf(),
            old(self).has_stream(stream_id@) ==> r == Err::<(), AddStreamError>(
                AddStreamError::StreamIdAlreadyExists,
            ) && *final(self) == *old(self),
            !old(self).has_stream(stream_id@) ==> {
                &&& r == Ok::<(), AddStreamError>(())
                &&& final(self).ids() =~= old(self).ids().push(stream_id@)
                &&& final(self).id_set() =~= old(self).id_set().insert(stream_id@)
                &&& final(self).catalog_log() =~= old(self).catalog_log().push(
                    final(self).ids(),
                )
                &&& final(self).catalog_consistent()
            },
    {
        match self.find_index(&stream_id) {
            Some(_) => Err(AddStreamError::StreamIdAlreadyExists),
            None => {
                let ghost pre = *self;
                let sender = broadcast_sender::<bytes::Bytes>(STREAM_BUS_CAPACITY);
                self.streams.push(StreamEntry { id: stream_id, sender });
                proof {
                    assert(self.ids() =~= pre.ids().push(stream_id@));
                    lemma_push_fresh_keeps_unique(pre.ids(), stream_id@);
                    lemma_push_to_set(pre.ids(), stream_id@);
                }
                self.publish_snapshot();
                Ok(())
            },
        }
    }

    /// Deregisters a stream: fails if the identifier is not live, and
    /// otherwise removes the entry and publishes one catalog snapshot of the
    /// remaining identifier list.
    pub fn remove_stream(&mut self, stream_id: &str) -> (r: Result<(), RemoveStreamError>)
        requires
            old(self).wf(),
        ensures
            final(self).wf(),
            !old(self).has_stream(stream_id@) ==> r == Err::<(), RemoveStreamError>(
                RemoveStreamError::StreamIdNotFound,
            ) && *final(self) == *old(self),
            old(self).has_stream(stream_id@) ==> {
                &&& r == Ok::<(), RemoveStreamError>(())
                &&& !final(self).has_stream(stream_id@)
                &&& final(self).ids().len() == old(self).ids().len() - 1
                &&& final(self).id_set() =~= old(self).id_set().remove(stream_id@)
                &&& final(self).catalog_log() =~= old(self).catalog_log().push(
                    final(self).ids(),
                )
                &&& final(self).catalog_consistent()
            },
    {
        let owned: String = stream_id.to_owned();
        match self.find_index(&owned) {
            None => Err(RemoveStreamError::StreamIdNotFound),
            Some(i) => {
                let ghost pre = *self;
                self.streams.remove(i);
                proof {
                    assert(self.ids() =~= pre.ids().remove(i as int));
                    lemma_remove_keeps_unique(pre.ids(), i as int);
                    lemma_remove_unique_to_set(pre.ids(), i as int);
                }
                self.publish_snapshot();
                Ok(())
            },
        }
    }

    /// A clone of the send handle for `stream_id`'s broadcast channel, if
    /// the stream is live.
    pub fn get_stream_sender(&mut self, stream_id: &str) -> (r: Option<
        tokio::sync::broadcast::Sender<bytes::Bytes>,
    >)
        ensures
            *final(self) == *old(self),
            r is Some <==> old(self).has_stream(stream_id@),
    {
        let owned: String = stream_id.to_owned();
        match self.find_index(&owned) {
            None => None,
            Some(i) => Some(clone_broadcast_sender(&self.streams[i].sender)),
        }
    }

    /// A fresh receiver on `stream_id`'s broadcast channel, if the stream is
    /// live; it observes the packets published after this call.
    pub fn get_stream_receiver(&mut self, stream_id: &str) -> (r: Option<
        tokio::sync::broadcast::Receiver<bytes::Bytes>,
    >)
        ensures
            *final(self) == *old(self),
            r is Some <==> old(self).has_stream(stream_id@),
    {
        let owned: String = stream_id.to_owned();
        match self.find_index(&owned) {
            None => None,
            Some(i) => Some(broadcast_subscribe(&self.streams[i].sender)),
        }
    }

    /// A fresh receiver on the catalog channel; it observes the snapshots
    /// published after this call.
    pub fn get_streams_changed_receiver(&mut self) -> (r: tokio::sync::broadcast::Receiver<
        Vec<String>,
    >)
        ensures
            *final(self) == *old(self),
    {
        broadcast_subscribe(&self.streams_changed)
    }

    /// Whether `stream_id` names a live stream.
    pub fn contains_stream(&self, stream_id: &str) -> (r: bool)
        ensures
            r == self.has_stream(stream_id@),
    {
        let owned: String = stream_id.to_owned();
        match self.find_index(&owned) {
            None => false,
            Some(_) => true,
        }
    }

    /// The current identifier list, in registration order.
    pub fn get_stream_ids(&self) -> (r: Vec<String>)
        ensures
            id_views(r@) =~= self.ids(),
    {
        let mut r: Vec<String> = Vec::new();
        let mut i: usize = 0;
        while i < self.streams.len()
            invariant
                i <= self.streams.len(),
                id_views(r@) =~= self.ids().subrange(0, i as int),
            decreases self.streams.len() - i,
        {
            proof {
                assert(self.ids().subrange(0, i as int + 1) =~= self.ids().subrange(
                    0,
                    i as int,
                ).push(self.ids()[i as int]));
            }
            r.push(self.streams[i].id.clone());
            i = i + 1;
        }
        proof {
            assert(id_views(r@) =~= self.ids());
        }
        r
    }

    /// Publishes the current identifier list on the catalog channel and
    /// records it in the catalog log.  A send with no catalog subscriber is
    /// harmless and ignored.
    fn publish_snapshot(&mut self)
        ensures
            final(self).streams == old(self).streams,
            final(self).streams_changed == old(self).streams_changed,
            final(self).catalog_log() =~= old(self).catalog_log().push(old(self).ids()),
    {
        let ids = self.get_stream_ids();
        let _ = broadcast_send(&self.streams_changed, ids);
        self.log = Ghost(self.log@.push(self.ids()));
    }
}

/// Law (uniqueness): a well-formed registry never contains duplicate
/// identifiers; together with the contract of [`State::add_stream`] — which
/// fails on a live identifier and leaves the registry unchanged — no sequence
/// of registrations can ever produce one.
pub proof fn lemma_stream_ids_unique(s: State)
    requires
        s.wf(),
    ensures
        s.ids().no_duplicates(),
{
}

/// Law (catalog completeness): a listing of the registry whose views are its
/// identifier sequence — such as the one [`State::get_stream_ids`] returns
/// and a fresh catalog subscriber is seeded with — names, as a set, exactly
/// the live streams.
pub proof fn lemma_catalog_completeness(s: State, listed: Seq<String>)
    requires
        id_views(listed) == s.ids(),
    ensures
        id_views(listed).to_set() == s.id_set(),
{
}

proof fn lemma_push_fresh_keeps_unique(ids: Seq<Seq<char>>, id: Seq<char>)
    requires
        ids.no_duplicates(),
        !ids.contains(id),
    ensures
        ids.push(id).no_duplicates(),
{
    assert forall|i: int, j: int|
        0 <= i < ids.push(id).len() && 0 <= j < ids.push(id).len() && i != j implies ids.push(
        id,
    )[i] != ids.push(id)[j] by {
        if i < ids.len() && j < ids.len() {
        } else if i == ids.len() {
            assert(ids.push(id)[i] == id);
            assert(!ids.contains(id));
        } else {
            assert(ids.push(id)[j] == id);
            assert(!ids.contains(id));
        }
    }
}

proof fn lemma_push_to_set(ids: Seq<Seq<char>>, id: Seq<char>)
    ensures
        ids.push(id).to_set() =~= ids.to_set().insert(id),
{
    assert forall|x: Seq<char>| ids.push(id).to_set().contains(x) implies ids.to_set().insert(
        id,
    ).contains(x) by {
        let k = choose|k: int| 0 <= k < ids.push(id).len() && ids.push(id)[k] == x;
        if k < ids.len() {
            assert(ids[k] == x);
        }
    }
    assert forall|x: Seq<char>| ids.to_set().insert(id).contains(x) implies ids.push(
        id,
    ).to_set().contains(x) by {
        if x == id {
            assert(ids.push(id)[ids.len() as int] == x);
        } else {
            let k = choose|k: int| 0 <= k < ids.len() && ids[k] == x;
            assert(ids.push(id)[k] == x);
        }
    }
}

proof fn lemma_remove_keeps_unique(ids: Seq<Seq<char>>, i: int)
    requires
        ids.no_duplicates(),
        0 <= i < ids.len(),
    ensures
        ids.remove(i).no_duplicates(),
{
    let r = ids.remove(i);
    assert forall|p: int, q: int| 0 <= p < r.len() && 0 <= q < r.len() && p != q implies r[p]
        != r[q] by {
        let p0 = if p < i {
            p
        } else {
            p + 1
        };
        let q0 = if q < i {
            q
        } else {
            q + 1
        };
        assert(r[p] == ids[p0]);
        assert(r[q] == ids[q0]);
    }
}

proof fn lemma_remove_unique_to_set(ids: Seq<Seq<char>>, i: int)
    requires
        ids.no_duplicates(),
        0 <= i < ids.len(),
    ensures
        ids.remove(i).to_set() =~= ids.to_set().remove(ids[i]),
        !ids.remove(i).contains(ids[i]),
{
    let r = ids.remove(i);
    ids.remove_ensures(i);
    assert forall|x: Seq<char>| r.to_set().contains(x) implies ids.to_set().remove(
        ids[i],
    ).contains(x) by {
        let p = choose|p: int| 0 <= p < r.len() && r[p] == x;
        let p0 = if p < i {
            p
        } else {
            p + 1
        };
        assert(r[p] == ids[p0]);
        assert(ids[p0] != ids[i]);
    }
    assert forall|x: Seq<char>| ids.to_set().remove(ids[i]).contains(x) implies r.to_set().contains(
        x,
    ) by {
        let p0 = choose|p0: int| 0 <= p0 < ids.len() && ids[p0] == x;
        let p = if p0 < i {
            p0
        } else {
            p0 - 1
        };
        assert(r[p] == ids[p0]);
    }
    if r.contains(ids[i]) {
        let p = choose|p: int| 0 <= p < r.len() && r[p] == ids[i];
        let p0 = if p < i {
            p
        } else {
            p + 1
        };
        assert(r[p] == ids[p0]);
        assert(false);
    }
}

} // verus!
