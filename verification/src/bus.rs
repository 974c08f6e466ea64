//! Semantic model of the broadcast bus: a bounded, lossy, one-producer
//! many-consumer queue with an independent read cursor per subscriber.
//!
//! The producer never blocks.  Once `capacity` packets are buffered,
//! publishing drops the oldest retained packet, and a cursor that had not yet
//! read a dropped packet observes a `Lagged` signal counting its misses on
//! its next receive.  The laws proved here — in-order delivery, the bound on
//! queued packets, and subscriber isolation — are what the relay guarantees
//! each stream subscriber.

use vstd::prelude::*;

verus! {

/// Number of media packets a stream's bus retains for slow subscribers.
pub const STREAM_BUS_CAPACITY: usize = 10000;

/// Number of catalog snapshots the catalog bus retains.
pub const CATALOG_BUS_CAPACITY: usize = 100;

/// Outcome of one receive attempt on a bus cursor.
pub enum BusRecv {
    /// The next packet, in publish order.
    Packet(Vec<u8>),
    /// The cursor fell behind and missed this many packets; it has advanced
    /// to the oldest retained packet.
    Lagged(u64),
    /// Every published packet has been read and the publisher is still there.
    Empty,
    /// Every published packet has been read and the publisher has gone.
    Closed,
}

/// Bounded lossy fan-out queue of packets (byte buffers).
pub struct Bus {
    capacity: usize,
    buffer: Vec<Vec<u8>>,
    dropped: u64,
    closed: bool,
    history: Ghost<Seq<Seq<u8>>>,
}

/// A subscriber's private read position on a [`Bus`].
pub struct BusCursor {
    next: u64,
}

impl BusCursor {
    /// Index into [`Bus::sent`] of the next packet this cursor will consider.
    pub closed spec fn position(self) -> int {
        self.next as int
    }
}

impl Bus {
    /// Every packet ever published on this bus, in publish order.
    pub closed spec fn sent(self) -> Seq<Seq<u8>> {
        self.history@
    }

    /// How many packets have ever been published.
    pub open spec fn total(self) -> int {
        self.sent().len() as int
    }

    /// How many of the oldest packets have been dropped to keep the buffer
    /// within capacity.
    pub closed spec fn dropped_count(self) -> int {
        self.dropped as int
    }

    /// The bound on how many packets are retained at once.
    pub closed spec fn cap(self) -> int {
        self.capacity as int
    }

    /// Whether the publisher is gone.
    pub closed spec fn is_closed(self) -> bool {
        self.closed
    }

    /// How many packets are currently retained.
    pub open spec fn buffered(self) -> int {
        self.total() - self.dropped_count()
    }

    /// Internal consistency: the buffer holds exactly the packets published
    /// after the drop point, at most `capacity` of them.
    pub closed spec fn wf(self) -> bool {
        &&& self.capacity >= 1
        &&& self.buffer@.len() <= self.capacity
        &&& self.dropped as int + self.buffer@.len() == self.history@.len()
        &&& self.history@.len() <= u64::MAX as int
        &&& (forall|i: int|
            0 <= i < self.buffer@.len() ==> self.buffer@[i]@ == self.history@[
                self.dropped as int + i
            ])
    }

    /// A cursor position that this bus could have handed out.
    pub open spec fn valid_cursor(self, c: BusCursor) -> bool {
        0 <= c.position() <= self.total()
    }

    /// The packets `c` has yet to receive: everything published at or after
    /// its position, less what was already dropped.
    pub open spec fn remaining(self, c: BusCursor) -> Seq<Seq<u8>> {
        if c.position() < self.dropped_count() {
            self.sent().subrange(self.dropped_count(), self.total())
        } else {
            self.sent().subrange(c.position(), self.total())
        }
    }

    /// An empty open bus retaining at most `capacity` packets.
    pub fn new(capacity: usize) -> (bus: Bus)
        requires
            1 <= capacity,
        ensures
            bus.wf(),
            bus.sent() =~= Seq::<Seq<u8>>::empty(),
            bus.cap() == capacity,
            !bus.is_closed(),
            bus.dropped_count() == 0,
    {
        Bus {
            capacity,
            buffer: Vec::new(),
            dropped: 0,
            closed: false,
            history: Ghost(Seq::empty()),
        }
    }

    /// Publishes a packet.  At capacity the oldest retained packet is dropped
    /// instead of growing the buffer, so the publisher never blocks and the
    /// buffer never exceeds `capacity`.
    pub fn publish(&mut self, packet: Vec<u8>)
        requires
            old(self).wf(),
            !old(self).is_closed(),
            old(self).total() < u64::MAX,
        ensures
            final(self).wf(),
            final(self).sent() =~= old(self).sent().push(packet@),
            final(self).cap() == old(self).cap(),
            !final(self).is_closed(),
            final(self).buffered() <= final(self).cap(),
            final(self).dropped_count() == (if old(self).buffered() == old(self).cap() {
                old(self).dropped_count() + 1
            } else {
                old(self).dropped_count()
            }),
    {
        let ghost new_history = self.history@.push(packet@);
        if self.buffer.len() == self.capacity {
            self.buffer.remove(0);
            self.dropped = self.dropped + 1;
        }
        self.buffer.push(packet);
        self.history = Ghost(new_history);
    }

    /// The publisher is gone; no further packet will ever be published.
    pub fn close(&mut self)
        requires
            old(self).wf(),
        ensures
            final(self).wf(),
            final(self).is_closed(),
            final(self).sent() == old(self).sent(),
            final(self).cap() == old(self).cap(),
            final(self).dropped_count() == old(self).dropped_count(),
    {
        self.closed = true;
    }

    /// A new cursor that observes exactly the packets published strictly
    /// after this call.
    pub fn subscribe(&self) -> (c: BusCursor)
        requires
            self.wf(),
        ensures
            self.valid_cursor(c),
            c.position() == self.total(),
    {
        BusCursor { next: self.dropped + self.buffer.len() as u64 }
    }

    /// One receive attempt for `c`: the next packet in publish order; or a
    /// lag report, counting the dropped packets the cursor missed and
    /// jumping it to the oldest retained one; or, with nothing left, `Empty`
    /// while the publisher lives and `Closed` after.
    pub fn receive(&self, c: &mut BusCursor) -> (r: BusRecv)
        requires
            self.wf(),
            self.valid_cursor(*old(c)),
        ensures
            self.valid_cursor(*final(c)),
            old(c).position() < self.dropped_count() ==> {
                &&& r matches BusRecv::Lagged(k) && k == self.dropped_count() - old(
                    c,
                ).position()
                &&& final(c).position() == self.dropped_count()
            },
            self.dropped_count() <= old(c).position() < self.total() ==> {
                &&& r matches BusRecv::Packet(p) && p@ == self.sent()[old(c).position()]
                &&& final(c).position() == old(c).position() + 1
            },
            old(c).position() == self.total() ==> {
                &&& *final(c) == *old(c)
                &&& r == (if self.is_closed() {
                    BusRecv::Closed
                } else {
                    BusRecv::Empty
                })
            },
    {
        if c.next < self.dropped {
            let k = self.dropped - c.next;
            c.next = self.dropped;
            BusRecv::Lagged(k)
        } else if c.next < self.dropped + self.buffer.len() as u64 {
            let i = (c.next - self.dropped) as usize;
            let p = copy_packet(&self.buffer[i]);
            c.next = c.next + 1;
            BusRecv::Packet(p)
        } else {
            if self.closed {
                BusRecv::Closed
            } else {
                BusRecv::Empty
            }
        }
    }

    /// Receives until nothing is left, collecting the packets in order.  A
    /// cursor that kept up receives exactly the packets published after its
    /// position; one that fell behind receives exactly the retained suffix —
    /// dropped packets are skipped once and never re-sent.
    pub fn drain(&self, c: &mut BusCursor) -> (r: Vec<Vec<u8>>)
        requires
            self.wf(),
            self.valid_cursor(*old(c)),
        ensures
            final(c).position() == self.total(),
            r@.map_values(|p: Vec<u8>| p@) =~= self.remaining(*old(c)),
    {
        let mut out: Vec<Vec<u8>> = Vec::new();
        let ghost start = if old(c).position() < self.dropped_count() {
            self.dropped_count()
        } else {
            old(c).position()
        };
        if c.next < self.dropped {
            c.next = self.dropped;
        }
        while c.next < self.dropped + self.buffer.len() as u64
            invariant
                self.wf(),
                self.dropped_count() <= start,
                self.dropped_count() <= c.next as int,
                start <= c.next as int <= self.total(),
                out@.map_values(|p: Vec<u8>| p@) =~= self.sent().subrange(
                    start,
                    c.next as int,
                ),
            decreases self.total() - c.next as int,
        {
            let i = (c.next - self.dropped) as usize;
            let p = copy_packet(&self.buffer[i]);
            proof {
                assert(self.sent().subrange(start, c.next as int + 1) =~= self.sent().subrange(
                    start,
                    c.next as int,
                ).push(self.sent()[c.next as int]));
            }
            out.push(p);
            c.next = c.next + 1;
        }
        out
    }

    /// How many packets are currently retained (for observation; the law
    /// [`lemma_lag_bound`] bounds it by the capacity).
    pub fn buffered_len(&self) -> (n: usize)
        requires
            self.wf(),
        ensures
            n as int == self.buffered(),
    {
        self.buffer.len()
    }
}

/// An owned copy of a packet's bytes.
fn copy_packet(p: &Vec<u8>) -> (r: Vec<u8>)
    ensures
        r@ == p@,
{
    let mut r: Vec<u8> = Vec::new();
    let mut i: usize = 0;
    while i < p.len()
        invariant
            i <= p.len(),
            r@ =~= p@.subrange(0, i as int),
        decreases p.len() - i,
    {
        proof {
            assert(p@.subrange(0, i as int + 1) =~= p@.subrange(0, i as int).push(p@[i as int]));
        }
        r.push(p[i]);
        i = i + 1;
    }
    proof {
        assert(r@ =~= p@);
    }
    r
}

/// Law (bounded queueing): however far a subscriber falls behind, at most
/// `capacity` packets are queued for it at any time — the publisher's lead is
/// absorbed by dropping, never by growth.
pub proof fn lemma_lag_bound(bus: Bus, c: BusCursor)
    requires
        bus.wf(),
        bus.valid_cursor(c),
    ensures
        bus.remaining(c).len() <= bus.cap(),
{
}

/// Law (subscriber isolation): the packets a subscriber that kept up still
/// receives are exactly the packets published after its own position,
/// whatever the state of any other cursor — `slow` here is unconstrained and
/// may lag arbitrarily.  Receiving is read-only on the bus; only publishing
/// at capacity advances the drop point.
pub proof fn lemma_subscriber_isolation(bus: Bus, slow: BusCursor, c: BusCursor)
    requires
        bus.wf(),
        bus.valid_cursor(c),
        bus.dropped_count() <= c.position(),
    ensures
        bus.remaining(c) == bus.sent().subrange(c.position(), bus.total()),
{
}

} // verus!
