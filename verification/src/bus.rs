//! The per-session reload broadcast: one writer, any number of readers.
//!
//! A publish carries no detail — it means "refetch everything" — so the bus
//! is deliberately lossy-tolerant: a subscriber that falls behind its
//! bounded queue observes a lagged condition and goes on; missing an
//! intermediate event is harmless as long as a later one arrives. What is
//! never allowed is backlog replay: a subscriber sees only publishes made
//! after it subscribed. Publishes are numbered from 1 so that both laws can
//! be stated exactly.

use vstd::prelude::*;
use vstd::string::StringExecFns;

verus! {

/// The depth of each subscriber's queue; falling further behind than this
/// lags the subscriber forward.
pub const BUS_CAPACITY: u64 = 10;

/// The publishing side of one session's reload channel.
pub struct ReloadBus {
    /// How many reload events have been published so far.
    pub epoch: u64,
    /// Set when the owning session closes and drops the writer.
    pub closed: bool,
}

/// What one receive attempt on a subscription comes to.
pub enum RecvOutcome {
    /// One reload event was received.
    Reload,
    /// The subscriber fell behind; this many events were dropped for it.
    Lagged(u64),
    /// Nothing new has been published yet.
    Pending,
    /// The publisher is gone and everything published has been seen.
    Closed,
}

/// One subscription, created at socket-upgrade time.
pub struct BusSubscriber {
    /// The last publish number this subscriber has accounted for.
    pub cursor: u64,
    /// The bus epoch at the moment of subscribing.
    pub start: Ghost<u64>,
    /// The publish numbers received so far, in order.
    pub got: Ghost<Seq<u64>>,
    /// Whether this subscriber ever observed a lagged condition.
    pub lagged: Ghost<bool>,
}

impl ReloadBus {
    /// A fresh bus with nothing published.
    pub fn new() -> (b: ReloadBus)
        ensures
            b.epoch == 0,
            !b.closed,
    {
        ReloadBus { epoch: 0, closed: false }
    }

    /// Publishes exactly one reload event.
    pub fn publish(&mut self)
        requires
            !old(self).closed,
            old(self).epoch < u64::MAX,
        ensures
            final(self).epoch == old(self).epoch + 1,
            !final(self).closed,
    {
        self.epoch = self.epoch + 1;
    }

    /// Drops the writer: every subscriber will observe closure once it has
    /// drained what was published before.
    pub fn close(&mut self)
        ensures
            final(self).closed,
            final(self).epoch == old(self).epoch,
    {
        self.closed = true;
    }

    /// Opens a subscription. It starts at the current epoch: nothing
    /// already published will ever be replayed to it.
    pub fn subscribe(&self) -> (s: BusSubscriber)
        ensures
            s.inv(self),
            s.cursor == self.epoch,
            s.start@ == self.epoch,
            s.got@ == Seq::<u64>::empty(),
            !s.lagged@,
    {
        proof {
            assert(Seq::<u64>::empty() =~= Seq::new(0nat, |i: int| (self.epoch + i + 1) as u64));
        }
        BusSubscriber {
            cursor: self.epoch,
            start: Ghost(self.epoch),
            got: Ghost(Seq::empty()),
            lagged: Ghost(false),
        }
    }
}

impl BusSubscriber {
    /// What always holds of a subscription on its bus: the cursor sits
    /// between the subscription epoch and the bus epoch; every received
    /// publish number lies strictly after the subscription epoch; and a
    /// subscriber that never lagged has received exactly the publishes
    /// since its subscription, in order.
    pub open spec fn inv(self, bus: &ReloadBus) -> bool {
        &&& self.start@ <= self.cursor <= bus.epoch
        &&& forall|i: int|
            0 <= i < self.got@.len() ==> self.start@ < #[trigger] self.got@[i] <= self.cursor
        &&& (!self.lagged@ ==> self.got@ == Seq::new(
            (self.cursor - self.start@) as nat,
            |i: int| (self.start@ + i + 1) as u64,
        ))
    }

    /// One receive attempt: take the next event if one is buffered, jump
    /// forward (dropping the oldest events) when too far behind, report
    /// closure only once everything published has been seen.
    pub fn try_receive(&mut self, bus: &ReloadBus) -> (r: RecvOutcome)
        requires
            old(self).inv(bus),
        ensures
            final(self).inv(bus),
            final(self).start@ == old(self).start@,
            final(self).cursor >= old(self).cursor,
            r is Closed <==> (old(self).cursor == bus.epoch && bus.closed),
            r is Pending <==> (old(self).cursor == bus.epoch && !bus.closed),
            (r is Closed || r is Pending) ==> *final(self) == *old(self),
            r is Lagged <==> bus.epoch - old(self).cursor > BUS_CAPACITY,
            r matches RecvOutcome::Lagged(missed) ==> (missed == bus.epoch - old(self).cursor
                - BUS_CAPACITY && final(self).cursor == bus.epoch - BUS_CAPACITY
                && final(self).got@ == old(self).got@ && final(self).lagged@),
            r is Reload <==> (0 < bus.epoch - old(self).cursor <= BUS_CAPACITY),
            r is Reload ==> (final(self).cursor == old(self).cursor + 1 && final(self).got@ == old(
                self,
            ).got@.push((old(self).cursor + 1) as u64) && final(self).lagged@ == old(self).lagged@),
    {
        if self.cursor == bus.epoch {
            if bus.closed {
                RecvOutcome::Closed
            } else {
                RecvOutcome::Pending
            }
        } else if bus.epoch - self.cursor > BUS_CAPACITY {
            let missed = bus.epoch - self.cursor - BUS_CAPACITY;
            self.cursor = bus.epoch - BUS_CAPACITY;
            proof {
                self.lagged = Ghost(true);
            }
            RecvOutcome::Lagged(missed)
        } else {
            self.cursor = self.cursor + 1;
            proof {
                self.got = Ghost(self.got@.push(self.cursor));
                if !self.lagged@ {
                    assert(self.got@ =~= Seq::new(
                        (self.cursor - self.start@) as nat,
                        |i: int| (self.start@ + i + 1) as u64,
                    ));
                }
            }
            RecvOutcome::Reload
        }
    }
}

/// No backlog replay: a subscriber never receives a publish made before it
/// subscribed.
pub proof fn lemma_no_backlog_replay(sub: BusSubscriber, bus: &ReloadBus, i: int)
    requires
        sub.inv(bus),
        0 <= i < sub.got@.len(),
    ensures
        sub.got@[i] > sub.start@,
{
}

/// Exactly-once delivery while keeping up: a subscriber that never lagged
/// and has drained the bus has received every publish made after it
/// subscribed — one event per publish, in publish order.
pub proof fn lemma_exactly_once_delivery(sub: BusSubscriber, bus: &ReloadBus)
    requires
        sub.inv(bus),
        !sub.lagged@,
        sub.cursor == bus.epoch,
    ensures
        sub.got@.len() == bus.epoch - sub.start@,
        forall|i: int| 0 <= i < sub.got@.len() ==> sub.got@[i] == sub.start@ + i + 1,
{
}

/// What the socket loop does with one receive outcome: forward exactly one
/// text frame per received reload, tolerate lagging (events are
/// idempotent), wait when nothing is new, and end the connection when the
/// session's publisher is gone.
pub enum SocketAction {
    /// Send one text frame holding exactly this text — always the reload
    /// token.
    SendText(String),
    /// Keep the connection and wait for the next outcome.
    KeepWaiting,
    /// End the connection loop.
    Disconnect,
}

/// The socket loop's decision for one receive outcome.
pub fn socket_step(outcome: &RecvOutcome) -> (a: SocketAction)
    ensures
        outcome is Reload ==> (a matches SocketAction::SendText(t) && t@ == crate::RELOAD_TOKEN@),
        (outcome is Lagged || outcome is Pending) ==> a is KeepWaiting,
        outcome is Closed ==> a is Disconnect,
{
    match outcome {
        RecvOutcome::Reload => SocketAction::SendText(String::from_str(crate::RELOAD_TOKEN)),
        RecvOutcome::Lagged(_) => SocketAction::KeepWaiting,
        RecvOutcome::Pending => SocketAction::KeepWaiting,
        RecvOutcome::Closed => SocketAction::Disconnect,
    }
}

} // verus!
