use vstd::prelude::*;

verus! {

use crate::room_command::RoomCommand;

/// What one receive attempt on the broadcast endpoint yields.
#[derive(Clone, Debug)]
pub enum RecvOutcome {
    /// The next envelope, in publication order.
    Message(RoomCommand),
    /// The subscriber fell more than `capacity` envelopes behind; the
    /// missed ones are gone and its cursor now points at the oldest
    /// envelope still retained.
    Lagged,
    /// Nothing published past this subscriber's cursor yet.
    Empty,
}

/// One subscriber's position in a room's broadcast history.
pub struct Subscriber {
    next: usize,
}

impl Subscriber {
    /// The index into the broadcast history of the next envelope this
    /// subscriber will receive.
    pub closed spec fn pos(&self) -> nat {
        self.next as nat
    }
}

/// The room's one-to-many broadcast endpoint: every current subscriber
/// receives every envelope published after it subscribed, except that a
/// subscriber that falls more than `capacity` envelopes behind loses the
/// oldest ones (lag is acceptable; the room is never held back by a slow
/// reader). The view is the full publication history, in order.
pub struct BroadcastQueue {
    log: Vec<RoomCommand>,
    capacity: usize,
}

impl View for BroadcastQueue {
    type V = Seq<RoomCommand>;

    closed spec fn view(&self) -> Seq<RoomCommand> {
        self.log@
    }
}

impl BroadcastQueue {
    /// How far a subscriber may fall behind before it starts losing
    /// envelopes.
    pub closed spec fn capacity(&self) -> nat {
        self.capacity as nat
    }

    pub fn new(capacity: usize) -> (r: BroadcastQueue)
        requires
            capacity >= 1,
        ensures
            r@ == Seq::<RoomCommand>::empty(),
            r.capacity() == capacity,
    {
        BroadcastQueue { log: Vec::new(), capacity }
    }

    /// Append one envelope to the history; it will be seen, in order, by
    /// every subscriber that keeps up.
    pub fn publish(&mut self, cmd: RoomCommand)
        ensures
            final(self)@ == old(self)@.push(cmd),
            final(self).capacity() == old(self).capacity(),
    {
        self.log.push(cmd);
    }

    /// A new subscriber starts at the current end of the history: it
    /// receives exactly the envelopes published after it subscribed.
    pub fn subscribe(&self) -> (s: Subscriber)
        ensures
            s.pos() == self@.len(),
    {
        Subscriber { next: self.log.len() }
    }

    /// One receive attempt for `sub`: the next envelope if the subscriber
    /// is keeping up, a lag notice (repositioning it to the oldest
    /// retained envelope) if it fell too far behind, or nothing if it has
    /// seen the whole history.
    pub fn recv(&self, sub: &mut Subscriber) -> (r: RecvOutcome)
        requires
            old(sub).pos() <= self@.len(),
        ensures
            final(sub).pos() <= self@.len(),
            old(sub).pos() == self@.len() ==> ((r matches RecvOutcome::Empty)
                && final(sub).pos() == old(sub).pos()),
            old(sub).pos() < self@.len() && self@.len() - old(sub).pos() <= self.capacity() ==> (
            r == RecvOutcome::Message(self@[old(sub).pos() as int]) && final(sub).pos() == old(
                sub,
            ).pos() + 1),
            self@.len() - old(sub).pos() > self.capacity() ==> ((r matches RecvOutcome::Lagged)
                && final(sub).pos() == self@.len() - self.capacity()),
    {
        let n = self.log.len();
        if sub.next == n {
            RecvOutcome::Empty
        } else if n - sub.next <= self.capacity {
            let cmd = self.log[sub.next].duplicate();
            sub.next = sub.next + 1;
            RecvOutcome::Message(cmd)
        } else {
            sub.next = n - self.capacity;
            RecvOutcome::Lagged
        }
    }

    /// Receive until the history is exhausted, for a subscriber that has
    /// not lagged: it obtains exactly the envelopes published since its
    /// cursor, in publication order, with none missing, duplicated or
    /// reordered.
    pub fn drain(&self, sub: &mut Subscriber) -> (msgs: Vec<RoomCommand>)
        requires
            old(sub).pos() <= self@.len(),
            self@.len() - old(sub).pos() <= self.capacity(),
        ensures
            msgs@ == self@.subrange(old(sub).pos() as int, self@.len() as int),
            final(sub).pos() == self@.len(),
    {
        let ghost start = sub.pos();
        let mut msgs: Vec<RoomCommand> = Vec::new();
        loop
            invariant
                start == old(sub).pos(),
                start <= sub.pos() <= self@.len(),
                self@.len() - sub.pos() <= self.capacity(),
                msgs@ == self@.subrange(start as int, sub.pos() as int),
            decreases self@.len() - sub.pos(),
        {
            let ghost p = sub.pos();
            match self.recv(sub) {
                RecvOutcome::Message(cmd) => {
                    msgs.push(cmd);
                    proof {
                        assert(self@.subrange(start as int, p as int + 1) =~= self@.subrange(
                            start as int,
                            p as int,
                        ).push(self@[p as int]));
                    }
                },
                RecvOutcome::Lagged => {
                    proof {
                        assert(false);
                    }
                },
                RecvOutcome::Empty => {
                    return msgs;
                },
            }
        }
    }
}

/// In-order fan-out: for a subscriber that keeps up, the `k`-th envelope
/// it receives after position `from` is exactly the `from + k`-th envelope
/// published to the room. With `publish` appending each accepted `Send` in
/// the order the room actor drains them, every non-lagging subscriber
/// observes the room's messages in exactly their submission order.
pub proof fn lemma_delivery_in_submission_order(log: Seq<RoomCommand>, from: int, k: int)
    requires
        0 <= from <= log.len(),
        0 <= k < log.len() - from,
    ensures
        log.subrange(from, log.len() as int)[k] == log[from + k],
{
}

/// The fan-out law in one piece: a subscriber that entered when the
/// history stood at `log0` and has kept up receives, by `drain`'s
/// contract, the subrange past its cursor — and when the room has since
/// published exactly the submitted commands `cmds`, in submission order,
/// that subrange is exactly `cmds`: nothing missing, nothing reordered.
pub proof fn lemma_subscriber_observes_submissions(
    log0: Seq<RoomCommand>,
    cmds: Seq<RoomCommand>,
)
    ensures
        (log0 + cmds).subrange(log0.len() as int, (log0 + cmds).len() as int) =~= cmds,
{
}

} // verus!
