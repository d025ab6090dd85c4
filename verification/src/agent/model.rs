//! An abstract model of one agent's lifecycle: the mailbox as an ordered
//! sequence, the handler's observations, and the moment the worker stops
//! consuming. The laws proved here are what the runtime's delivery and
//! shutdown contracts promise: per-handle FIFO delivery with nothing lost
//! or repeated while the worker drains, delivery errors that return the
//! message unchanged once it has stopped, and silence ever after.
//!
//! Timing is abstracted into event order: a drain that completes before
//! the worker stops is a termination whose grace period was not exceeded,
//! and a stop with messages still pending is an abort or an expired grace
//! period.

use vstd::prelude::*;
use crate::agent::SendError;

verus! {

/// The abstract state of one agent: what its mailbox holds, what its
/// handler has observed, and whether the worker still consumes.
pub ghost struct Lifecycle<M> {
    /// Messages accepted into the mailbox and not yet handed over, oldest
    /// first.
    pub pending: Seq<M>,
    /// Messages the handler has observed, in the order it observed them.
    pub handled: Seq<M>,
    /// Whether the worker still consumes the mailbox. It becomes false
    /// when the worker exits — normally or on a handler error — or is
    /// cancelled, and never becomes true again.
    pub live: bool,
}

impl<M> Lifecycle<M> {
    /// A freshly spawned agent: empty mailbox, nothing handled yet, worker
    /// consuming.
    pub open spec fn spawned() -> Lifecycle<M> {
        Lifecycle { pending: Seq::empty(), handled: Seq::empty(), live: true }
    }

    /// A send through any handle onto this agent's mailbox: accepted in
    /// admission order while the worker consumes; once it has stopped, the
    /// very message comes back inside the delivery error and the state is
    /// unchanged.
    pub open spec fn offer(self, m: M) -> (Lifecycle<M>, Result<(), SendError<M>>) {
        if self.live {
            (Lifecycle { pending: self.pending.push(m), ..self }, Ok(()))
        } else {
            (self, Err(SendError(m)))
        }
    }

    /// The worker takes the oldest pending message and hands it to the
    /// handler; meaningful only while it consumes and something is pending.
    pub open spec fn deliver(self) -> Lifecycle<M>
        recommends
            self.live,
            self.pending.len() > 0,
    {
        Lifecycle {
            pending: self.pending.drop_first(),
            handled: self.handled.push(self.pending[0]),
            ..self
        }
    }

    /// The worker stops consuming: it exited normally, its handler failed,
    /// or it was cancelled by abort or at the end of the grace period.
    pub open spec fn stop(self) -> Lifecycle<M> {
        Lifecycle { live: false, ..self }
    }

    /// The worker hands over every pending message in order, as it does
    /// when a closing mailbox is emptied within the grace period.
    pub open spec fn drain(self) -> Lifecycle<M>
        decreases self.pending.len(),
    {
        if self.pending.len() == 0 || !self.live {
            self
        } else {
            self.deliver().drain()
        }
    }

    /// A sequence of sends arriving in the order given.
    pub open spec fn offer_all(self, msgs: Seq<M>) -> Lifecycle<M>
        decreases msgs.len(),
    {
        if msgs.len() == 0 {
            self
        } else {
            self.offer(msgs[0]).0.offer_all(msgs.drop_first())
        }
    }
}

/// While the worker consumes, every offered message is accepted, and the
/// mailbox queues them behind what was already pending, in admission order.
pub proof fn lemma_offers_accepted<M>(s: Lifecycle<M>, msgs: Seq<M>)
    requires
        s.live,
    ensures
        s.offer_all(msgs) == (Lifecycle { pending: s.pending + msgs, ..s }),
    decreases msgs.len(),
{
    if msgs.len() == 0 {
        assert(s.pending + msgs =~= s.pending);
    } else {
        let s1 = s.offer(msgs[0]).0;
        lemma_offers_accepted(s1, msgs.drop_first());
        assert(s.pending.push(msgs[0]) + msgs.drop_first() =~= s.pending + msgs);
    }
}

/// A drain hands every pending message to the handler, appending them to
/// what was handled before in mailbox order; nothing is lost or repeated.
pub proof fn lemma_drain_handles_all_in_order<M>(s: Lifecycle<M>)
    requires
        s.live,
    ensures
        s.drain() == (Lifecycle { pending: Seq::empty(), handled: s.handled + s.pending, ..s }),
    decreases s.pending.len(),
{
    if s.pending.len() == 0 {
        assert(s.handled + s.pending =~= s.handled);
        assert(s.pending =~= Seq::<M>::empty());
    } else {
        let s1 = s.deliver();
        lemma_drain_handles_all_in_order(s1);
        assert(s.handled.push(s.pending[0]) + s.pending.drop_first() =~= s.handled + s.pending);
    }
}

/// For any sequence of messages sent to a freshly spawned agent through a
/// single handle and drained before the worker stops — as graceful
/// termination does when the grace period is not exceeded — the handler
/// observes exactly those messages, in send order, each exactly once.
pub proof fn fifo_exactly_once<M>(msgs: Seq<M>)
    ensures
        Lifecycle::<M>::spawned().offer_all(msgs).drain().handled == msgs,
        Lifecycle::<M>::spawned().offer_all(msgs).drain().pending.len() == 0,
{
    let s = Lifecycle::<M>::spawned();
    lemma_offers_accepted(s, msgs);
    let u = s.offer_all(msgs);
    assert(u.pending =~= msgs);
    lemma_drain_handles_all_in_order(u);
    assert(u.handled + u.pending =~= msgs);
}

/// Sending on a handle whose agent has been aborted or has finished
/// terminating always yields a delivery error carrying the original
/// message back unchanged, and changes nothing.
pub proof fn rejected_send_returns_message<M>(s: Lifecycle<M>, m: M)
    requires
        !s.live,
    ensures
        s.offer(m) == (s, Err::<(), SendError<M>>(SendError(m))),
{
}

/// Once the worker stops — aborted, failed, or cancelled at the end of
/// the grace period — no later sends and no draining hand anything more
/// to the handler: a message still pending at the stop is never observed.
pub proof fn stopped_observes_nothing<M>(s: Lifecycle<M>, msgs: Seq<M>)
    ensures
        s.stop().offer_all(msgs) == s.stop(),
        s.stop().drain() == s.stop(),
    decreases msgs.len(),
{
    if msgs.len() > 0 {
        let t = s.stop().offer(msgs[0]).0;
        assert(t == s.stop());
        assert(t.stop() == t);
        stopped_observes_nothing(t, msgs.drop_first());
    }
}

/// However concurrent sends from many cloned handles interleave into one
/// admission order, a drain before the worker stops observes every message
/// exactly once: none lost, none duplicated; only the relative order
/// across handles is left to the admission order itself.
pub proof fn interleaved_sends_none_lost<M>(interleaved: Seq<M>)
    ensures
        Lifecycle::<M>::spawned().offer_all(interleaved).drain().handled.to_multiset()
            == interleaved.to_multiset(),
{
    fifo_exactly_once::<M>(interleaved);
}

/// Two agents, the first forwarding every message it handles to the
/// second: a message sent to the first and handled by both reaches the
/// second's handler exactly as it was sent.
pub proof fn forwarded_message_arrives_intact<M>(m: M)
    ensures
        ({
            let a = Lifecycle::<M>::spawned().offer(m).0.deliver();
            let b = Lifecycle::<M>::spawned().offer(a.handled.last()).0.deliver();
            b.handled =~= seq![m]
        }),
{
    let a = Lifecycle::<M>::spawned().offer(m).0.deliver();
    assert(a.handled.last() == m);
}

} // verus!
