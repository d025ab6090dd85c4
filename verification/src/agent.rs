//! The agent core: delivery errors, cloneable sender handles, and the agent
//! value that binds a mailbox's producer side to the handle of the worker
//! task draining it.

use vstd::prelude::*;
use tokio::sync::mpsc::UnboundedReceiver;
use tokio::sync::mpsc::UnboundedSender;
use tokio::task::JoinHandle;

mod channel;
pub mod builder;
pub mod grace;
pub mod id;
pub mod model;

use crate::agent::id::AgentId;

verus! {

/// Error returned when trying to send a message to an agent that has been
/// terminated. Returns the message that couldn't be sent.
#[derive(Debug, PartialEq, Eq, Clone, Copy)]
pub struct SendError<M>(pub M);

/// A channel to send messages to an agent. Cloneable; every clone enqueues
/// into the same mailbox. Each handle carries the label its mailbox was
/// opened under, so contracts can say which mailbox a handle feeds.
#[derive(Debug)]
#[verifier::reject_recursive_types(M)]
pub struct Sender<M> {
    chan: UnboundedSender<M>,
    mailbox_id: u64,
}

impl<M> Clone for Sender<M> {
    /// The clone is one more producer handle onto the same mailbox, and
    /// carries the same label; no bound on the message type is needed.
    fn clone(&self) -> (r: Self)
        ensures
            r.mailbox_id() == self.mailbox_id(),
    {
        Sender { chan: self.chan.clone(), mailbox_id: self.mailbox_id }
    }
}

impl<M> Sender<M> {
    /// The label of the mailbox this handle feeds, fixed when the mailbox
    /// was opened and carried unchanged by every clone.
    pub closed spec fn mailbox_id(&self) -> u64 {
        self.mailbox_id
    }

    /// Send a message to the agent. Fails once the agent's worker has
    /// stopped consuming, handing the undelivered message back unchanged.
    pub fn send(&self, message: M) -> (r: Result<(), SendError<M>>)
        ensures
            r matches Err(e) ==> e.0 == message,
    {
        channel::enqueue(&self.chan, message)
    }
}

/// Creates a fresh, empty mailbox under the caller's label: a sender
/// handle that carries that label and the consuming end that exactly one
/// worker is to drain.
pub fn open_mailbox<M>(mailbox_id: u64) -> (r: (Sender<M>, UnboundedReceiver<M>))
    ensures
        r.0.mailbox_id() == mailbox_id,
{
    let (tx, rx) = tokio::sync::mpsc::unbounded_channel();
    (Sender { chan: tx, mailbox_id }, rx)
}

/// A handle to an agent.
#[derive(Debug)]
#[verifier::reject_recursive_types(M)]
#[verifier::reject_recursive_types(E)]
pub struct Agent<M, E> {
    /// Unique identifier for the agent.
    pub id: AgentId,

    /// A user-friendly name for the agent.
    pub name: Option<String>,

    /// A channel to send messages to the agent.
    sender: Sender<M>,

    /// A handle to the agent's worker loop.
    handle: JoinHandle<Result<(), E>>,
}

impl<M, E> Agent<M, E> {
    /// The identifier this agent was created with.
    pub closed spec fn spec_id(&self) -> AgentId {
        self.id
    }

    /// The display name this agent was created with.
    pub closed spec fn spec_name(&self) -> Option<String> {
        self.name
    }

    /// The label of the mailbox this agent owns: the one on the producer
    /// handle it was built from.
    pub closed spec fn spec_mailbox_id(&self) -> u64 {
        self.sender.mailbox_id()
    }

    /// Binds a running agent together from its parts: the identity, the
    /// mailbox's producer side, and the handle of the worker task that
    /// drains the consuming end. The agent keeps the given producer side,
    /// so the handles it issues feed the mailbox it was built on.
    pub fn from_parts(
        id: AgentId,
        name: Option<String>,
        sender: Sender<M>,
        handle: JoinHandle<Result<(), E>>,
    ) -> (agent: Agent<M, E>)
        ensures
            agent.spec_id() == id,
            agent.spec_name() == name,
            agent.spec_mailbox_id() == sender.mailbox_id(),
    {
        Agent { id, name, sender, handle }
    }

    /// Send a message to the agent. Fails once the agent's worker has
    /// stopped consuming, handing the undelivered message back unchanged.
    pub fn send(&self, message: M) -> (r: Result<(), SendError<M>>)
        ensures
            r matches Err(e) ==> e.0 == message,
    {
        self.sender.send(message)
    }

    /// Returns a sender that can be used to send messages to the agent:
    /// a handle onto this agent's own mailbox.
    pub fn sender(&self) -> (r: Sender<M>)
        ensures
            r.mailbox_id() == self.spec_mailbox_id(),
    {
        self.sender.clone()
    }

    /// Aborts the agent's event loop immediately without waiting for it to
    /// finish. Messages still queued are lost.
    pub fn abort(self) {
        self.handle.abort();
    }

    /// The first half of graceful termination: drops the producer handle
    /// owned by the agent, so the mailbox closes once every cloned sender
    /// is gone too, and fixes the grace period from the override value read
    /// for this call. The caller waits out the grace period and then
    /// cancels what is left of the worker.
    pub fn begin_terminate(self, grace_override: Option<String>) -> (shutdown: Shutdown<E>)
        ensures
            shutdown.spec_grace_seconds() == grace::grace_of(grace_override),
    {
        let Agent { id: _, name: _, sender: _, handle } = self;
        Shutdown { handle, grace_seconds: grace::grace_period_seconds(grace_override) }
    }
}

/// The second half of graceful termination: the agent's own producer handle
/// is already gone, and the worker runs on while the caller waits out the
/// grace period before cancelling it.
#[verifier::reject_recursive_types(E)]
pub struct Shutdown<E> {
    handle: JoinHandle<Result<(), E>>,
    grace_seconds: u64,
}

impl<E> Shutdown<E> {
    /// The number of seconds of grace the worker was granted.
    pub closed spec fn spec_grace_seconds(&self) -> u64 {
        self.grace_seconds
    }

    /// The grace period, for the caller that waits it out.
    pub fn grace_seconds(&self) -> (r: u64)
        ensures
            r == self.spec_grace_seconds(),
    {
        self.grace_seconds
    }

    /// Forcibly cancels the worker task. Messages still queued at this
    /// point are never processed and are lost.
    pub fn cancel(self) {
        self.handle.abort();
    }
}

/// One observation made while an agent's worker loop runs.
#[derive(Debug, PartialEq, Eq)]
pub enum WorkerEvent<M, E> {
    /// The mailbox handed out the next message.
    Delivered(M),
    /// The handler finished the message it was given.
    HandlerDone(Result<(), E>),
    /// Every producer handle is gone and the mailbox is drained.
    MailboxClosed,
}

/// What the worker loop is to do next.
#[derive(Debug, PartialEq, Eq)]
pub enum WorkerStep<M, E> {
    /// Invoke the handler on this message and await its completion before
    /// touching the mailbox again.
    RunHandler(M),
    /// Block until the mailbox yields again.
    AwaitNext,
    /// Exit normally: the mailbox is closed and drained.
    ExitOk,
    /// Exit at once, carrying the handler's error; queued messages are
    /// never processed.
    ExitErr(E),
}

/// The decision at the head of the worker loop: messages are handled one at
/// a time in arrival order; closure ends the loop normally; a handler error
/// ends it at once and is fatal to the agent.
pub fn worker_decide<M, E>(event: WorkerEvent<M, E>) -> (step: WorkerStep<M, E>)
    ensures
        event matches WorkerEvent::Delivered(m) ==> step == WorkerStep::<M, E>::RunHandler(m),
        event matches WorkerEvent::HandlerDone(r) ==> (r matches Err(e) ==> step
            == WorkerStep::<M, E>::ExitErr(e)) && (r is Ok ==> step
            == WorkerStep::<M, E>::AwaitNext),
        event is MailboxClosed ==> step == WorkerStep::<M, E>::ExitOk,
{
    match event {
        WorkerEvent::Delivered(m) => WorkerStep::RunHandler(m),
        WorkerEvent::HandlerDone(r) => match r {
            Ok(()) => WorkerStep::AwaitNext,
            Err(e) => WorkerStep::ExitErr(e),
        },
        WorkerEvent::MailboxClosed => WorkerStep::ExitOk,
    }
}

} // verus!
