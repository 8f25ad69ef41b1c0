//! The handle through which callers send requests to an actor.

use crate::channel::{clone_sender, create_channel, recv_value, send_value, ActorSender};
use crate::message::{request_message, ActorError, ActorMessage};
use crate::poll::{fresh_view, ActorRefPollPromise};
use vstd::prelude::*;

verus! {

/// A handle to an actor's mailbox. Cloned handles reach the same actor.
#[derive(Debug)]
#[verifier::reject_recursive_types(Req)]
#[verifier::reject_recursive_types(Res)]
pub struct ActorRef<Req, Res> {
    tx: ActorSender<ActorMessage<Req, Res>>,
}

/// What a blocking request answers, given the reply that came back on its
/// reply channel (`None` when the channel closed without one).
pub open spec fn reply_result<Res>(reply: Option<Res>) -> Result<Res, ActorError> {
    match reply {
        Some(v) => Ok(v),
        None => Err(ActorError::ActorInternalError),
    }
}

/// The answer to a blocking request whose message reached the actor, given
/// what came back on the reply channel.
pub fn reply_outcome<Res>(reply: Option<Res>) -> (r: Result<Res, ActorError>)
    ensures
        r == reply_result(reply),
{
    match reply {
        Some(v) => Ok(v),
        None => Err(ActorError::ActorInternalError),
    }
}

/// What a blocking request answers, given whether its message went into the
/// mailbox (`Err` when the mailbox was closed) and the reply that came back.
pub open spec fn block_result<M, Res>(sent: Result<(), M>, reply: Option<Res>) -> Result<Res, ActorError> {
    match sent {
        Err(_) => Err(ActorError::ActorShutdown),
        Ok(()) => reply_result(reply),
    }
}

/// The answer to a blocking request: `ActorShutdown` when its message could
/// not go into the mailbox, otherwise what the reply says.
pub fn block_outcome<M, Res>(sent: Result<(), M>, reply: Option<Res>) -> (r: Result<Res, ActorError>)
    ensures
        r == block_result(sent, reply),
{
    match sent {
        Err(_) => Err(ActorError::ActorShutdown),
        Ok(()) => reply_outcome(reply),
    }
}

impl<Req, Res> Clone for ActorRef<Req, Res> {
    fn clone(&self) -> (r: Self)
        ensures
            r.mailbox() == self.mailbox(),
    {
        Self::new(clone_sender(&self.tx))
    }
}

impl<Req, Res> ActorRef<Req, Res> {
    /// The mailbox this handle sends to.
    pub closed spec fn mailbox(&self) -> ActorSender<ActorMessage<Req, Res>> {
        self.tx
    }

    /// A handle that sends to `tx`.
    pub fn new(tx: ActorSender<ActorMessage<Req, Res>>) -> (r: Self)
        ensures
            r.mailbox() == tx,
    {
        ActorRef { tx }
    }

    /// Sends `req` and waits for the response.
    ///
    /// The message is `request_message(req, reply)` with a fresh reply
    /// channel, and the answer is `block_outcome` of what sending and waiting
    /// came to: `ActorShutdown` when the mailbox is closed, and
    /// `ActorInternalError` when the request was taken but no response came.
    /// Which of these happens is decided by other threads, so the function
    /// itself states nothing of its result.
    pub fn block(&self, req: Req) -> Result<Res, ActorError>
    {
        let (tx, rx) = create_channel(1);
        let sent = send_value(&self.tx, request_message(req, tx));
        let reply = match sent {
            Ok(()) => recv_value(&rx),
            Err(_) => None,
        };
        block_outcome(sent, reply)
    }

    /// A promise for `req` on this handle's mailbox, to be driven by polling.
    pub fn as_poll(&self, req: Req) -> (p: ActorRefPollPromise<Req, Res>)
        ensures
            p.wf(),
            p@ == fresh_view::<Req, Res>(req),
            p.mailbox() == self.mailbox(),
    {
        ActorRefPollPromise::new(req, clone_sender(&self.tx))
    }
}

} // verus!
