//! The work an actor does with each message in its mailbox.

use crate::channel::{recv_value, send_value, ActorReceiver};
use crate::message::{ActorHandler, ActorMessage};
use vstd::prelude::*;

verus! {

/// An actor: a handler that serves the messages of one mailbox in turn.
pub struct Actor;

/// What an actor does after looking at its mailbox.
#[derive(Debug, Clone, Copy, PartialEq, Eq, Structural)]
pub enum ActorStep {
    /// A request was served; the actor waits for the next message.
    Continue,
    /// A shutdown message came; the actor stops.
    Stop,
    /// Every sender of the mailbox is gone; no message will come.
    Closed,
}

/// What an actor does after handling `message`.
pub open spec fn step_after<Req, Res>(message: ActorMessage<Req, Res>) -> ActorStep {
    match message {
        ActorMessage::User(_) => ActorStep::Continue,
        ActorMessage::Shutdown => ActorStep::Stop,
    }
}

impl Actor {
    /// Serves one message: a request goes to the handler and its response
    /// back on the request's reply channel (a reply nobody waits for any
    /// more is dropped); a shutdown message asks the actor to stop.
    pub fn handle_message<Req, Res, H: ActorHandler<Req, Res>>(
        handler: &mut H,
        message: ActorMessage<Req, Res>,
    ) -> (step: ActorStep)
        ensures
            step == step_after(message),
            message is Shutdown ==> *final(handler) == *old(handler),
            message matches ActorMessage::User((req, _)) ==> exists|res: Res|
                #[trigger] old(handler).handles(req, res, *final(handler)),
    {
        match message {
            ActorMessage::User((req, reply)) => {
                let res = handler.handle(req);
                assert(old(handler).handles(req, res, *handler));
                let _ = send_value(&reply, res);
                ActorStep::Continue
            },
            ActorMessage::Shutdown => ActorStep::Stop,
        }
    }

    /// Waits for the next message in `inbox` and serves it. Returns `Closed`
    /// when the mailbox has no sender left.
    pub fn serve_next<Req, Res, H: ActorHandler<Req, Res>>(
        handler: &mut H,
        inbox: &ActorReceiver<ActorMessage<Req, Res>>,
    ) -> (step: ActorStep)
        ensures
            (step == ActorStep::Closed || step == ActorStep::Stop) ==> *final(handler) == *old(handler),
            step == ActorStep::Continue ==> exists|req: Req, res: Res|
                #[trigger] old(handler).handles(req, res, *final(handler)),
    {
        Self::serve_received(handler, recv_value(inbox))
    }

    /// Serves what a wait on the mailbox gave: a message is handled as
    /// `handle_message` does; nothing (every sender gone) gives `Closed`
    /// and leaves the handler as it was.
    pub fn serve_received<Req, Res, H: ActorHandler<Req, Res>>(
        handler: &mut H,
        received: Option<ActorMessage<Req, Res>>,
    ) -> (step: ActorStep)
        ensures
            step == match received {
                None => ActorStep::Closed,
                Some(m) => step_after(m),
            },
            received is None ==> *final(handler) == *old(handler),
            received matches Some(ActorMessage::Shutdown) ==> *final(handler) == *old(handler),
            received matches Some(ActorMessage::User((req, _))) ==> exists|res: Res|
                #[trigger] old(handler).handles(req, res, *final(handler)),
    {
        match received {
            Some(message) => Self::handle_message(handler, message),
            None => ActorStep::Closed,
        }
    }
}

/// Whether every thread in `finished` has finished: true when none is
/// still running (and for an empty list).
pub fn all_finished(finished: &Vec<bool>) -> (r: bool)
    ensures
        r == (forall|i: int| 0 <= i < finished.len() ==> finished[i]),
{
    let mut i: usize = 0;
    while i < finished.len()
        invariant
            0 <= i <= finished.len(),
            forall|k: int| 0 <= k < i ==> finished[k],
        decreases finished.len() - i,
    {
        if !finished[i] {
            return false;
        }
        i = i + 1;
    }
    true
}

} // verus!
