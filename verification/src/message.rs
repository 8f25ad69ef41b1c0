//! What travels between an actor and its callers.

use crate::channel::ActorSender;
use vstd::prelude::*;

verus! {

/// The behaviour of an actor: it turns each request into a response.
///
/// Users implement this trait. `handles` is the implementor's own account
/// of what `handle` does; nothing else is assumed of it. An implementor that
/// gives no account keeps the default, which allows every outcome.
pub trait ActorHandler<Req, Res>: Sized {
    /// Whether serving `request` in this state may answer `response` and
    /// leave the handler in state `after`.
    open spec fn handles(&self, request: Req, response: Res, after: Self) -> bool {
        true
    }

    fn handle(&mut self, request: Req) -> (response: Res)
        ensures
            old(self).handles(request, response, *final(self)),
    ;
}

/// Why a request got no response.
#[derive(Debug, Clone, Copy, PartialEq, Eq, Structural)]
pub enum ActorError {
    /// The actor's mailbox is closed: the actor has shut down.
    ActorShutdown,
    /// The request was taken, but the reply channel closed without an answer
    /// (the actor's handler failed while serving it).
    ActorInternalError,
}

/// The text that describes an error: the name of its variant.
pub open spec fn error_text(e: ActorError) -> Seq<char> {
    match e {
        ActorError::ActorShutdown => "ActorShutdown"@,
        ActorError::ActorInternalError => "ActorInternalError"@,
    }
}

impl ActorError {
    /// The name of the error's variant, as its `Debug` form writes it.
    pub fn to_string(&self) -> (s: String)
        ensures
            s@ == error_text(*self),
    {
        match self {
            ActorError::ActorShutdown => String::from_str("ActorShutdown"),
            ActorError::ActorInternalError => String::from_str("ActorInternalError"),
        }
    }
}

/// A message in an actor's mailbox.
#[verifier::reject_recursive_types(Res)]
pub enum ActorMessage<Req, Res> {
    /// A request, with the channel on which its response is to be sent.
    User((Req, ActorSender<Res>)),
    /// Asks the actor to stop.
    Shutdown,
}

/// The message that carries `req` to the actor, with the channel on which
/// its response is to come back.
pub fn request_message<Req, Res>(req: Req, reply: ActorSender<Res>) -> (m: ActorMessage<Req, Res>)
    ensures
        m == ActorMessage::User((req, reply)),
{
    ActorMessage::User((req, reply))
}

} // verus!
