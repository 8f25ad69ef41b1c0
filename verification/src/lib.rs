//! Actors that run on their own threads and answer typed requests.
//!
//! A caller reaches an actor through an [`ActorRef`]: [`ActorRef::block`]
//! sends a request and waits for the response, while
//! [`ActorRef::as_poll`] gives an [`ActorRefPollPromise`] that is driven
//! forward without blocking. The actor side serves its mailbox one message
//! at a time with [`Actor::serve_next`].

pub mod actor;
pub mod actor_ref;
pub mod channel;
pub mod codegen;
pub mod expand;
pub mod message;
pub mod poll;

pub use actor::{all_finished, Actor, ActorStep};
pub use actor_ref::{block_outcome, reply_outcome, ActorRef};
pub use channel::{create_channel, ActorReceiver, ActorSender, RecvAttempt, SendAttempt};
pub use codegen::{actor_code, ActorImpl, ActorMethod, MethodArg};
pub use expand::{actor_impl_of, expand, expand_parsed, ExpandError, ParsedArg, ParsedImpl, ParsedItem};
pub use message::{request_message, ActorError, ActorHandler, ActorMessage};
pub use poll::{
    recv_attempt_info, send_attempt_info, ActorRefPollInfo, ActorRefPollPromise, PollPhase,
    PromiseView,
};
