use threaded_actor::{
    create_channel, recv_attempt_info, send_attempt_info, Actor, ActorError, ActorHandler,
    ActorMessage, ActorReceiver, ActorRef, ActorRefPollInfo, ActorRefPollPromise, ActorSender,
    ActorStep,
    RecvAttempt, SendAttempt,
};

struct Ping;

impl ActorHandler<(), ()> for Ping {
    fn handle(&mut self, _request: ()) -> () {}
}

struct Double;

impl ActorHandler<u32, u32> for Double {
    fn handle(&mut self, request: u32) -> u32 {
        request * 2
    }
}

/// The actor side of a mailbox, served on the test's own thread.
struct Mailbox<Req, Res, H> {
    inbox: Option<ActorReceiver<ActorMessage<Req, Res>>>,
    handler: H,
}

impl<Req, Res, H: ActorHandler<Req, Res>> Mailbox<Req, Res, H> {
    /// Serves the messages that are waiting, as the actor's thread would.
    fn pump(&mut self) {
        while let Some(rx) = &self.inbox {
            match rx.try_recv() {
                Ok(message) => {
                    if Actor::handle_message(&mut self.handler, message) == ActorStep::Stop {
                        self.inbox = None;
                    }
                }
                Err(_) => break,
            }
        }
    }

    /// What a crashing actor thread leaves behind: the request it had taken
    /// and its mailbox are dropped, and no response is sent.
    fn crash(&mut self) {
        if let Some(rx) = self.inbox.take() {
            let taken = rx.try_recv();
            drop(taken);
        }
    }
}

/// Sends the shutdown message and lets the actor side see it.
struct DropGuard<Req, Res, H: ActorHandler<Req, Res>> {
    mailbox: ActorSender<ActorMessage<Req, Res>>,
    actor: Mailbox<Req, Res, H>,
}

impl<Req, Res, H: ActorHandler<Req, Res>> Drop for DropGuard<Req, Res, H> {
    fn drop(&mut self) {
        self.actor.pump();
        let _ = self.mailbox.send(ActorMessage::Shutdown);
        self.actor.pump();
    }
}

fn create<Req, Res, H: ActorHandler<Req, Res>>(
    bound: usize,
    handler: H,
) -> (ActorRef<Req, Res>, DropGuard<Req, Res, H>) {
    let (tx, rx) = create_channel::<ActorMessage<Req, Res>>(bound);
    let actor = Mailbox { inbox: Some(rx), handler };
    (ActorRef::new(tx.clone()), DropGuard { mailbox: tx, actor })
}

#[test]
fn actor_ref_poll_test_ping_poll() {
    let (actor_ref, mut actor_drop_guard) = create(2, Ping);

    let mut promise = actor_ref.as_poll(());
    assert!(promise.get().is_none());
    loop {
        let res = promise.poll_once();
        if matches!(res.unwrap(), ActorRefPollInfo::Complete) {
            break;
        }
        actor_drop_guard.actor.pump();
    }
    assert!(promise.get().is_some());
    assert!(promise.get_mut().is_some());
    assert!(promise.take().is_some());

    drop(actor_drop_guard);
}

#[test]
fn actor_ref_poll_test_actor_queue_full() {
    let (actor_ref, actor_drop_guard) = create(1, Ping);
    let actor_ref1 = actor_ref.clone();
    let actor_ref2 = actor_ref.clone();

    // Sends in queue
    let mut promise1 = actor_ref1.as_poll(());
    let res1 = promise1.poll_once();
    assert!(res1.is_ok());
    assert!(matches!(res1.unwrap(), ActorRefPollInfo::RequestSent));

    // Queue is full
    let mut promise2 = actor_ref2.as_poll(());
    let res2 = promise2.poll_once();
    assert!(res2.is_ok());
    assert!(matches!(res2.unwrap(), ActorRefPollInfo::RequestQueueFull));

    // Shutdown
    drop(actor_drop_guard);
}

#[test]
fn test_actor_poll_after_complete() {
    let (actor_ref, mut actor_drop_guard) = create(1, Ping);

    let mut promise = actor_ref.as_poll(());
    loop {
        let res = promise.poll_once();
        if matches!(res.unwrap(), ActorRefPollInfo::Complete) {
            break;
        }
        actor_drop_guard.actor.pump();
    }
    let res = promise.poll_once();
    assert!(res.is_ok());
    assert!(matches!(res.unwrap(), ActorRefPollInfo::Complete));
    assert!(promise.has_ended());

    // Shutdown
    drop(actor_drop_guard);
}

#[test]
fn actor_ref_poll_test_actor_send_after_shutdown_with_poll() {
    let (actor_ref, actor_drop_guard) = create(1, Ping);

    drop(actor_drop_guard);

    let mut promise = actor_ref.as_poll(());
    let result = promise.poll_once();
    assert!(result.is_err());
    assert!(matches!(result.err().unwrap(), ActorError::ActorShutdown));
}

#[test]
fn actor_ref_poll_test_actor_bad_behavior_with_poll() {
    let (actor_ref, mut actor_drop_guard) = create(1, Ping);

    let mut promise = actor_ref.as_poll(());
    loop {
        let result = promise.poll_once();
        if let Err(e) = result {
            assert!(matches!(e, ActorError::ActorInternalError));
            break;
        }
        actor_drop_guard.actor.crash();
    }

    drop(actor_drop_guard);
}

#[test]
fn poll_steps_through_one_request_without_threads() {
    let (tx, rx) = create_channel::<ActorMessage<u32, u32>>(1);
    let mut promise = ActorRefPollPromise::new(21, tx);
    assert!(!promise.has_ended());
    assert_eq!(promise.poll_once(), Ok(ActorRefPollInfo::RequestSent));
    assert_eq!(promise.poll_once(), Ok(ActorRefPollInfo::ResponseQueueEmpty));
    assert_eq!(promise.poll_once(), Ok(ActorRefPollInfo::ResponseQueueEmpty));
    assert!(promise.get().is_none());
    assert_eq!(Actor::serve_next(&mut Double, &rx), ActorStep::Continue);
    assert_eq!(promise.poll_once(), Ok(ActorRefPollInfo::Complete));
    assert!(promise.has_ended());
    assert_eq!(promise.get(), Some(&42));
    if let Some(v) = promise.get_mut() {
        *v += 1;
    }
    assert_eq!(promise.poll_once(), Ok(ActorRefPollInfo::Complete));
    assert_eq!(promise.take(), Some(43));
}

#[test]
fn full_mailbox_keeps_the_request_for_the_next_poll() {
    let (tx, rx) = create_channel::<ActorMessage<u32, u32>>(1);
    let actor_ref = ActorRef::new(tx);
    let mut first = actor_ref.as_poll(1);
    let mut second = actor_ref.as_poll(2);
    assert_eq!(first.poll_once(), Ok(ActorRefPollInfo::RequestSent));
    assert_eq!(second.poll_once(), Ok(ActorRefPollInfo::RequestQueueFull));
    assert_eq!(second.poll_once(), Ok(ActorRefPollInfo::RequestQueueFull));
    assert!(!second.has_ended());
    assert_eq!(Actor::serve_next(&mut Double, &rx), ActorStep::Continue);
    assert_eq!(second.poll_once(), Ok(ActorRefPollInfo::RequestSent));
    assert_eq!(Actor::serve_next(&mut Double, &rx), ActorStep::Continue);
    assert_eq!(first.poll_once(), Ok(ActorRefPollInfo::Complete));
    assert_eq!(second.poll_once(), Ok(ActorRefPollInfo::Complete));
    assert_eq!(first.take(), Some(2));
    assert_eq!(second.take(), Some(4));
}

#[test]
fn closed_mailbox_ends_the_promise_for_good() {
    let (tx, rx) = create_channel::<ActorMessage<u32, u32>>(1);
    drop(rx);
    let mut promise = ActorRefPollPromise::new(5, tx);
    assert_eq!(promise.poll_once(), Err(ActorError::ActorShutdown));
    assert!(promise.has_ended());
    assert_eq!(promise.poll_once(), Err(ActorError::ActorShutdown));
    assert_eq!(promise.poll_once(), Err(ActorError::ActorShutdown));
    assert!(promise.get().is_none());
    assert_eq!(promise.take(), None);
}

#[test]
fn lost_reply_ends_the_promise_with_internal_error() {
    let (tx, rx) = create_channel::<ActorMessage<u32, u32>>(1);
    let mut promise = ActorRefPollPromise::new(5, tx);
    assert_eq!(promise.poll_once(), Ok(ActorRefPollInfo::RequestSent));
    // The actor takes the request and drops it without answering.
    let message = rx.recv().unwrap();
    drop(message);
    assert_eq!(promise.poll_once(), Err(ActorError::ActorInternalError));
    assert_eq!(promise.poll_once(), Err(ActorError::ActorInternalError));
    assert!(promise.get().is_none());
}

#[test]
fn send_attempt_info_covers_each_outcome() {
    assert_eq!(send_attempt_info(&SendAttempt::<u8>::Sent), Ok(ActorRefPollInfo::RequestSent));
    assert_eq!(send_attempt_info(&SendAttempt::Full(1u8)), Ok(ActorRefPollInfo::RequestQueueFull));
    assert_eq!(send_attempt_info(&SendAttempt::Disconnected(1u8)), Err(ActorError::ActorShutdown));
}

#[test]
fn recv_attempt_info_covers_each_outcome() {
    assert_eq!(recv_attempt_info(&RecvAttempt::Received(3u8)), Ok(ActorRefPollInfo::Complete));
    assert_eq!(recv_attempt_info(&RecvAttempt::<u8>::Empty), Ok(ActorRefPollInfo::ResponseQueueEmpty));
    assert_eq!(recv_attempt_info(&RecvAttempt::<u8>::Disconnected), Err(ActorError::ActorInternalError));
}

#[test]
fn apply_recv_attempt_covers_each_case() {
    let (tx, _rx) = create_channel::<ActorMessage<u32, u32>>(1);
    let actor_ref = ActorRef::new(tx);

    let mut received = actor_ref.as_poll(1);
    assert_eq!(received.poll_once(), Ok(ActorRefPollInfo::RequestSent));
    assert_eq!(received.apply_recv_attempt(RecvAttempt::Received(9)), Ok(ActorRefPollInfo::Complete));
    assert!(received.has_ended());
    assert_eq!(received.poll_once(), Ok(ActorRefPollInfo::Complete));
    assert_eq!(received.take(), Some(9));
}

#[test]
fn apply_recv_attempt_empty_and_disconnected() {
    let (tx, rx) = create_channel::<ActorMessage<u32, u32>>(2);
    let mut waiting = ActorRefPollPromise::new(1, tx);
    assert_eq!(waiting.poll_once(), Ok(ActorRefPollInfo::RequestSent));
    assert_eq!(waiting.apply_recv_attempt(RecvAttempt::Empty), Ok(ActorRefPollInfo::ResponseQueueEmpty));
    assert!(!waiting.has_ended());
    assert_eq!(
        waiting.apply_recv_attempt(RecvAttempt::Disconnected),
        Err(ActorError::ActorInternalError)
    );
    assert!(waiting.has_ended());
    assert_eq!(waiting.poll_once(), Err(ActorError::ActorInternalError));
    assert!(waiting.get().is_none());
    drop(rx);
}
