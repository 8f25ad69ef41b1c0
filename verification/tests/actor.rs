use threaded_actor::{
    create_channel, Actor, ActorError, ActorHandler, ActorMessage, ActorReceiver, ActorRef,
    ActorSender, ActorStep,
};

struct Ping;

impl ActorHandler<(), ()> for Ping {
    fn handle(&mut self, _request: ()) -> () {}
}

struct Counter {
    total: u64,
}

impl ActorHandler<u64, u64> for Counter {
    fn handle(&mut self, request: u64) -> u64 {
        self.total += request;
        self.total
    }
}

/// The actor side of a mailbox, served on the test's own thread: `pump`
/// serves the messages that are waiting, as the actor's thread would.
struct Mailbox<Req, Res, H> {
    inbox: Option<ActorReceiver<ActorMessage<Req, Res>>>,
    handler: H,
}

impl<Req, Res, H: ActorHandler<Req, Res>> Mailbox<Req, Res, H> {
    fn pump(&mut self) {
        while let Some(rx) = &self.inbox {
            match rx.try_recv() {
                Ok(message) => {
                    if Actor::handle_message(&mut self.handler, message) == ActorStep::Stop {
                        self.inbox = None;
                    }
                }
                Err(_) => break,
            }
        }
    }
}

/// Sends the shutdown message and lets the actor side see it, as dropping
/// the guard of a running actor does.
struct DropGuard<Req, Res, H: ActorHandler<Req, Res>> {
    mailbox: ActorSender<ActorMessage<Req, Res>>,
    actor: Mailbox<Req, Res, H>,
}

impl<Req, Res, H: ActorHandler<Req, Res>> Drop for DropGuard<Req, Res, H> {
    fn drop(&mut self) {
        self.actor.pump();
        let _ = self.mailbox.send(ActorMessage::Shutdown);
        self.actor.pump();
    }
}

fn create<Req, Res, H: ActorHandler<Req, Res>>(
    bound: usize,
    handler: H,
) -> (ActorRef<Req, Res>, DropGuard<Req, Res, H>) {
    let (tx, rx) = create_channel::<ActorMessage<Req, Res>>(bound);
    let actor = Mailbox { inbox: Some(rx), handler };
    (ActorRef::new(tx.clone()), DropGuard { mailbox: tx, actor })
}

#[test]
fn actor_test_actor_send_after_shutdown_with_blocking() {
    let (actor_ref, actor_drop_guard) = create(1, Ping);

    drop(actor_drop_guard);

    let result = actor_ref.block(());
    assert!(result.is_err());
    assert!(matches!(result.err().unwrap(), ActorError::ActorShutdown));
}

#[test]
fn actor_test_actor_bad_user_actor_drop() {
    let (actor_ref, actor_drop_guard) = create(1, Ping);

    drop(actor_ref);

    drop(actor_drop_guard);
}

#[test]
fn block_on_closed_mailbox_is_shutdown() {
    let (tx, rx) = create_channel::<ActorMessage<u64, u64>>(1);
    drop(rx);
    let actor_ref = ActorRef::new(tx);
    assert_eq!(actor_ref.block(3), Err(ActorError::ActorShutdown));
}

#[test]
fn handle_message_serves_a_request() {
    let mut counter = Counter { total: 10 };
    let (reply_tx, reply_rx) = create_channel::<u64>(1);
    let step = Actor::handle_message(&mut counter, ActorMessage::User((4, reply_tx)));
    assert_eq!(step, ActorStep::Continue);
    assert_eq!(reply_rx.recv().unwrap(), 14);
    assert_eq!(counter.total, 14);
}

#[test]
fn handle_message_stops_on_shutdown() {
    let mut counter = Counter { total: 10 };
    let step = Actor::handle_message(&mut counter, ActorMessage::<u64, u64>::Shutdown);
    assert_eq!(step, ActorStep::Stop);
    assert_eq!(counter.total, 10);
}

#[test]
fn handle_message_ignores_a_reply_nobody_waits_for() {
    let mut counter = Counter { total: 0 };
    let (reply_tx, reply_rx) = create_channel::<u64>(1);
    drop(reply_rx);
    let step = Actor::handle_message(&mut counter, ActorMessage::User((2, reply_tx)));
    assert_eq!(step, ActorStep::Continue);
    assert_eq!(counter.total, 2);
}

#[test]
fn serve_next_reports_closed_mailbox() {
    let (tx, rx) = create_channel::<ActorMessage<u64, u64>>(1);
    drop(tx);
    let mut counter = Counter { total: 0 };
    assert_eq!(Actor::serve_next(&mut counter, &rx), ActorStep::Closed);
}

#[test]
fn serve_next_serves_waiting_messages_in_order() {
    let (tx, rx) = create_channel::<ActorMessage<u64, u64>>(3);
    let (reply_tx, reply_rx) = create_channel::<u64>(2);
    tx.send(ActorMessage::User((1, reply_tx.clone()))).unwrap();
    tx.send(ActorMessage::User((2, reply_tx))).unwrap();
    tx.send(ActorMessage::Shutdown).unwrap();
    let mut counter = Counter { total: 0 };
    assert_eq!(Actor::serve_next(&mut counter, &rx), ActorStep::Continue);
    assert_eq!(Actor::serve_next(&mut counter, &rx), ActorStep::Continue);
    assert_eq!(Actor::serve_next(&mut counter, &rx), ActorStep::Stop);
    assert_eq!(reply_rx.recv().unwrap(), 1);
    assert_eq!(reply_rx.recv().unwrap(), 3);
}

#[test]
fn reply_outcome_maps_missing_reply_to_internal_error() {
    assert_eq!(threaded_actor::reply_outcome(Some(9u64)), Ok(9));
    assert_eq!(threaded_actor::reply_outcome::<u64>(None), Err(ActorError::ActorInternalError));
}

#[test]
fn error_text_names_the_variant() {
    assert_eq!(ActorError::ActorShutdown.to_string(), "ActorShutdown");
    assert_eq!(ActorError::ActorInternalError.to_string(), "ActorInternalError");
}

#[test]
fn all_finished_needs_every_thread() {
    assert!(threaded_actor::all_finished(&vec![]));
    assert!(threaded_actor::all_finished(&vec![true, true]));
    assert!(!threaded_actor::all_finished(&vec![true, false, true]));
}

#[test]
fn block_outcome_maps_each_case() {
    assert_eq!(threaded_actor::block_outcome::<u8, u64>(Err(1), None), Err(ActorError::ActorShutdown));
    assert_eq!(threaded_actor::block_outcome::<u8, u64>(Err(1), Some(4)), Err(ActorError::ActorShutdown));
    assert_eq!(threaded_actor::block_outcome::<u8, u64>(Ok(()), Some(4)), Ok(4));
    assert_eq!(
        threaded_actor::block_outcome::<u8, u64>(Ok(()), None),
        Err(ActorError::ActorInternalError)
    );
}

#[test]
fn request_message_carries_the_request_and_its_reply_channel() {
    let (reply_tx, reply_rx) = create_channel::<u64>(1);
    match threaded_actor::request_message::<u64, u64>(7, reply_tx) {
        ActorMessage::User((req, reply)) => {
            assert_eq!(req, 7);
            reply.send(8).unwrap();
            assert_eq!(reply_rx.recv().unwrap(), 8);
        }
        ActorMessage::Shutdown => panic!("expected a request"),
    }
}

#[test]
fn serve_received_covers_each_case() {
    let mut counter = Counter { total: 1 };
    assert_eq!(Actor::serve_received::<u64, u64, Counter>(&mut counter, None), ActorStep::Closed);
    assert_eq!(Actor::serve_received(&mut counter, Some(ActorMessage::<u64, u64>::Shutdown)), ActorStep::Stop);
    let (reply_tx, reply_rx) = create_channel::<u64>(1);
    assert_eq!(
        Actor::serve_received(&mut counter, Some(ActorMessage::User((2, reply_tx)))),
        ActorStep::Continue
    );
    assert_eq!(reply_rx.recv().unwrap(), 3);
    assert_eq!(counter.total, 3);
}
