# threaded_actor

Actors that run on their own threads and answer typed requests.

- `src/` is the verified library: the messages and errors (`message`), the
  channel halves and the trusted calls into `std::sync::mpsc` (`channel`),
  the blocking handle (`actor_ref`), the non-blocking promise and its
  state machine with the laws proved about it (`poll`), the work an actor
  does with each message (`actor`), the code generated for an actor's
  impl block (`codegen`), and the whole expansion of the `threaded_actor`
  attribute from the block's text, parsed with `syn` (`expand`).
- `app/` starts actors on threads, holds the guard and the pool, gives the
  error its `Display`, and holds `threaded_actor`, a function on token
  streams that a proc-macro crate can call as the attribute's body (it
  hands the block's text to the library's `expand`).
- `tests/` drives the library on one thread: the actor side of a mailbox is
  served by the test itself.
