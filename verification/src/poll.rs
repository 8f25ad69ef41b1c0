//! A request to an actor that is driven forward by polling instead of
//! blocking.

use crate::channel::{create_channel, try_recv_value, try_send_value, ActorReceiver, ActorSender, RecvAttempt, SendAttempt};
use crate::message::{request_message, ActorError, ActorMessage};
use vstd::prelude::*;

verus! {

/// What one poll of a promise did.
#[derive(Debug, Clone, Copy, PartialEq, Eq, Structural)]
pub enum ActorRefPollInfo {
    /// The request went into the actor's mailbox.
    RequestSent,
    /// The actor's mailbox was full; the request is kept for the next poll.
    RequestQueueFull,
    /// The request is with the actor; no response yet.
    ResponseQueueEmpty,
    /// The response has arrived.
    Complete,
}

/// Where a promise stands.
pub enum PollPhase {
    /// The request has not left yet.
    Start,
    /// The request is in the actor's mailbox or being served.
    RequestSent,
    /// Nothing more will happen; every further poll gives this result.
    End(Result<ActorRefPollInfo, ActorError>),
}

/// The abstract state of a promise: its phase, the request it still holds,
/// and the response it received.
pub struct PromiseView<Req, Res> {
    pub phase: PollPhase,
    pub request: Option<Req>,
    pub response: Option<Res>,
}

#[verifier::reject_recursive_types(Res)]
enum ActorRefPollState<Res> {
    Start,
    RequestSent(ActorReceiver<Res>),
    End(Result<ActorRefPollInfo, ActorError>),
}

/// A request to an actor together with the channel on which its response
/// comes back. Each call of `poll_once` moves it one step, without blocking.
#[verifier::reject_recursive_types(Req)]
#[verifier::reject_recursive_types(Res)]
pub struct ActorRefPollPromise<Req, Res> {
    req: Option<Req>,
    channel: Option<(ActorSender<Res>, ActorReceiver<Res>)>,
    res: Option<Res>,
    tx: ActorSender<ActorMessage<Req, Res>>,
    state: ActorRefPollState<Res>,
}

/// The results with which a promise can end: completion or an error.
pub open spec fn is_final_result(r: Result<ActorRefPollInfo, ActorError>) -> bool {
    r == Ok::<ActorRefPollInfo, ActorError>(ActorRefPollInfo::Complete) || r is Err
}

/// The views that promises can have.
pub open spec fn valid_view<Req, Res>(v: PromiseView<Req, Res>) -> bool {
    match v.phase {
        PollPhase::Start => v.request is Some && v.response is None,
        PollPhase::RequestSent => v.request is None && v.response is None,
        PollPhase::End(r) => {
            &&& is_final_result(r)
            &&& v.request is None
            &&& (v.response is Some <==> r == Ok::<ActorRefPollInfo, ActorError>(ActorRefPollInfo::Complete))
        },
    }
}

/// The promise as it is when a request has just been made.
pub open spec fn fresh_view<Req, Res>(req: Req) -> PromiseView<Req, Res> {
    PromiseView { phase: PollPhase::Start, request: Some(req), response: None }
}

/// The promise after it ended with `r`, having received `response`.
pub open spec fn ended_view<Req, Res>(
    r: Result<ActorRefPollInfo, ActorError>,
    response: Option<Res>,
) -> PromiseView<Req, Res> {
    PromiseView { phase: PollPhase::End(r), request: None, response }
}

/// The steps one poll can take from `pre` to `post`, returning `r`.
///
/// A request that has not left is sent, kept when the mailbox is full, or
/// dropped when the actor is gone. A sent request either still waits, gets
/// its response, or learns that the response will never come. An ended
/// promise stays as it is and repeats its result.
pub open spec fn poll_step<Req, Res>(
    pre: PromiseView<Req, Res>,
    post: PromiseView<Req, Res>,
    r: Result<ActorRefPollInfo, ActorError>,
) -> bool {
    match pre.phase {
        PollPhase::Start => {
            ||| r == Ok::<ActorRefPollInfo, ActorError>(ActorRefPollInfo::RequestSent)
                && post == PromiseView::<Req, Res> { phase: PollPhase::RequestSent, request: None, response: None }
            ||| r == Ok::<ActorRefPollInfo, ActorError>(ActorRefPollInfo::RequestQueueFull) && post == pre
            ||| r == Err::<ActorRefPollInfo, ActorError>(ActorError::ActorShutdown)
                && post == ended_view::<Req, Res>(r, None)
        },
        PollPhase::RequestSent => {
            ||| r == Ok::<ActorRefPollInfo, ActorError>(ActorRefPollInfo::ResponseQueueEmpty) && post == pre
            ||| r == Ok::<ActorRefPollInfo, ActorError>(ActorRefPollInfo::Complete)
                && post.phase == PollPhase::End(r) && post.request is None && post.response is Some
            ||| r == Err::<ActorRefPollInfo, ActorError>(ActorError::ActorInternalError)
                && post == ended_view::<Req, Res>(r, None)
        },
        PollPhase::End(e) => is_final_result(e) && r == e && post == pre,
    }
}

/// How far a promise has got: it only ever moves forward.
pub open spec fn phase_rank(p: PollPhase) -> int {
    match p {
        PollPhase::Start => 0,
        PollPhase::RequestSent => 1,
        PollPhase::End(_) => 2,
    }
}

/// A run of polls: `views[i]` is the promise before poll `i`, `results[i]`
/// what that poll returned, and `views[i + 1]` the promise after it.
pub open spec fn poll_run<Req, Res>(
    views: Seq<PromiseView<Req, Res>>,
    results: Seq<Result<ActorRefPollInfo, ActorError>>,
) -> bool {
    &&& views.len() == results.len() + 1
    &&& forall|i: int| 0 <= i < results.len() ==> poll_step(views[i], views[i + 1], #[trigger] results[i])
}

/// Polling keeps a promise's view valid.
pub proof fn lemma_poll_keeps_valid<Req, Res>(
    pre: PromiseView<Req, Res>,
    post: PromiseView<Req, Res>,
    r: Result<ActorRefPollInfo, ActorError>,
)
    requires
        valid_view(pre),
        poll_step(pre, post, r),
    ensures
        valid_view(post),
{
}

/// A poll never moves a promise back.
pub proof fn lemma_poll_moves_forward<Req, Res>(
    pre: PromiseView<Req, Res>,
    post: PromiseView<Req, Res>,
    r: Result<ActorRefPollInfo, ActorError>,
)
    requires
        poll_step(pre, post, r),
    ensures
        phase_rank(pre.phase) <= phase_rank(post.phase),
{
}

/// The poll that ends a promise returns the result that the promise keeps.
pub proof fn lemma_ending_poll_returns_kept_result<Req, Res>(
    pre: PromiseView<Req, Res>,
    post: PromiseView<Req, Res>,
    r: Result<ActorRefPollInfo, ActorError>,
)
    requires
        poll_step(pre, post, r),
        post.phase is End,
    ensures
        post.phase == PollPhase::End(r),
{
}

/// A poll that reports a full mailbox or a missing response leaves the
/// promise as it was, request included, so the next poll tries again.
pub proof fn lemma_waiting_poll_changes_nothing<Req, Res>(
    pre: PromiseView<Req, Res>,
    post: PromiseView<Req, Res>,
    r: Result<ActorRefPollInfo, ActorError>,
)
    requires
        poll_step(pre, post, r),
        r == Ok::<ActorRefPollInfo, ActorError>(ActorRefPollInfo::RequestQueueFull)
            || r == Ok::<ActorRefPollInfo, ActorError>(ActorRefPollInfo::ResponseQueueEmpty),
    ensures
        post == pre,
{
}

/// A closed mailbox is reported only for a request that has not left, and a
/// lost response only for one that has.
pub proof fn lemma_error_tells_where_it_failed<Req, Res>(
    pre: PromiseView<Req, Res>,
    post: PromiseView<Req, Res>,
    r: Result<ActorRefPollInfo, ActorError>,
)
    requires
        poll_step(pre, post, r),
        pre.phase !is End,
    ensures
        r == Err::<ActorRefPollInfo, ActorError>(ActorError::ActorShutdown) ==> pre.phase is Start,
        r == Err::<ActorRefPollInfo, ActorError>(ActorError::ActorInternalError) ==> pre.phase is RequestSent,
{
}

/// Along a run of polls, a promise never moves back.
pub proof fn lemma_run_moves_forward<Req, Res>(
    views: Seq<PromiseView<Req, Res>>,
    results: Seq<Result<ActorRefPollInfo, ActorError>>,
    i: int,
    j: int,
)
    requires
        poll_run(views, results),
        0 <= i <= j < views.len(),
    ensures
        phase_rank(views[i].phase) <= phase_rank(views[j].phase),
    decreases j - i,
{
    if i < j {
        lemma_run_moves_forward(views, results, i, j - 1);
        assert(poll_step(views[j - 1], views[j], results[j - 1]));
    }
}

/// Once a promise has ended, every later poll returns the result it ended
/// with and leaves it unchanged.
pub proof fn lemma_ended_promise_repeats_its_result<Req, Res>(
    views: Seq<PromiseView<Req, Res>>,
    results: Seq<Result<ActorRefPollInfo, ActorError>>,
    i: int,
    j: int,
)
    requires
        poll_run(views, results),
        0 <= i <= j < results.len(),
        views[i].phase is End,
    ensures
        views[j] == views[i],
        results[j] == views[i].phase->End_0,
    decreases j - i,
{
    if i < j {
        lemma_ended_promise_repeats_its_result(views, results, i, j - 1);
        assert(poll_step(views[j - 1], views[j], results[j - 1]));
    }
    assert(poll_step(views[j], views[j + 1], results[j]));
}

/// Along a run of polls, the request is sent at most once.
pub proof fn lemma_request_sent_at_most_once<Req, Res>(
    views: Seq<PromiseView<Req, Res>>,
    results: Seq<Result<ActorRefPollInfo, ActorError>>,
    i: int,
    j: int,
)
    requires
        poll_run(views, results),
        0 <= i < results.len(),
        0 <= j < results.len(),
        results[i] == Ok::<ActorRefPollInfo, ActorError>(ActorRefPollInfo::RequestSent),
        results[j] == Ok::<ActorRefPollInfo, ActorError>(ActorRefPollInfo::RequestSent),
    ensures
        i == j,
{
    assert(poll_step(views[i], views[i + 1], results[i]));
    assert(poll_step(views[j], views[j + 1], results[j]));
    if i < j {
        lemma_run_moves_forward(views, results, i + 1, j);
    } else if j < i {
        lemma_run_moves_forward(views, results, j + 1, i);
    }
}

/// The phase a promise moves to when a poll in phase `phase` returns `r`;
/// `None` when no poll in that phase returns `r`.
pub open spec fn phase_after(phase: PollPhase, r: Result<ActorRefPollInfo, ActorError>) -> Option<PollPhase> {
    match phase {
        PollPhase::Start => {
            if r == Ok::<ActorRefPollInfo, ActorError>(ActorRefPollInfo::RequestQueueFull) {
                Some(PollPhase::Start)
            } else if r == Ok::<ActorRefPollInfo, ActorError>(ActorRefPollInfo::RequestSent) {
                Some(PollPhase::RequestSent)
            } else if r == Err::<ActorRefPollInfo, ActorError>(ActorError::ActorShutdown) {
                Some(PollPhase::End(r))
            } else {
                None
            }
        },
        PollPhase::RequestSent => {
            if r == Ok::<ActorRefPollInfo, ActorError>(ActorRefPollInfo::ResponseQueueEmpty) {
                Some(PollPhase::RequestSent)
            } else if r == Ok::<ActorRefPollInfo, ActorError>(ActorRefPollInfo::Complete)
                || r == Err::<ActorRefPollInfo, ActorError>(ActorError::ActorInternalError) {
                Some(PollPhase::End(r))
            } else {
                None
            }
        },
        PollPhase::End(e) => if r == e { Some(phase) } else { None },
    }
}

/// Whether `results` is a sequence of poll results that a promise in phase
/// `phase` can give, one poll after the other. From a fresh promise these
/// are: `RequestQueueFull` any number of times, then either `ActorShutdown`
/// for ever, or `RequestSent` once, `ResponseQueueEmpty` any number of
/// times, then `Complete` for ever or `ActorInternalError` for ever (or a
/// prefix of such a sequence).
pub open spec fn results_follow(phase: PollPhase, results: Seq<Result<ActorRefPollInfo, ActorError>>) -> bool
    decreases results.len(),
{
    if results.len() == 0 {
        true
    } else {
        match phase_after(phase, results[0]) {
            Some(next) => results_follow(next, results.drop_first()),
            None => false,
        }
    }
}

/// The results of any run of polls follow the pattern of `results_follow`
/// from the phase the promise started in; for a fresh promise, from `Start`.
pub proof fn lemma_run_results_follow_pattern<Req, Res>(
    views: Seq<PromiseView<Req, Res>>,
    results: Seq<Result<ActorRefPollInfo, ActorError>>,
)
    requires
        poll_run(views, results),
    ensures
        results_follow(views[0].phase, results),
    decreases results.len(),
{
    if results.len() > 0 {
        assert(poll_step(views[0], views[1], results[0]));
        assert(phase_after(views[0].phase, results[0]) == Some(views[1].phase));
        let vs = views.drop_first();
        let rs = results.drop_first();
        assert forall|i: int| 0 <= i < rs.len() implies poll_step(vs[i], vs[i + 1], #[trigger] rs[i]) by {
            assert(poll_step(views[i + 1], views[i + 2], results[i + 1]));
        }
        lemma_run_results_follow_pattern(vs, rs);
    }
}

/// The phase that a promise in phase `phase` reaches after polls that
/// returned `results`, one after the other; `None` when no promise in that
/// phase gives these results.
pub open spec fn phase_after_run(phase: PollPhase, results: Seq<Result<ActorRefPollInfo, ActorError>>) -> Option<PollPhase>
    decreases results.len(),
{
    if results.len() == 0 {
        Some(phase)
    } else {
        match phase_after(phase, results[0]) {
            Some(next) => phase_after_run(next, results.drop_first()),
            None => None,
        }
    }
}

proof fn lemma_follow_is_reachable(phase: PollPhase, results: Seq<Result<ActorRefPollInfo, ActorError>>)
    ensures
        results_follow(phase, results) == phase_after_run(phase, results) is Some,
    decreases results.len(),
{
    if results.len() > 0 {
        if let Some(next) = phase_after(phase, results[0]) {
            lemma_follow_is_reachable(next, results.drop_first());
        }
    }
}

proof fn lemma_phase_after_run_push(
    phase: PollPhase,
    results: Seq<Result<ActorRefPollInfo, ActorError>>,
    r: Result<ActorRefPollInfo, ActorError>,
)
    ensures
        phase_after_run(phase, results.push(r)) == match phase_after_run(phase, results) {
            Some(q) => phase_after(q, r),
            None => None,
        },
    decreases results.len(),
{
    let pushed = results.push(r);
    if results.len() == 0 {
        assert(pushed.drop_first() =~= Seq::<Result<ActorRefPollInfo, ActorError>>::empty());
        reveal_with_fuel(phase_after_run, 2);
    } else {
        assert(pushed[0] == results[0]);
        assert(pushed.drop_first() =~= results.drop_first().push(r));
        if let Some(next) = phase_after(phase, results[0]) {
            lemma_phase_after_run_push(next, results.drop_first(), r);
        }
    }
}

/// One more poll keeps the pattern: when the results of the polls so far
/// follow the pattern from `start` and lead to the phase the promise is in,
/// the result of the next poll extends them, and the promise is then in the
/// phase that the longer sequence leads to.
pub proof fn lemma_poll_extends_pattern<Req, Res>(
    start: PollPhase,
    results: Seq<Result<ActorRefPollInfo, ActorError>>,
    pre: PromiseView<Req, Res>,
    post: PromiseView<Req, Res>,
    r: Result<ActorRefPollInfo, ActorError>,
)
    requires
        phase_after_run(start, results) == Some(pre.phase),
        poll_step(pre, post, r),
    ensures
        results_follow(start, results.push(r)),
        phase_after_run(start, results.push(r)) == Some(post.phase),
{
    lemma_phase_after_run_push(start, results, r);
    lemma_follow_is_reachable(start, results.push(r));
}

/// What a send attempt from a fresh promise comes to.
pub open spec fn send_attempt_result<T>(a: SendAttempt<T>) -> Result<ActorRefPollInfo, ActorError> {
    match a {
        SendAttempt::Sent => Ok(ActorRefPollInfo::RequestSent),
        SendAttempt::Full(_) => Ok(ActorRefPollInfo::RequestQueueFull),
        SendAttempt::Disconnected(_) => Err(ActorError::ActorShutdown),
    }
}

/// What a receive attempt on the reply channel comes to.
pub open spec fn recv_attempt_result<T>(a: RecvAttempt<T>) -> Result<ActorRefPollInfo, ActorError> {
    match a {
        RecvAttempt::Received(_) => Ok(ActorRefPollInfo::Complete),
        RecvAttempt::Empty => Ok(ActorRefPollInfo::ResponseQueueEmpty),
        RecvAttempt::Disconnected => Err(ActorError::ActorInternalError),
    }
}

/// The result of a poll that tried to send the request.
pub fn send_attempt_info<T>(a: &SendAttempt<T>) -> (r: Result<ActorRefPollInfo, ActorError>)
    ensures
        r == send_attempt_result(*a),
{
    match a {
        SendAttempt::Sent => Ok(ActorRefPollInfo::RequestSent),
        SendAttempt::Full(_) => Ok(ActorRefPollInfo::RequestQueueFull),
        SendAttempt::Disconnected(_) => Err(ActorError::ActorShutdown),
    }
}

/// The result of a poll that looked for the response.
pub fn recv_attempt_info<T>(a: &RecvAttempt<T>) -> (r: Result<ActorRefPollInfo, ActorError>)
    ensures
        r == recv_attempt_result(*a),
{
    match a {
        RecvAttempt::Received(_) => Ok(ActorRefPollInfo::Complete),
        RecvAttempt::Empty => Ok(ActorRefPollInfo::ResponseQueueEmpty),
        RecvAttempt::Disconnected => Err(ActorError::ActorInternalError),
    }
}

impl<Req, Res> View for ActorRefPollPromise<Req, Res> {
    type V = PromiseView<Req, Res>;

    closed spec fn view(&self) -> PromiseView<Req, Res> {
        PromiseView {
            phase: match self.state {
                ActorRefPollState::Start => PollPhase::Start,
                ActorRefPollState::RequestSent(_) => PollPhase::RequestSent,
                ActorRefPollState::End(r) => PollPhase::End(r),
            },
            request: self.req,
            response: self.res,
        }
    }
}

impl<Req, Res> ActorRefPollPromise<Req, Res> {
    /// The promise's inner consistency: the fields it holds in each phase.
    pub closed spec fn wf(&self) -> bool {
        &&& valid_view(self@)
        &&& match self.state {
            ActorRefPollState::Start => self.channel is Some,
            _ => self.channel is None,
        }
    }

    /// A well-formed promise has a valid view: it holds its request exactly
    /// until the request leaves, and its response exactly once it completed.
    pub proof fn lemma_wf_view_is_valid(&self)
        requires
            self.wf(),
        ensures
            valid_view(self@),
    {
    }

    /// The mailbox of the actor that the request goes to.
    pub closed spec fn mailbox(&self) -> ActorSender<ActorMessage<Req, Res>> {
        self.tx
    }

    /// A promise for `req`, to be sent on `tx`. Nothing is sent yet.
    pub fn new(req: Req, tx: ActorSender<ActorMessage<Req, Res>>) -> (p: Self)
        ensures
            p.wf(),
            p@ == fresh_view::<Req, Res>(req),
            p.mailbox() == tx,
    {
        ActorRefPollPromise {
            req: Some(req),
            channel: Some(create_channel(1)),
            res: None,
            tx,
            state: ActorRefPollState::Start,
        }
    }

    /// Whether the promise has ended: every further poll repeats its result.
    pub fn has_ended(&self) -> (b: bool)
        ensures
            b == self@.phase is End,
    {
        match self.state {
            ActorRefPollState::End(_) => true,
            _ => false,
        }
    }

    /// The response, once it has arrived.
    pub fn get(&self) -> (r: Option<&Res>)
        ensures
            r is Some <==> self@.response is Some,
            r is Some ==> *r->0 == self@.response->0,
    {
        self.res.as_ref()
    }

    /// The response, once it has arrived, to be changed in place.
    pub fn get_mut(&mut self) -> (r: Option<&mut Res>)
        ensures
            match old(self)@.response {
                None => r is None && *final(self) == *old(self),
                Some(v) => {
                    &&& r is Some
                    &&& *r->0 == v
                    &&& final(self)@ == PromiseView { response: Some(*final(r->0)), ..old(self)@ }
                    &&& final(self).mailbox() == old(self).mailbox()
                },
            },
            old(self).wf() ==> final(self).wf(),
    {
        self.res.as_mut()
    }

    /// The response, once it has arrived, taking the promise apart.
    pub fn take(self) -> (r: Option<Res>)
        ensures
            r == self@.response,
    {
        self.res
    }

    /// Moves the request one step without blocking: sends it if it has not
    /// left, or looks for its response if it has. Once the promise has ended,
    /// each poll returns the result it ended with and changes nothing.
    pub fn poll_once(&mut self) -> (r: Result<ActorRefPollInfo, ActorError>)
        requires
            old(self).wf(),
        ensures
            final(self).wf(),
            poll_step(old(self)@, final(self)@, r),
            final(self).mailbox() == old(self).mailbox(),
            final(self)@ == old(self)@ ==> *final(self) == *old(self),
    {
        match &self.state {
            ActorRefPollState::Start => {
                let (tx, rx) = self.channel.take().unwrap();
                let req = self.req.take().unwrap();
                let attempt = try_send_value(&self.tx, request_message(req, tx));
                self.settle_send(attempt, rx)
            },
            ActorRefPollState::RequestSent(rx) => {
                let attempt = try_recv_value(rx);
                self.apply_recv_attempt(attempt)
            },
            ActorRefPollState::End(reason) => *reason,
        }
    }

    /// Takes in what the attempt to send the request came to, the request
    /// and its reply sender having gone into the message: a sent request
    /// waits for its response; a full mailbox gives back the request and
    /// the reply sender, kept for the next poll; a closed mailbox ends the
    /// promise with `ActorShutdown`.
    fn settle_send(
        &mut self,
        attempt: SendAttempt<ActorMessage<Req, Res>>,
        reply_rx: ActorReceiver<Res>,
    ) -> (r: Result<ActorRefPollInfo, ActorError>)
        requires
            old(self).state matches ActorRefPollState::Start,
            old(self).req is None,
            old(self).channel is None,
            old(self).res is None,
            !(attempt matches SendAttempt::Full(ActorMessage::Shutdown)),
        ensures
            r == send_attempt_result(attempt),
            final(self).wf(),
            final(self).tx == old(self).tx,
            match attempt {
                SendAttempt::Sent => final(self)@ == PromiseView::<Req, Res> {
                    phase: PollPhase::RequestSent,
                    request: None,
                    response: None,
                },
                SendAttempt::Full(ActorMessage::User((q, t))) => *final(self) == (ActorRefPollPromise {
                    req: Some(q),
                    channel: Some((t, reply_rx)),
                    ..*old(self)
                }),
                SendAttempt::Disconnected(_) => final(self)@ == ended_view::<Req, Res>(
                    Err(ActorError::ActorShutdown),
                    None,
                ),
                SendAttempt::Full(ActorMessage::Shutdown) => false,
            },
    {
        let result = send_attempt_info(&attempt);
        match attempt {
            SendAttempt::Sent => {
                self.state = ActorRefPollState::RequestSent(reply_rx);
            },
            SendAttempt::Full(ActorMessage::User((r, t))) => {
                self.req = Some(r);
                self.channel = Some((t, reply_rx));
            },
            SendAttempt::Full(ActorMessage::Shutdown) => {
                proof {
                    assert(false);
                }
            },
            SendAttempt::Disconnected(_) => {
                self.state = ActorRefPollState::End(result);
            },
        }
        result
    }

    /// Takes in what looking for the response came to: a response completes
    /// the promise and is kept; nothing yet leaves the promise as it was; a
    /// closed reply channel ends the promise with `ActorInternalError`.
    pub fn apply_recv_attempt(&mut self, attempt: RecvAttempt<Res>) -> (r: Result<ActorRefPollInfo, ActorError>)
        requires
            old(self).wf(),
            old(self)@.phase is RequestSent,
        ensures
            r == recv_attempt_result(attempt),
            final(self).wf(),
            final(self).mailbox() == old(self).mailbox(),
            match attempt {
                RecvAttempt::Received(v) => final(self)@ == ended_view::<Req, Res>(
                    Ok(ActorRefPollInfo::Complete),
                    Some(v),
                ),
                RecvAttempt::Empty => *final(self) == *old(self),
                RecvAttempt::Disconnected => final(self)@ == ended_view::<Req, Res>(
                    Err(ActorError::ActorInternalError),
                    None,
                ),
            },
    {
        let result = recv_attempt_info(&attempt);
        match attempt {
            RecvAttempt::Received(data) => {
                self.res = Some(data);
                self.state = ActorRefPollState::End(result);
            },
            RecvAttempt::Empty => {},
            RecvAttempt::Disconnected => {
                self.state = ActorRefPollState::End(result);
            },
        }
        result
    }
}

} // verus!
