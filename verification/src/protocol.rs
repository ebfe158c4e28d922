//! How the client, the thread that talks to mpv, and mpv itself work together.
//!
//! A session is a sequence of states. Each follows from the one before by a step of one of the
//! three: the client submits a request, announces the end, polls for the callbacks of mpv or finds
//! the thread gone, the thread takes in the next message, or mpv answers the request that it has
//! been handed. Events that are no answers change nothing.
use vstd::prelude::*;

use crate::advanced_client::ClientView;
use crate::client_api::{CoreEvent, EventKind};
use crate::omt_client::{OmtView, RequestView};
use crate::shared::MpvEvent;

verus! {

/// The state of a session.
pub struct Session {
    pub client: ClientView,
    /// How many of the messages that the client has sent have been taken in.
    pub taken: nat,
    /// Whether the end has been taken in.
    pub ended: bool,
    pub omt: OmtView,
    /// The requests that mpv has been handed, oldest first.
    pub started: Seq<RequestView>,
    /// The one among them that mpv has not answered yet.
    pub running: Option<RequestView>,
}

impl Session {
    /// The state at the start.
    pub open spec fn is_initial(self) -> bool {
        &&& self.client.next_id == 1
        &&& self.client.outstanding == Map::<u64, RequestView>::empty()
        &&& self.client.sent == Seq::<RequestView>::empty()
        &&& self.taken == 0
        &&& !self.ended
        &&& self.omt == (OmtView { queue: Seq::empty(), active: None })
        &&& self.started == Seq::<RequestView>::empty()
        &&& self.running is None
    }

    /// Whether `request` can be submitted: it bears the next number.
    pub open spec fn can_submit(self, request: RequestView) -> bool {
        &&& self.client.ids_left() >= 1
        &&& request.task_id() == Some(self.client.next_id)
    }

    /// The state after the client has submitted `request`.
    pub open spec fn submit(self, request: RequestView, delivered: bool) -> Session {
        Session { client: self.client.submit(request, delivered), ..self }
    }

    /// The state after the client has announced the end.
    pub open spec fn exit(self, delivered: bool) -> Session {
        Session { client: self.client.exit(delivered), ..self }
    }

    /// Whether there is a message to be taken in, and a loop that does so.
    pub open spec fn can_take_in(self) -> bool {
        !self.ended && self.taken < self.client.sent.len()
    }

    /// The message that is taken in next.
    pub open spec fn next_message(self) -> RequestView {
        self.client.sent[self.taken as int]
    }

    /// The state after the next message has been taken in, and a request handed to mpv if it
    /// lets one start.
    pub open spec fn take_in(self) -> Session {
        let msg = self.next_message();
        Session {
            client: self.client,
            taken: self.taken + 1,
            ended: msg is Exit,
            omt: self.omt.after(msg),
            started: match self.omt.starts(msg) {
                Some(task) => self.started.push(task),
                None => self.started,
            },
            running: match self.omt.starts(msg) {
                Some(task) => Some(task),
                None => self.running,
            },
        }
    }

    /// Whether `event` is an answer to the request that mpv works on.
    pub open spec fn can_answer(self, event: CoreEvent) -> bool {
        &&& event.kind() == EventKind::Reply || event.kind() == EventKind::PropertyReply
        &&& self.running is Some
        &&& self.running->0.task_id() == Some(event.reply_userdata)
    }

    /// The state after mpv has answered with `event`, and the client has taken that in.
    pub open spec fn answer(self, event: CoreEvent) -> Session {
        Session { client: self.client.after_event(event), running: None, ..self }
    }

    /// The state after the client has polled for the callbacks of mpv.
    pub open spec fn poll(self, event: Option<MpvEvent>) -> Session {
        Session { client: self.client.poll(event), ..self }
    }

    /// The state after the client has found the thread gone, as it could not send on that a request
    /// was answered.
    pub open spec fn find_gone(self) -> Session {
        Session { client: self.client.found_gone(), ..self }
    }

    /// Whether `next` follows from this state by a step.
    pub open spec fn leads_to(self, next: Session) -> bool {
        ||| exists|request: RequestView, delivered: bool|
            self.can_submit(request) && next == #[trigger] self.submit(request, delivered)
        ||| exists|delivered: bool| next == #[trigger] self.exit(delivered)
        ||| exists|event: Option<MpvEvent>| next == #[trigger] self.poll(event)
        ||| next == self.find_gone()
        ||| next == self
        ||| self.can_take_in() && next == self.take_in()
        ||| exists|event: CoreEvent| self.can_answer(event) && next == #[trigger] self.answer(event)
    }
}

/// Whether `states` are the states of a session, from its start on.
pub open spec fn is_session(states: Seq<Session>) -> bool {
    &&& states.len() > 0
    &&& states[0].is_initial()
    &&& forall|i: int|
        #![trigger states[i]]
        0 < i < states.len() ==> states[i - 1].leads_to(states[i])
}

/// The requests among `messages` that mpv is to work on, in order.
pub open spec fn tasks(messages: Seq<RequestView>) -> Seq<RequestView> {
    messages.filter(|m: RequestView| m.is_task())
}

/// The number of a task.
pub open spec fn number(task: RequestView) -> u64 {
    task.task_id()->0
}

proof fn tasks_of_push(messages: Seq<RequestView>, m: RequestView)
    ensures
        tasks(messages.push(m)) == (if m.is_task() {
            tasks(messages).push(m)
        } else {
            tasks(messages)
        }),
{
    reveal(Seq::filter);
    assert(messages.push(m).drop_last() =~= messages);
}

proof fn tasks_from(messages: Seq<RequestView>, k: int)
    requires
        0 <= k < messages.len(),
    ensures
        tasks(messages.skip(k)) == (if messages[k].is_task() {
            seq![messages[k]] + tasks(messages.skip(k + 1))
        } else {
            tasks(messages.skip(k + 1))
        }),
{
    let one = seq![messages[k]];
    let rest = messages.skip(k + 1);
    let pred = |m: RequestView| m.is_task();
    assert(messages.skip(k) =~= one + rest);
    Seq::filter_distributes_over_add(one, rest, pred);
    reveal_with_fuel(Seq::filter, 2);
    assert(one.drop_last() =~= Seq::<RequestView>::empty());
    assert(one.filter(pred) =~= (if messages[k].is_task() {
        one
    } else {
        Seq::empty()
    }));
    assert(tasks(messages.skip(k)) =~= one.filter(pred) + tasks(rest));
    assert(Seq::<RequestView>::empty() + tasks(rest) =~= tasks(rest));
}

impl Session {
    /// The tasks that have been submitted and sent, in order.
    pub open spec fn submitted(self) -> Seq<RequestView> {
        tasks(self.client.sent)
    }

    /// How many of the submitted tasks mpv has answered.
    pub open spec fn answered(self) -> int {
        if self.running is Some {
            self.started.len() - 1
        } else {
            self.started.len() as int
        }
    }

    /// What holds of the submitted tasks: they have been started, wait in the queue or are still
    /// in the channel, in that order; their numbers ascend; and those that mpv has not answered
    /// are outstanding.
    spec fn tasks_in_order(self) -> bool {
        let all = self.submitted();
        &&& all == self.started + self.omt.queue + tasks(self.client.sent.skip(self.taken as int))
        &&& forall|i: int| 0 <= i < all.len() ==> (#[trigger] all[i]).is_task()
        &&& forall|i: int, j: int|
            0 <= i < j < all.len() ==> number(#[trigger] all[i]) < number(#[trigger] all[j])
        &&& forall|i: int| 0 <= i < all.len() ==> number(#[trigger] all[i]) < self.client.next_id
        &&& forall|i: int|
            #![trigger all[i]]
            self.answered() <= i < all.len() ==> {
                &&& self.client.outstanding.contains_key(number(all[i]))
                &&& self.client.outstanding[number(all[i])] == all[i]
            }
        &&& self.running is Some ==> {
            &&& self.started.len() > 0
            &&& self.running->0 == self.started.last()
        }
    }

    /// What holds of the completions in the channel: there is at most one, it is that of the
    /// active request, and it is there exactly when mpv has answered that request.
    spec fn completions_match(self) -> bool {
        let sent = self.client.sent;
        &&& self.running is Some ==> self.omt.active == Some(number(self.running->0))
        &&& forall|i: int|
            #![trigger sent[i]]
            self.taken <= i < sent.len() ==> (sent[i] matches RequestView::Completed(id) ==> {
                &&& self.omt.active == Some(id)
                &&& self.running is None
            })
        &&& forall|i: int, j: int|
            self.taken <= i < j < sent.len() ==> !((#[trigger] sent[i]) is Completed && (
            #[trigger] sent[j]) is Completed)
        &&& self.omt.active is Some && self.running is None ==> exists|i: int|
            self.taken <= i < sent.len() && (#[trigger] sent[i]) is Completed
    }

    spec fn inv(self) -> bool {
        &&& self.client.wf()
        &&& self.omt.wf()
        &&& self.taken <= self.client.sent.len()
        &&& self.tasks_in_order()
        &&& self.completions_match()
    }

    proof fn invariant_initially(self)
        requires
            self.is_initial(),
        ensures
            self.inv(),
    {
        reveal(Seq::filter);
        assert(self.client.sent.skip(0) =~= Seq::<RequestView>::empty());
        assert(self.submitted() =~= self.started + self.omt.queue + tasks(
            self.client.sent.skip(self.taken as int),
        ));
    }

    proof fn invariant_after_submit(self, request: RequestView, delivered: bool)
        requires
            self.inv(),
            self.can_submit(request),
        ensures
            self.submit(request, delivered).inv(),
    {
        let next = self.submit(request, delivered);
        let sent = self.client.sent;
        let k = self.taken as int;
        if delivered {
            tasks_of_push(sent, request);
            tasks_of_push(sent.skip(k), request);
            assert(next.client.sent.skip(k) =~= sent.skip(k).push(request));
            assert(next.submitted() =~= next.started + next.omt.queue + tasks(
                next.client.sent.skip(k),
            ));
            if self.omt.active is Some && self.running is None {
                let i = choose|i: int| k <= i < sent.len() && (#[trigger] sent[i]) is Completed;
                assert(next.client.sent[i] is Completed);
            }
        }
    }

    proof fn invariant_after_exit(self, delivered: bool)
        requires
            self.inv(),
        ensures
            self.exit(delivered).inv(),
    {
        let next = self.exit(delivered);
        let sent = self.client.sent;
        let k = self.taken as int;
        if delivered {
            tasks_of_push(sent, RequestView::Exit);
            tasks_of_push(sent.skip(k), RequestView::Exit);
            assert(next.client.sent.skip(k) =~= sent.skip(k).push(RequestView::Exit));
            if self.omt.active is Some && self.running is None {
                let i = choose|i: int| k <= i < sent.len() && (#[trigger] sent[i]) is Completed;
                assert(next.client.sent[i] is Completed);
            }
        }
    }

    proof fn invariant_after_poll(self, event: Option<MpvEvent>)
        requires
            self.inv(),
        ensures
            self.poll(event).inv(),
    {
        assert(self.poll(event).submitted() == self.submitted());
    }

    proof fn invariant_after_find_gone(self)
        requires
            self.inv(),
        ensures
            self.find_gone().inv(),
    {
        assert(self.find_gone().submitted() == self.submitted());
    }

    proof fn invariant_after_take_in(self)
        requires
            self.inv(),
            self.can_take_in(),
        ensures
            self.take_in().inv(),
    {
        let next = self.take_in();
        let sent = self.client.sent;
        let k = self.taken as int;
        let msg = sent[k];
        let rest = tasks(sent.skip(k + 1));
        tasks_from(sent, k);
        let s = self.omt.taken_in(msg);
        assert(self.started + s.queue + rest =~= self.submitted());
        if self.omt.starts(msg) is Some {
            assert(next.started + next.omt.queue =~= self.started + s.queue);
            assert(s.queue[0].is_task());
        }
        assert(next.submitted() =~= next.started + next.omt.queue + rest);
    }

    proof fn invariant_after_answer(self, event: CoreEvent)
        requires
            self.inv(),
            self.can_answer(event),
        ensures
            self.answer(event).inv(),
    {
        let next = self.answer(event);
        let sent = self.client.sent;
        let k = self.taken as int;
        let done = RequestView::Completed(event.reply_userdata);
        let all = self.submitted();
        tasks_of_push(sent, done);
        tasks_of_push(sent.skip(k), done);
        assert(next.client.sent.skip(k) =~= sent.skip(k).push(done));
        assert(next.client.sent[sent.len() as int] is Completed);
        let last = self.started.len() - 1;
        assert(all[last] == self.running->0);
    }

    proof fn invariant_after_step(self, next: Session)
        requires
            self.inv(),
            self.leads_to(next),
        ensures
            next.inv(),
    {
        if exists|request: RequestView, delivered: bool|
            self.can_submit(request) && next == #[trigger] self.submit(request, delivered) {
            let (request, delivered) = choose|request: RequestView, delivered: bool|
                self.can_submit(request) && next == #[trigger] self.submit(request, delivered);
            self.invariant_after_submit(request, delivered);
        } else if exists|delivered: bool| next == #[trigger] self.exit(delivered) {
            let delivered = choose|delivered: bool| next == #[trigger] self.exit(delivered);
            self.invariant_after_exit(delivered);
        } else if exists|event: Option<MpvEvent>| next == #[trigger] self.poll(event) {
            let event = choose|event: Option<MpvEvent>| next == #[trigger] self.poll(event);
            self.invariant_after_poll(event);
        } else if next == self.find_gone() {
            self.invariant_after_find_gone();
        } else if next == self {
        } else if self.can_take_in() && next == self.take_in() {
            self.invariant_after_take_in();
        } else {
            let event = choose|event: CoreEvent|
                self.can_answer(event) && next == #[trigger] self.answer(event);
            self.invariant_after_answer(event);
        }
    }
}

proof fn invariant_always(states: Seq<Session>, i: int)
    requires
        is_session(states),
        0 <= i < states.len(),
    ensures
        states[i].inv(),
    decreases i,
{
    if i == 0 {
        states[0].invariant_initially();
    } else {
        invariant_always(states, i - 1);
        states[i - 1].invariant_after_step(states[i]);
    }
}

/// A completion that is taken in is always that of the active request.
pub proof fn completion_is_of_active_request(states: Seq<Session>, i: int)
    requires
        is_session(states),
        0 <= i < states.len(),
        states[i].can_take_in(),
    ensures
        states[i].omt.wf(),
        states[i].omt.admits(states[i].next_message()),
{
    invariant_always(states, i);
}

/// mpv works on one request at a time: another is handed to it only after it has answered.
pub proof fn one_request_at_a_time(states: Seq<Session>, i: int)
    requires
        is_session(states),
        0 <= i < states.len(),
        states[i].can_take_in(),
        states[i].omt.starts(states[i].next_message()) is Some,
    ensures
        states[i].running is None,
{
    invariant_always(states, i);
}

/// mpv is handed the submitted requests in the order of their submission, none left out and none
/// twice.
pub proof fn started_in_order_of_submission(states: Seq<Session>, i: int)
    requires
        is_session(states),
        0 <= i < states.len(),
    ensures
        states[i].started.len() <= states[i].submitted().len(),
        states[i].started == states[i].submitted().take(states[i].started.len() as int),
{
    invariant_always(states, i);
    let s = states[i];
    assert(s.started =~= s.submitted().take(s.started.len() as int));
}

/// The numbers of the submitted requests ascend, so no two requests share one.
pub proof fn numbers_ascend(states: Seq<Session>, i: int, a: int, b: int)
    requires
        is_session(states),
        0 <= i < states.len(),
        0 <= a < b < states[i].submitted().len(),
    ensures
        number(states[i].submitted()[a]) < number(states[i].submitted()[b]),
{
    invariant_always(states, i);
}

/// While mpv works on a request, the client holds that request under the number that the answer
/// will bear.
pub proof fn answer_finds_its_request(states: Seq<Session>, i: int)
    requires
        is_session(states),
        0 <= i < states.len(),
        states[i].running is Some,
    ensures
        ({
            let task = states[i].running->0;
            &&& states[i].client.outstanding.contains_key(number(task))
            &&& states[i].client.outstanding[number(task)] == task
        }),
{
    invariant_always(states, i);
    let s = states[i];
    assert(s.submitted()[s.started.len() - 1] == s.started.last());
}

/// Nothing gets stuck: once every message has been taken in and mpv has answered what it has been
/// handed, it has been handed everything that was submitted.
pub proof fn everything_gets_started(states: Seq<Session>, i: int)
    requires
        is_session(states),
        0 <= i < states.len(),
        states[i].taken == states[i].client.sent.len(),
        states[i].running is None,
    ensures
        states[i].started == states[i].submitted(),
{
    invariant_always(states, i);
    let s = states[i];
    reveal(Seq::filter);
    assert(s.client.sent.skip(s.taken as int) =~= Seq::<RequestView>::empty());
    assert(s.started =~= s.submitted());
}

} // verus!
