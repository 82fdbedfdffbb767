//! The controller over whole sequences of calls: every stop request is
//! answered once, under its own token and in its turn.

use crate::api::{MainSignal, Request};
use crate::controller::{is_busy, token_of, ActionView, ControllerView, OutcomeView, State};
use vstd::prelude::*;

verus! {

/// One call on the controller.
pub enum Call {
    /// A request is submitted.
    Submit(Request),
    /// The controller is asked for its next action.
    Poll,
    /// An outcome is reported.
    Complete(OutcomeView),
}

impl ControllerView {
    /// The controller after one call, and the action that the call returns. A
    /// submission returns no action, which counts as `Wait`.
    pub open spec fn step(self, call: Call) -> (ControllerView, ActionView) {
        match call {
            Call::Submit(request) => (self.submit(request), ActionView::Wait),
            Call::Poll => self.poll(),
            Call::Complete(outcome) => self.complete(outcome),
        }
    }

    /// The controller after a sequence of calls, and the actions that the
    /// calls returned, in order.
    pub open spec fn run(self, calls: Seq<Call>) -> (ControllerView, Seq<ActionView>)
        decreases calls.len(),
    {
        if calls.len() == 0 {
            (self, Seq::empty())
        } else {
            let (before, actions) = self.run(calls.drop_last());
            let (after, action) = before.step(calls.last());
            (after, actions.push(action))
        }
    }
}

/// The tokens of the stop requests among `requests`, in order.
pub open spec fn stop_tokens(requests: Seq<Request>) -> Seq<u64>
    decreases requests.len(),
{
    if requests.len() == 0 {
        Seq::empty()
    } else {
        let earlier = stop_tokens(requests.drop_last());
        if requests.last().signal == MainSignal::StopMic {
            earlier.push(requests.last().token)
        } else {
            earlier
        }
    }
}

/// The tokens of the stop requests that `calls` submit, in order.
pub open spec fn submitted_stops(calls: Seq<Call>) -> Seq<u64>
    decreases calls.len(),
{
    if calls.len() == 0 {
        Seq::empty()
    } else {
        let earlier = submitted_stops(calls.drop_last());
        match calls.last() {
            Call::Submit(request) => if request.signal == MainSignal::StopMic {
                earlier.push(request.token)
            } else {
                earlier
            },
            _ => earlier,
        }
    }
}

/// The tokens of the answers among `actions`, in order.
pub open spec fn reply_tokens(actions: Seq<ActionView>) -> Seq<u64>
    decreases actions.len(),
{
    if actions.len() == 0 {
        Seq::empty()
    } else {
        let earlier = reply_tokens(actions.drop_last());
        match actions.last() {
            ActionView::Reply { token, .. } => earlier.push(token),
            _ => earlier,
        }
    }
}

/// The token that a state works on, as a sequence of one or none.
pub open spec fn token_in_progress(state: State) -> Seq<u64> {
    match token_of(state) {
        Some(token) => seq![token],
        None => Seq::empty(),
    }
}

/// The stop requests that a controller still owes an answer: the one it
/// works on, then those in its queue.
pub open spec fn owed(controller: ControllerView) -> Seq<u64> {
    token_in_progress(controller.state) + stop_tokens(controller.pending)
}

/// The tokens of the answers among one action.
proof fn lemma_reply_tokens_of_one(action: ActionView)
    ensures
        reply_tokens(seq![action]) == match action {
            ActionView::Reply { token, .. } => seq![token],
            _ => Seq::<u64>::empty(),
        },
{
    assert(seq![action].drop_last() =~= Seq::<ActionView>::empty());
    assert(reply_tokens(Seq::<ActionView>::empty()) =~= Seq::<u64>::empty());
    assert(seq![action].last() == action);
    match action {
        ActionView::Reply { token, .. } => {
            assert(reply_tokens(seq![action]) =~= seq![token]);
        },
        _ => {},
    }
}

/// The tokens of the stop requests that one call submits.
proof fn lemma_submitted_stops_of_one(call: Call)
    ensures
        submitted_stops(seq![call]) == match call {
            Call::Submit(request) => if request.signal == MainSignal::StopMic {
                seq![request.token]
            } else {
                Seq::<u64>::empty()
            },
            _ => Seq::<u64>::empty(),
        },
{
    assert(seq![call].drop_last() =~= Seq::<Call>::empty());
    assert(submitted_stops(Seq::<Call>::empty()) =~= Seq::<u64>::empty());
    assert(seq![call].last() == call);
    match call {
        Call::Submit(request) => {
            if request.signal == MainSignal::StopMic {
                assert(submitted_stops(seq![call]) =~= seq![request.token]);
            }
        },
        _ => {},
    }
}

/// The tokens of the stop requests among one request.
proof fn lemma_stop_tokens_of_one(request: Request)
    ensures
        stop_tokens(seq![request]) == if request.signal == MainSignal::StopMic {
            seq![request.token]
        } else {
            Seq::<u64>::empty()
        },
{
    assert(seq![request].drop_last() =~= Seq::<Request>::empty());
    assert(stop_tokens(Seq::<Request>::empty()) =~= Seq::<u64>::empty());
    assert(seq![request].last() == request);
    if request.signal == MainSignal::StopMic {
        assert(stop_tokens(seq![request]) =~= seq![request.token]);
    }
}

/// The tokens of the stop requests of a queue are that of its head, if it
/// is a stop request, followed by those of the rest.
pub proof fn lemma_stop_tokens_from_the_front(requests: Seq<Request>)
    requires
        requests.len() > 0,
    ensures
        stop_tokens(requests) == stop_tokens(seq![requests[0]]) + stop_tokens(
            requests.subrange(1, requests.len() as int),
        ),
    decreases requests.len(),
{
    let head = seq![requests[0]];
    let rest = requests.subrange(1, requests.len() as int);
    lemma_stop_tokens_of_one(requests[0]);
    if requests.len() == 1 {
        assert(requests =~= head);
        assert(rest =~= Seq::<Request>::empty());
        assert(stop_tokens(head) + stop_tokens(rest) =~= stop_tokens(head));
    } else {
        let front = requests.drop_last();
        lemma_stop_tokens_from_the_front(front);
        assert(front.subrange(1, front.len() as int) =~= rest.drop_last());
        assert(front[0] == requests[0]);
        assert(rest.last() == requests.last());
        let inner = stop_tokens(rest.drop_last());
        if requests.last().signal == MainSignal::StopMic {
            assert((stop_tokens(head) + inner).push(requests.last().token) =~= stop_tokens(head)
                + inner.push(requests.last().token));
        }
    }
}

/// One call changes what is answered and what is owed by exactly the stop
/// request that it submits, if it submits one: an answer takes the oldest
/// token that was owed, and nothing else comes or goes.
pub proof fn lemma_step_keeps_the_account(controller: ControllerView, call: Call)
    ensures
        ({
            let (next, action) = controller.step(call);
            reply_tokens(seq![action]) + owed(next) == owed(controller) + submitted_stops(
                seq![call],
            )
        }),
{
    let (next, action) = controller.step(call);
    lemma_reply_tokens_of_one(action);
    lemma_submitted_stops_of_one(call);
    match call {
        Call::Submit(request) => {
            lemma_stop_tokens_of_one(request);
            assert(next.pending.drop_last() =~= controller.pending);
        },
        Call::Poll => {
            if !is_busy(controller.state) && controller.pending.len() > 0 {
                lemma_stop_tokens_from_the_front(controller.pending);
                lemma_stop_tokens_of_one(controller.pending[0]);
            }
        },
        Call::Complete(outcome) => {},
    }
    assert(reply_tokens(seq![action]) + owed(next) =~= owed(controller) + submitted_stops(
        seq![call],
    ));
}

/// Every stop request is answered once, under its own token and in its turn.
/// After any sequence of calls, the tokens of the answers given so far,
/// followed by the token that the controller works on and those of the stop
/// requests in its queue, are the tokens of all stop requests that were owed
/// at the start or submitted since, in the order in which they came. No
/// answer is given twice, none goes to another request, and none is lost.
pub proof fn lemma_run_keeps_the_account(controller: ControllerView, calls: Seq<Call>)
    ensures
        ({
            let (last, actions) = controller.run(calls);
            reply_tokens(actions) + owed(last) == owed(controller) + submitted_stops(calls)
        }),
    decreases calls.len(),
{
    let (last, actions) = controller.run(calls);
    if calls.len() == 0 {
        assert(reply_tokens(actions) + owed(last) =~= owed(controller) + submitted_stops(calls));
    } else {
        let (before, earlier) = controller.run(calls.drop_last());
        let (after, action) = before.step(calls.last());
        lemma_run_keeps_the_account(controller, calls.drop_last());
        lemma_step_keeps_the_account(before, calls.last());
        assert(actions.drop_last() =~= earlier);
        assert(actions.last() == action);
        lemma_reply_tokens_of_one(action);
        lemma_submitted_stops_of_one(calls.last());
        assert(reply_tokens(actions) =~= reply_tokens(earlier) + reply_tokens(seq![action]));
        assert(submitted_stops(calls) =~= submitted_stops(calls.drop_last()) + submitted_stops(
            seq![calls.last()],
        ));
        assert(reply_tokens(actions) + owed(last) =~= reply_tokens(earlier) + (reply_tokens(
            seq![action],
        ) + owed(after)));
        assert(owed(controller) + submitted_stops(calls) =~= (owed(controller) + submitted_stops(
            calls.drop_last(),
        )) + submitted_stops(seq![calls.last()]));
        assert(reply_tokens(earlier) + (owed(before) + submitted_stops(seq![calls.last()]))
            =~= (reply_tokens(earlier) + owed(before)) + submitted_stops(seq![calls.last()]));
    }
}

/// From a controller at rest, the answers go to the stop requests in the
/// order of their submission: the first answer to the first stop request,
/// the second to the second, and never more answers than stop requests.
pub proof fn lemma_answers_follow_the_stop_requests(
    labels: Seq<Seq<char>>,
    threshold: u32,
    calls: Seq<Call>,
)
    ensures
        ({
            let actions = ControllerView::initial(labels, threshold).run(calls).1;
            reply_tokens(actions).is_prefix_of(submitted_stops(calls))
        }),
{
    let start = ControllerView::initial(labels, threshold);
    let (last, actions) = start.run(calls);
    lemma_run_keeps_the_account(start, calls);
    assert(owed(start) =~= Seq::<u64>::empty());
    assert(owed(start) + submitted_stops(calls) =~= submitted_stops(calls));
    let replies = reply_tokens(actions);
    assert(replies =~= (replies + owed(last)).subrange(0, replies.len() as int));
}

} // verus!
