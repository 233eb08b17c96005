//! What holds of the library as a whole.
use crate::event_loop::{
    close_plan, enclosed, init_handles, init_len, init_plan, initialized, ran_forever, settled,
    wrapped,
};
use crate::generic::testing::{bracketed, suite_ran};
use crate::generic::{
    delivered, driven, panic_delivered, panic_reported, spawned, JoinError,
};
use crate::globals::{Globals, Handles};
use crate::plan::{answered, answers, outcome, ran, underway, Plan};
use crate::python::{method, Event, Handoff, Request};
use crate::task::{completed, connected, resumed, submits, watched};
use futures::channel::oneshot::{Canceled, Receiver, Sender};
use pyo3::{PyErr, PyObject, PyResult};
use vstd::prelude::*;

pub mod operations;

verus! {

/// The replies of a run of events.
pub open spec fn replies(events: Seq<Event>) -> Seq<PyResult<PyObject>> {
    events.map_values(|event: Event| event->reply)
}

/// Whether the event asks for something to be called.
pub open spec fn calls(event: Event, callable: PyObject, args: Seq<PyObject>) -> bool {
    event is Asked && event->request == (Request::Call { callable, args })
}

/// What happened decides the outcome: the same events cannot be a run of a plan with two
/// different outcomes.
pub proof fn law_outcome_is_decided(
    plan: Plan,
    events: Seq<Event>,
    one: PyResult<Seq<PyObject>>,
    other: PyResult<Seq<PyObject>>,
)
    requires
        ran(plan, events, one),
        ran(plan, events, other),
    ensures
        one == other,
{
    if one is Ok != other is Ok {
        assert(answered(events[events.len() - 1]));
    }
}

/// The library leaves nothing to chance: as long as the interpreter gives the same answers, two
/// runs of a plan ask the same things in the same order.
pub proof fn law_same_answers_same_requests(
    plan: Plan,
    some: Seq<Event>,
    others: Seq<Event>,
    n: nat,
)
    requires
        underway(plan, some),
        underway(plan, others),
        n <= some.len(),
        n <= others.len(),
        replies(some).take(n as int) == replies(others).take(n as int),
    ensures
        some.take(n as int) == others.take(n as int),
{
    assert forall|i: int| 0 <= i < n implies (#[trigger] some[i])->reply
        == others[i]->reply by {
        assert(replies(some).take(n as int)[i] == some[i]->reply);
        assert(replies(others).take(n as int)[i] == others[i]->reply);
    }
    assert forall|i: int| 0 <= i < n implies some[i] == others[i] by {
        assert(answered(some[i]) && answered(others[i]));
        assert(answers(some).take(i) =~= answers(others).take(i)) by {
            assert forall|j: int| 0 <= j < i implies answers(some)[j] == answers(others)[j] by {
                assert(some[j]->reply == others[j]->reply);
            }
        }
    }
    assert(some.take(n as int) =~= others.take(n as int));
}

/// Nothing is asked after a failure: in any run, every request but the last was answered.
pub proof fn law_failure_is_final(
    plan: Plan,
    events: Seq<Event>,
    outcome: PyResult<Seq<PyObject>>,
    i: int,
)
    requires
        ran(plan, events, outcome),
        0 <= i < events.len() - 1,
    ensures
        answered(events[i]),
{
    if outcome is Err {
        assert(events.drop_last()[i] == events[i]);
    }
}

/// The first initialization wins: whatever later ones come to, the handles stay those of the
/// first one that succeeded.
pub proof fn law_first_initialization_wins(
    before: Option<Handles>,
    first: PyResult<Seq<PyObject>>,
    later: Seq<PyResult<Seq<PyObject>>>,
    states: Seq<Option<Handles>>,
    i: int,
)
    requires
        first is Ok,
        states.len() == later.len() + 1,
        states[0] == initialized(before, first),
        forall|k: int|
            0 <= k < later.len() ==> #[trigger] states[k + 1] == initialized(states[k], later[k]),
        0 <= i < states.len(),
    ensures
        states[i] is Some,
        states[i] == states[0],
    decreases i,
{
    if i > 0 {
        law_first_initialization_wins(before, first, later, states, i - 1);
        assert(states[(i - 1) + 1] == initialized(states[i - 1], later[i - 1]));
    }
}

/// An initialization that fails leaves the state as it was.
pub proof fn law_failed_initialization_changes_nothing(before: Option<Handles>, err: PyErr)
    ensures
        initialized(before, Err(err)) == before,
{
}

/// The handles of a complete initialization belong together: the executor is the one that the
/// event loop was given, and the event loop's two methods were taken from that event loop.
pub proof fn law_handles_belong_together(events: Seq<Event>, given: Seq<PyObject>)
    requires
        ran(init_plan(), events, Ok(given)),
    ensures
        events.len() == init_len(),
        ({
            let handles = init_handles(given);
            &&& events[1] == (Event::Asked {
                request: method(handles.asyncio, "get_event_loop"@, seq![]),
                reply: Ok(handles.event_loop),
            })
            &&& events[5] is Asked
            &&& events[5]->request == method(
                handles.event_loop,
                "set_default_executor"@,
                seq![handles.executor],
            )
            &&& events[6] == (Event::Asked {
                request: Request::GetAttr {
                    object: handles.event_loop,
                    name: "call_soon_threadsafe"@,
                },
                reply: Ok(handles.call_soon),
            })
            &&& events[7] == (Event::Asked {
                request: Request::GetAttr {
                    object: handles.asyncio,
                    name: "run_coroutine_threadsafe"@,
                },
                reply: Ok(handles.create_task),
            })
            &&& events[8] == (Event::Asked {
                request: Request::GetAttr { object: handles.event_loop, name: "create_future"@ },
                reply: Ok(handles.create_future),
            })
        }),
{
    if events.len() > init_len() {
        assert(answered(events[init_len()]));
    }
    assert(answered(events[1]) && answered(events[5]));
    assert(answered(events[6]) && answered(events[7]) && answered(events[8]));
}

/// The event loop is closed only after it was stopped, and stopped only after the executor shut
/// down.
pub proof fn law_closing_order(
    handles: Handles,
    events: Seq<Event>,
    outcome: PyResult<Seq<PyObject>>,
)
    requires
        ran(close_plan(handles), events, outcome),
    ensures
        0 < events.len() <= 3,
        events[0]->request == method(handles.executor, "shutdown"@, seq![]),
        events.len() > 1 ==> {
            &&& answered(events[0])
            &&& events[1]->request == method(handles.event_loop, "stop"@, seq![])
        },
        events.len() > 2 ==> {
            &&& answered(events[1])
            &&& events[2]->request == method(handles.event_loop, "close"@, seq![])
        },
        outcome is Ok ==> events.len() == 3 && answered(events[2]),
{
    let answered_part = if outcome is Ok {
        events
    } else {
        events.drop_last()
    };
    if answered_part.len() > 3 {
        assert(answered(answered_part[3]));
    }
    if answered_part.len() > 0 {
        assert(answered(answered_part[0]));
    }
    if answered_part.len() > 1 {
        assert(answered(answered_part[1]));
    }
    if answered_part.len() > 2 {
        assert(answered(answered_part[2]));
    }
}

/// A runtime that was left with success was opened, entered and closed: the executor shut down
/// and the event loop stopped and closed. The function's value is the result.
pub proof fn law_success_means_closed<R>(
    before: Option<Handles>,
    events: Seq<Event>,
    after: Option<Handles>,
    body: PyResult<R>,
    result: PyResult<R>,
)
    requires
        wrapped(before, events, after, body, result),
        result is Ok,
    ensures
        result == body,
        after is Some,
        events.len() == init_len() + 4,
        forall|i: int| 0 <= i < init_len() ==> answered(#[trigger] events[i]),
        events[init_len()] == Event::Callback,
        answered(events[init_len() + 1]),
        answered(events[init_len() + 2]),
        answered(events[init_len() + 3]),
        events[init_len() + 1]->request == method(after->0.executor, "shutdown"@, seq![]),
        events[init_len() + 2]->request == method(after->0.event_loop, "stop"@, seq![]),
        events[init_len() + 3]->request == method(after->0.event_loop, "close"@, seq![]),
{
    let opening = events.take(init_len());
    let closing = events.skip(init_len() + 1);
    law_closing_order(after->0, closing, outcome(closing, result));
    assert(answered(closing[0]) && answered(closing[1]) && answered(closing[2]));
    assert forall|i: int| 0 <= i < init_len() implies answered(#[trigger] events[i]) by {
        assert(answered(opening[i]));
    }
}

/// A function that fails is the last thing that happens in its runtime: nothing is shut down,
/// and its error is the result.
pub proof fn law_failed_body_is_not_closed<R>(
    before: Option<Handles>,
    events: Seq<Event>,
    after: Option<Handles>,
    body: PyResult<R>,
    result: PyResult<R>,
)
    requires
        wrapped(before, events, after, body, result),
        body is Err,
    ensures
        result == body,
        events.last() == Event::Callback,
{
}

/// An initialization that fails makes no more requests than one that succeeds.
pub proof fn law_failed_opening_is_short(events: Seq<Event>, err: PyErr)
    requires
        ran(init_plan(), events, Err(err)),
    ensures
        0 < events.len() <= init_len(),
        events.last() is Asked,
        events.last()->reply == Err::<PyObject, _>(err),
{
    if events.len() > init_len() {
        assert(answered(events.drop_last()[init_len() - 1]));
    }
}

/// Nothing but requests is made in a run of a plan: no closure is called in it.
pub proof fn law_plans_only_ask(
    plan: Plan,
    events: Seq<Event>,
    outcome: PyResult<Seq<PyObject>>,
    i: int,
)
    requires
        ran(plan, events, outcome),
        0 <= i < events.len(),
    ensures
        events[i] is Asked,
{
    if i < events.len() - 1 {
        law_failure_is_final(plan, events, outcome, i);
    } else if outcome is Ok {
        assert(answered(events[i]));
    }
}

/// An initialization that failed is short, made nothing but requests, and did not succeed.
proof fn lemma_failed_opening(events: Seq<Event>, err: PyErr)
    requires
        ran(init_plan(), events, Err(err)),
    ensures
        events.len() <= init_len(),
        forall|i: int| 0 <= i < events.len() ==> #[trigger] events[i] is Asked,
        events.len() >= init_len() ==> !ran(
            init_plan(),
            events.take(init_len()),
            Ok(answers(events.take(init_len()))),
        ),
{
    law_failed_opening_is_short(events, err);
    assert forall|i: int| 0 <= i < events.len() implies #[trigger] events[i] is Asked by {
        law_plans_only_ask(init_plan(), events, Err(err), i);
    }
    if events.len() >= init_len() {
        let opening = events.take(init_len());
        assert(opening =~= events);
        if ran(init_plan(), opening, Ok(answers(opening))) {
            law_outcome_is_decided(init_plan(), events, Err(err), Ok(answers(opening)));
        }
    }
}

/// A function is called inside the runtime exactly if the initialization succeeded, and then
/// once, after the last request of the initialization and before the first one of closing. Where
/// the initialization failed, its error is the result and nothing is closed.
pub proof fn law_entered_exactly_if_opened<R, F: FnOnce(&Globals) -> PyResult<R>>(
    before: Option<Handles>,
    f: F,
    events: Seq<Event>,
    after: Globals,
    result: PyResult<R>,
)
    requires
        enclosed(before, f, events, after, result),
    ensures
        forall|i: int|
            0 <= i < events.len() ==> (#[trigger] events[i] is Callback <==> i == init_len()),
        events.len() > init_len() <==> (events.len() >= init_len() && ran(
            init_plan(),
            events.take(init_len()),
            Ok(answers(events.take(init_len()))),
        )),
        events.len() > init_len() ==> exists|body: PyResult<R>| #[trigger]
            call_ensures(f, (&after,), body) && wrapped(before, events, after@, body, result),
        events.len() <= init_len() ==> {
            &&& result is Err
            &&& ran(init_plan(), events, Err(result->Err_0))
            &&& after@ == before
        },
{
    if exists|body: PyResult<R>|
        {
            &&& #[trigger] call_ensures(f, (&after,), body)
            &&& wrapped(before, events, after@, body, result)
        } {
        let body = choose|body: PyResult<R>|
            {
                &&& #[trigger] call_ensures(f, (&after,), body)
                &&& wrapped(before, events, after@, body, result)
            };
        let opening = events.take(init_len());
        let closing = events.skip(init_len() + 1);
        assert forall|i: int| 0 <= i < events.len() implies (#[trigger] events[i] is Callback
            <==> i == init_len()) by {
            if i < init_len() {
                assert(answered(opening[i]));
            } else if i > init_len() {
                law_plans_only_ask(
                    close_plan(after@->0),
                    closing,
                    outcome(closing, result),
                    i - init_len() - 1,
                );
                assert(closing[i - init_len() - 1] == events[i]);
            }
        }
    } else {
        lemma_failed_opening(events, result->Err_0);
    }
}

/// Running the event loop fails only with the exception that ended the run, and never with an
/// interrupt from the keyboard.
pub proof fn law_interrupt_is_no_error(
    reply: PyResult<PyObject>,
    events: Seq<Event>,
    result: PyResult<()>,
)
    requires
        settled(reply, events, result),
    ensures
        result is Err ==> {
            &&& reply == Err::<PyObject, _>(result->Err_0)
            &&& events[0] == (Event::TestedInterrupt { err: result->Err_0, interrupt: false })
        },
        reply is Ok ==> result is Ok,
{
}

/// A completer sends at most once, however often it is called: after its first call it has no
/// channel left, and every later call sends nothing.
pub proof fn law_completer_sends_once(
    senders: Seq<Option<Sender<PyResult<PyObject>>>>,
    tasks: Seq<PyObject>,
    histories: Seq<Seq<Event>>,
    i: int,
    k: int,
)
    requires
        senders.len() == tasks.len() == histories.len(),
        forall|n: int|
            0 <= n < tasks.len() ==> completed(senders[n], tasks[n], #[trigger] histories[n]),
        forall|n: int| 0 < n < senders.len() ==> #[trigger] senders[n] is None,
        0 <= i < histories.len(),
        0 <= k < histories[i].len(),
        histories[i][k] is Sent,
    ensures
        i == 0,
        k == 1,
{
    assert(completed(senders[i], tasks[i], histories[i]));
}

/// What a coroutine comes to in Python is what its future yields in Rust, be it a value or an
/// exception: the task's completer sends the task's result into the channel that the future
/// listens to, and the future yields what the channel yields.
pub proof fn law_coroutine_result_reaches_rust(
    handles: Handles,
    coro: PyObject,
    submission: Seq<Event>,
    completer_tx: Sender<PyResult<PyObject>>,
    callback: PyObject,
    rx: Receiver<PyResult<PyObject>>,
    completion: Seq<Event>,
    resumption: Seq<Event>,
    result: PyResult<PyObject>,
)
    requires
        submits(handles, coro, submission[0]),
        watched(completer_tx, callback, submission, Ok(rx)),
        // The event loop calls the callback with the task it was added to.
        completed(Some(completer_tx), submission[0]->reply->Ok_0, completion),
        // The channel yields what was sent into it.
        resumed(handles, Ok(completion[1]->item), resumption, result),
    ensures
        calls(submission[0], handles.create_task, seq![coro, handles.event_loop]),
        completion[0]->request == method(submission[0]->reply->Ok_0, "result"@, seq![]),
        connected(completion[1]->tx, rx),
        result == completion[0]->reply,
{
}

/// A future whose channel was cancelled never yields a value.
pub proof fn law_cancelled_future_fails(
    handles: Handles,
    canceled: Canceled,
    events: Seq<Event>,
    result: PyResult<PyObject>,
)
    requires
        resumed(handles, Err(canceled), events, result),
    ensures
        result is Err,
{
}

/// Submitting a coroutine sends nothing into the channel that its future listens to: whatever the
/// future yields comes from the task's completer, which is handed the only sender.
pub proof fn law_submission_sends_nothing(
    handles: Handles,
    coro: PyObject,
    events: Seq<Event>,
    tx: Sender<PyResult<PyObject>>,
    callback: PyObject,
    result: PyResult<Receiver<PyResult<PyObject>>>,
    i: int,
)
    requires
        submits(handles, coro, events[0]),
        watched(tx, callback, events, result),
        0 <= i < events.len(),
    ensures
        !(events[i] is Sent),
{
    assert(i == 0 || i == 1 || i == 2);
}

/// The method of a Python future that settles it with the given outcome.
pub open spec fn setter_name(outcome: PyResult<PyObject>) -> Seq<char> {
    match outcome {
        Ok(_) => "set_result"@,
        Err(_) => "set_exception"@,
    }
}

/// Whether the events settle the Python future with the outcome: the setter for it is taken from
/// the future, and the last event has the event loop call it with the value, or with the
/// exception made of the error.
pub open spec fn settles(
    handles: Handles,
    future: PyObject,
    outcome: PyResult<PyObject>,
    events: Seq<Event>,
) -> bool {
    let setter = events[0]->reply->Ok_0;
    &&& events.len() > 1
    &&& events[0] == (Event::Asked {
        request: Request::GetAttr { object: future, name: setter_name(outcome) },
        reply: Ok(setter),
    })
    &&& answered(events.last())
    &&& match outcome {
        Ok(value) => calls(events.last(), handles.call_soon, seq![setter, value]),
        Err(err) => {
            &&& events[1] is IntoInstance
            &&& events[1]->IntoInstance_err == err
            &&& calls(
                events.last(),
                handles.call_soon,
                seq![setter, events[1]->IntoInstance_instance],
            )
        },
    }
}

/// What a Rust future comes to is what the Python future that stands for it is settled with: a
/// value goes to the future's `set_result`, an error, as an exception, to its `set_exception`,
/// and the event loop itself makes the call.
pub proof fn law_rust_outcome_reaches_python<S: FnOnce((&Globals, PyObject, PyObject))>(
    globals: Globals,
    spawn: S,
    conversion: Seq<Event>,
    future: PyObject,
    returned: PyResult<PyObject>,
    delivery: Seq<Event>,
)
    requires
        spawned(globals, spawn, conversion, Ok(future)),
        delivered(globals@->0, future, returned, delivery, Ok(())),
    ensures
        call_ensures(spawn, ((&globals, future, future),), ()),
        settles(globals@->0, future, returned, delivery),
{
}

/// From Python to Rust and back an outcome stays what it is: where the future of a coroutine is
/// itself converted for Python, the Python future is settled with what the coroutine's task came
/// to, with its value if it returned one and with its exception if it raised one.
pub proof fn law_round_trip_keeps_the_outcome<S: FnOnce((&Globals, PyObject, PyObject))>(
    globals: Globals,
    coro: PyObject,
    submission: Seq<Event>,
    completer_tx: Sender<PyResult<PyObject>>,
    callback: PyObject,
    rx: Receiver<PyResult<PyObject>>,
    completion: Seq<Event>,
    resumption: Seq<Event>,
    yielded: PyResult<PyObject>,
    spawn: S,
    conversion: Seq<Event>,
    future: PyObject,
    delivery: Seq<Event>,
)
    requires
        submits(globals@->0, coro, submission[0]),
        watched(completer_tx, callback, submission, Ok(rx)),
        // The event loop calls the callback with the task it was added to.
        completed(Some(completer_tx), submission[0]->reply->Ok_0, completion),
        // The channel yields what was sent into it.
        resumed(globals@->0, Ok(completion[1]->item), resumption, yielded),
        spawned(globals, spawn, conversion, Ok(future)),
        delivered(globals@->0, future, yielded, delivery, Ok(())),
    ensures
        completion[0]->request == method(submission[0]->reply->Ok_0, "result"@, seq![]),
        settles(globals@->0, future, completion[0]->reply, delivery),
{
    law_coroutine_result_reaches_rust(
        globals@->0,
        coro,
        submission,
        completer_tx,
        callback,
        rx,
        completion,
        resumption,
        yielded,
    );
    law_rust_outcome_reaches_python(globals, spawn, conversion, future, yielded, delivery);
}

/// Delivering an outcome calls nothing but the event loop's `call_soon_threadsafe`, and that at
/// most once.
pub proof fn law_delivery_only_schedules(
    handles: Handles,
    future: PyObject,
    result: PyResult<PyObject>,
    events: Seq<Event>,
    delivery: PyResult<()>,
    i: int,
    j: int,
    callable: PyObject,
    args: Seq<PyObject>,
)
    requires
        delivered(handles, future, result, events, delivery),
        0 <= i < events.len(),
        0 <= j < events.len(),
        calls(events[i], callable, args),
        calls(events[j], callable, args),
    ensures
        callable == handles.call_soon,
        i == j == events.len() - 1,
{
}

/// A panic arrives in Python as an `Exception` that says so, through the future's
/// `set_exception`.
pub proof fn law_panic_reaches_python(handles: Handles, future: PyObject, events: Seq<Event>)
    requires
        panic_delivered(handles, future, events, Ok(())),
    ensures
        events[0] is MadeException,
        events[0]->message == "rust future panicked"@,
        settles(handles, future, Err(events[0]->MadeException_err), events.skip(1)),
{
}

/// Whether the event has the event loop call something.
pub open spec fn schedules(handles: Handles, event: Event) -> bool {
    &&& event is Asked
    &&& event->request is Call
    &&& event->request->callable == handles.call_soon
}

/// Whether the event number `k` has the event loop call the future's method of that name.
pub open spec fn completes(
    handles: Handles,
    future: PyObject,
    name: Seq<char>,
    events: Seq<Event>,
    k: int,
) -> bool {
    &&& 0 <= k < events.len()
    &&& schedules(handles, events[k])
    &&& exists|j: int|
        0 <= j < k && #[trigger] events[j] == (Event::Asked {
            request: Request::GetAttr { object: future, name },
            reply: Ok(events[k]->request->Call_args[0]),
        })
}

/// What the two tasks behind a converted future do. The inner one settles the Python future with
/// what the Rust future returned, if it returned; the outer one sees how the inner one joined,
/// and reports a panic.
pub open spec fn concluded<J: JoinError>(
    handles: Handles,
    future: PyObject,
    returned: Option<PyResult<PyObject>>,
    inner: Seq<Event>,
    inner_result: PyResult<()>,
    joined: Result<(), J>,
    panic: bool,
    outer: Seq<Event>,
    outer_result: PyResult<()>,
) -> bool {
    &&& match returned {
        Some(outcome) => delivered(handles, future, outcome, inner, inner_result),
        None => inner.len() == 0,
    }
    &&& panic_reported(joined, panic)
    &&& if panic {
        panic_delivered(handles, future, outer, outer_result)
    } else {
        outer.len() == 0
    }
}

/// A converted future is completed at most once, on a runtime that reports a join error for a
/// task exactly if it did not finish. It is completed if the Rust future returned or panicked,
/// as far as Python lets it be, and not if the task ended in any other way; and it is completed
/// through `set_result` exactly if the Rust future returned a value.
pub proof fn law_at_most_one_completion<J: JoinError>(
    handles: Handles,
    future: PyObject,
    returned: Option<PyResult<PyObject>>,
    inner: Seq<Event>,
    inner_result: PyResult<()>,
    joined: Result<(), J>,
    panic: bool,
    outer: Seq<Event>,
    outer_result: PyResult<()>,
)
    requires
        concluded(
            handles,
            future,
            returned,
            inner,
            inner_result,
            joined,
            panic,
            outer,
            outer_result,
        ),
        joined is Ok <==> returned is Some,
    ensures
        forall|i: int, j: int|
            0 <= i < (inner + outer).len() && 0 <= j < (inner + outer).len() && schedules(
                handles,
                #[trigger] (inner + outer)[i],
            ) && schedules(handles, #[trigger] (inner + outer)[j]) ==> i == j,
        returned is None && !panic ==> inner + outer == Seq::<Event>::empty(),
        returned is Some && inner_result is Ok ==> completes(
            handles,
            future,
            setter_name(returned->0),
            inner + outer,
            (inner + outer).len() - 1,
        ),
        panic && outer_result is Ok ==> completes(
            handles,
            future,
            "set_exception"@,
            inner + outer,
            (inner + outer).len() - 1,
        ),
        forall|k: int| #[trigger]
            completes(handles, future, "set_result"@, inner + outer, k) ==> returned is Some
                && returned->0 is Ok,
        forall|k: int| #[trigger]
            completes(handles, future, "set_exception"@, inner + outer, k) ==> !(returned is Some
                && returned->0 is Ok),
{
    reveal_strlit("set_result");
    reveal_strlit("set_exception");
    assert("set_result"@.len() != "set_exception"@.len());
    let events = inner + outer;
    if returned is Some {
        assert(events =~= inner);
        assert(events[0] == inner[0]);
    } else if panic {
        let delivery = outer.skip(1);
        assert(events =~= outer);
        assert(delivery[0] == events[1]);
        assert(delivery.last() == events.last());
        assert(forall|i: int| 0 <= i < delivery.len() ==> #[trigger] events[i + 1] == delivery[i]);
    } else {
        assert(events =~= Seq::<Event>::empty());
    }
}

/// A Rust future is spawned exactly if a Python future could be made for it, and then once, with
/// that future. Otherwise the error is the result, and nothing else happens.
pub proof fn law_spawned_exactly_if_converted<S: FnOnce((&Globals, PyObject, PyObject))>(
    globals: Globals,
    spawn: S,
    events: Seq<Event>,
    result: PyResult<PyObject>,
)
    requires
        spawned(globals, spawn, events, result),
    ensures
        forall|i: int| 0 <= i < events.len() ==> (#[trigger] events[i] is Callback <==> i == 1),
        events.len() > 1 <==> result is Ok,
        result matches Ok(future) ==> call_ensures(spawn, ((&globals, future, future),), ()),
        result is Err ==> events.len() == 1 && result == events[0]->reply,
{
    assert forall|i: int| 0 <= i < events.len() implies (#[trigger] events[i] is Callback <==> i
        == 1) by {
        assert(i == 0 || i == 1);
    }
}

/// The event loop runs until a Rust future is done only after that future was spawned, which
/// happens once, and it waits for the very Python future that was made for it. Where none could
/// be made, nothing is spawned and the event loop does not run.
pub proof fn law_spawned_before_the_loop_runs<S: FnOnce((&Globals, PyObject, PyObject))>(
    globals: Globals,
    spawn: S,
    events: Seq<Event>,
    result: PyResult<()>,
)
    requires
        driven(globals, spawn, events, result),
    ensures
        events.len() == 1 || events.len() == 3,
        forall|i: int| 0 <= i < events.len() ==> (#[trigger] events[i] is Callback <==> i == 1),
        events.len() == 3 <==> answered(events[0]),
        events.len() == 3 ==> {
            let future = events[0]->reply->Ok_0;
            &&& call_ensures(spawn, ((&globals, future, future),), ())
            &&& events[2] is Asked
            &&& events[2]->request == method(
                globals@->0.event_loop,
                "run_until_complete"@,
                seq![future],
            )
        },
        events.len() == 1 ==> result is Err && events[0]->reply == Err::<PyObject, _>(
            result->Err_0,
        ),
        result is Ok <==> events.len() == 3 && answered(events[2]),
{
    if events.len() == 3 {
        let conversion = events.take(2);
        assert(conversion[0] == events[0] && conversion[1] == events[1]);
    }
    assert forall|i: int| 0 <= i < events.len() implies (#[trigger] events[i] is Callback <==> i
        == 1) by {
        assert(i == 0 || i == 1 || i == 2);
    }
}

/// Whichever way the event loop is run, however often, and whatever came of it, it is the same
/// event loop that runs.
pub proof fn law_one_event_loop<S: FnOnce((&Globals, PyObject, PyObject))>(
    globals: Globals,
    spawn: S,
    completion: Seq<Event>,
    completion_result: PyResult<()>,
    forever: Seq<Event>,
    forever_result: PyResult<()>,
)
    requires
        driven(globals, spawn, completion, completion_result),
        // The conversion succeeded, so that the event loop was run.
        completion.len() == 3,
        ran_forever(globals@->0, forever, forever_result),
    ensures
        forever[0]->request is CallMethod,
        completion[2]->request is CallMethod,
        forever[0]->request->CallMethod_object == globals@->0.event_loop,
        completion[2]->request->CallMethod_object == globals@->0.event_loop,
{
}

/// Whether the event asks for a method of that name to be called.
pub open spec fn calls_method(event: Event, name: Seq<char>) -> bool {
    &&& event is Asked
    &&& event->request is CallMethod
    &&& event->request->CallMethod_name == name
}

/// The event loop can be resumed after it was run: whatever came of the run, the library asked
/// neither for `stop` nor for `close`.
pub proof fn law_running_leaves_the_loop_open<S: FnOnce((&Globals, PyObject, PyObject))>(
    globals: Globals,
    spawn: S,
    completion: Seq<Event>,
    completion_result: PyResult<()>,
    forever: Seq<Event>,
    forever_result: PyResult<()>,
)
    requires
        driven(globals, spawn, completion, completion_result),
        ran_forever(globals@->0, forever, forever_result),
    ensures
        forall|i: int|
            0 <= i < completion.len() ==> !calls_method(#[trigger] completion[i], "stop"@)
                && !calls_method(completion[i], "close"@),
        forall|i: int|
            0 <= i < forever.len() ==> !calls_method(#[trigger] forever[i], "stop"@)
                && !calls_method(forever[i], "close"@),
{
    reveal_strlit("stop");
    reveal_strlit("close");
    reveal_strlit("run_forever");
    reveal_strlit("run_until_complete");
    assert("stop"@.len() < "close"@.len() < "run_forever"@.len() < "run_until_complete"@.len());
    if forever.len() > 1 {
        assert(forever.skip(1)[0] == forever[1]);
    }
}

/// A suite is prepared exactly if the initialization succeeded, and spawned exactly if after that
/// a Python future could be made for it, and each of the two happens at most once. Where the
/// initialization failed, its error is the result.
pub proof fn law_prepared_exactly_if_opened<
    S: FnOnce((&Globals, PyObject, PyObject)),
    P: FnOnce(&Globals) -> Handoff<S>,
>(before: Option<Handles>, prepare: P, events: Seq<Event>, after: Globals, result: PyResult<()>)
    requires
        suite_ran(before, prepare, events, after, result),
    ensures
        forall|i: int|
            0 <= i < events.len() ==> (#[trigger] events[i] is Callback <==> i == init_len() || i
                == init_len() + 2),
        events.len() > init_len() <==> (events.len() >= init_len() && ran(
            init_plan(),
            events.take(init_len()),
            Ok(answers(events.take(init_len()))),
        )),
        events.len() > init_len() + 2 <==> (events.len() > init_len() + 1 && answered(
            events[init_len() + 1],
        )),
        events.len() > init_len() ==> exists|spawn: Handoff<S>, end: int, body: PyResult<()>|
            {
                &&& call_ensures(prepare, (&after,), spawn)
                &&& #[trigger] bracketed(before, spawn, events, after, end, body, result)
            },
        events.len() <= init_len() ==> {
            &&& result is Err
            &&& ran(init_plan(), events, Err(result->Err_0))
            &&& after@ == before
        },
{
    if exists|spawn: Handoff<S>, end: int, body: PyResult<()>|
        {
            &&& call_ensures(prepare, (&after,), spawn)
            &&& #[trigger] bracketed(before, spawn, events, after, end, body, result)
        } {
        let (spawn, end, body) = choose|spawn: Handoff<S>, end: int, body: PyResult<()>|
            {
                &&& call_ensures(prepare, (&after,), spawn)
                &&& #[trigger] bracketed(before, spawn, events, after, end, body, result)
            };
        let opening = events.take(init_len());
        let run = events.subrange(init_len() + 1, end);
        let closing = events.skip(end);
        law_spawned_before_the_loop_runs(after, spawn.closure(), run, body);
        assert(run[0] == events[init_len() + 1]);
        assert forall|i: int| 0 <= i < events.len() implies (#[trigger] events[i] is Callback
            <==> i == init_len() || i == init_len() + 2) by {
            if i < init_len() {
                assert(answered(opening[i]));
            } else if init_len() < i < end {
                assert(run[i - init_len() - 1] == events[i]);
            } else if i >= end {
                law_plans_only_ask(
                    close_plan(after@->0),
                    closing,
                    outcome(closing, result),
                    i - end,
                );
                assert(closing[i - end] == events[i]);
            }
        }
    } else {
        lemma_failed_opening(events, result->Err_0);
    }
}

/// A suite is reported to have passed exactly if everything succeeded: the runtime was opened,
/// one suite was prepared and spawned, the event loop ran until it was done, and the runtime was
/// closed.
pub proof fn law_passing_means_all_went_well<
    S: FnOnce((&Globals, PyObject, PyObject)),
    P: FnOnce(&Globals) -> Handoff<S>,
>(before: Option<Handles>, prepare: P, events: Seq<Event>, after: Globals, result: PyResult<()>)
    requires
        suite_ran(before, prepare, events, after, result),
    ensures
        result is Ok <==> (events.len() == init_len() + 7 && answered(events.last())),
        result is Ok ==> {
            let future = events[init_len() + 1]->reply->Ok_0;
            &&& forall|i: int| 0 <= i < init_len() ==> answered(#[trigger] events[i])
            &&& events[init_len()] == Event::Callback
            &&& exists|spawn: Handoff<S>| #[trigger]
                call_ensures(prepare, (&after,), spawn) && call_ensures(
                    spawn.closure(),
                    ((&after, future, future),),
                    (),
                )
            &&& events[init_len() + 1] == (Event::Asked {
                request: Request::Call { callable: after@->0.create_future, args: seq![] },
                reply: Ok(future),
            })
            &&& events[init_len() + 2] == Event::Callback
            &&& answered(events[init_len() + 3])
            &&& events[init_len() + 3]->request == method(
                after@->0.event_loop,
                "run_until_complete"@,
                seq![future],
            )
            &&& answered(events[init_len() + 4])
            &&& events[init_len() + 4]->request == method(
                after@->0.executor,
                "shutdown"@,
                seq![],
            )
            &&& answered(events[init_len() + 5])
            &&& events[init_len() + 5]->request == method(after@->0.event_loop, "stop"@, seq![])
            &&& answered(events[init_len() + 6])
            &&& events[init_len() + 6]->request == method(after@->0.event_loop, "close"@, seq![])
        },
        result matches Err(err) ==> {
            &&& events.len() > 0
            &&& events.last() is Asked
            &&& events.last()->reply == Err::<PyObject, _>(err)
        },
{
    if exists|spawn: Handoff<S>, end: int, body: PyResult<()>|
        {
            &&& call_ensures(prepare, (&after,), spawn)
            &&& #[trigger] bracketed(before, spawn, events, after, end, body, result)
        } {
        let (spawn, end, body) = choose|spawn: Handoff<S>, end: int, body: PyResult<()>|
            {
                &&& call_ensures(prepare, (&after,), spawn)
                &&& #[trigger] bracketed(before, spawn, events, after, end, body, result)
            };
        let opening = events.take(init_len());
        let run = events.subrange(init_len() + 1, end);
        let closing = events.skip(end);
        law_handles_belong_together(opening, answers(opening));
        assert forall|i: int| 0 <= i < init_len() implies answered(#[trigger] events[i]) by {
            assert(answered(opening[i]));
        }
        assert(forall|i: int|
            0 <= i < run.len() ==> #[trigger] run[i] == events[init_len() + 1 + i]);
        if body is Ok {
            law_closing_order(after@->0, closing, outcome(closing, result));
            assert(end == init_len() + 4);
            assert(closing.last() == events.last());
            assert(forall|i: int|
                0 <= i < closing.len() ==> #[trigger] closing[i] == events[init_len() + 4 + i]);
            assert(run.take(2)[0] == run[0] && run.take(2)[1] == run[1]);
        } else {
            assert(run.last() == events.last());
        }
    } else {
        law_failed_opening_is_short(events, result->Err_0);
    }
}

} // verus!
