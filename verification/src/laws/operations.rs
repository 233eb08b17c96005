//! What each operation does, stated of the operation itself: whatever call of it is made, this is
//! all that its session's history gains, and this is how the result follows.
use crate::event_loop::{
    close_plan, get_event_loop, init_plan, lemma_init_len, run_forever, settle, try_close, try_init,
    with_runtime, wrapped,
};
use crate::generic::testing::{bracketed, test_main};
use crate::generic::{
    into_coroutine, panicked, run_until_complete, set_panicked, set_result, unit_outcome, JoinError,
};
use crate::globals::{Globals, Handles};
use crate::laws::{
    law_failed_opening_is_short, law_failure_is_final, law_spawned_before_the_loop_runs,
};
use crate::plan::{answered, answers, asks, outcome, ran};
use crate::python::{Event, Handoff, Request, Session};
use crate::task::{connected, into_future, is_done, resume, PyTaskCompleter};
use futures::channel::oneshot::{Canceled, Receiver};
use pyo3::{PyErr, PyObject, PyResult};
use vstd::prelude::*;

verus! {

/// Where the events begin with the run of an initialization, these are its requests, in full.
proof fn lemma_opening(events: Seq<Event>, n: int, outcome: PyResult<Seq<PyObject>>)
    requires
        0 <= n <= events.len(),
        ran(init_plan(), events.take(n), outcome),
    ensures
        0 < n <= 9,
        ({
            let requests = seq![
                Request::Import { module: "asyncio"@ },
                Request::CallMethod {
                    object: events[0]->reply->Ok_0,
                    name: "get_event_loop"@,
                    args: seq![],
                },
                Request::Import { module: "concurrent.futures.thread"@ },
                Request::GetAttr {
                    object: events[2]->reply->Ok_0,
                    name: "ThreadPoolExecutor"@,
                },
                Request::Call { callable: events[3]->reply->Ok_0, args: seq![] },
                Request::CallMethod {
                    object: events[1]->reply->Ok_0,
                    name: "set_default_executor"@,
                    args: seq![events[4]->reply->Ok_0],
                },
                Request::GetAttr {
                    object: events[1]->reply->Ok_0,
                    name: "call_soon_threadsafe"@,
                },
                Request::GetAttr {
                    object: events[0]->reply->Ok_0,
                    name: "run_coroutine_threadsafe"@,
                },
                Request::GetAttr { object: events[1]->reply->Ok_0, name: "create_future"@ },
            ];
            forall|i: int|
                0 <= i < n ==> #[trigger] events[i] is Asked && events[i]->request == requests[i]
        }),
        forall|i: int| 0 <= i < n - 1 ==> (#[trigger] events[i])->reply is Ok,
        match outcome {
            Ok(given) => {
                &&& n == 9
                &&& events[8]->reply is Ok
                &&& given.len() == 9
                &&& forall|i: int| 0 <= i < 9 ==> #[trigger] given[i] == events[i]->reply->Ok_0
            },
            Err(err) => events[n - 1]->reply == Err::<PyObject, _>(err),
        },
{
    let opening = events.take(n);
    let settled_part = if outcome is Ok {
        opening
    } else {
        opening.drop_last()
    };
    let requests = seq![
        Request::Import { module: "asyncio"@ },
        Request::CallMethod {
            object: events[0]->reply->Ok_0,
            name: "get_event_loop"@,
            args: seq![],
        },
        Request::Import { module: "concurrent.futures.thread"@ },
        Request::GetAttr {
            object: events[2]->reply->Ok_0,
            name: "ThreadPoolExecutor"@,
        },
        Request::Call { callable: events[3]->reply->Ok_0, args: seq![] },
        Request::CallMethod {
            object: events[1]->reply->Ok_0,
            name: "set_default_executor"@,
            args: seq![events[4]->reply->Ok_0],
        },
        Request::GetAttr {
            object: events[1]->reply->Ok_0,
            name: "call_soon_threadsafe"@,
        },
        Request::GetAttr {
            object: events[0]->reply->Ok_0,
            name: "run_coroutine_threadsafe"@,
        },
        Request::GetAttr { object: events[1]->reply->Ok_0, name: "create_future"@ },
    ];
    match outcome {
        Ok(given) => {
            lemma_init_len(opening, given);
            assert(answered(opening[8]));
        },
        Err(err) => {
            law_failed_opening_is_short(opening, err);
        },
    }
    assert forall|i: int| 0 <= i < n - 1 implies (#[trigger] events[i])->reply is Ok by {
        law_failure_is_final(init_plan(), opening, outcome, i);
        assert(opening[i] == events[i]);
    }
    assert forall|i: int| 0 <= i < n implies #[trigger] events[i] is Asked && events[i]->request
        == requests[i] by {
        let given = answers(settled_part).take(i);
        assert(opening[i] == events[i]);
        if i < settled_part.len() {
            assert(answered(settled_part[i]));
            assert(settled_part[i] == events[i]);
        } else {
            assert(given =~= answers(settled_part));
        }
        assert(asks(init_plan(), given, events[i]));
        assert forall|j: int| 0 <= j < i implies #[trigger] given[j] == events[j]->reply->Ok_0 by {
            assert(settled_part[j] == events[j]);
        }
        assert(i == 0 || i == 1 || i == 2 || i == 3 || i == 4 || i == 5 || i == 6 || i == 7 || i
            == 8);
    }
}

/// Where the events end with the run of a closing, these are its requests, in full.
proof fn lemma_closing(
    handles: Handles,
    events: Seq<Event>,
    start: int,
    outcome: PyResult<Seq<PyObject>>,
)
    requires
        0 <= start <= events.len(),
        ran(close_plan(handles), events.skip(start), outcome),
    ensures
        start < events.len() <= start + 3,
        ({
            let requests = seq![
                Request::CallMethod { object: handles.executor, name: "shutdown"@, args: seq![] },
                Request::CallMethod { object: handles.event_loop, name: "stop"@, args: seq![] },
                Request::CallMethod { object: handles.event_loop, name: "close"@, args: seq![] },
            ];
            forall|i: int|
                start <= i < events.len() ==> #[trigger] events[i] is Asked && events[i]->request
                    == requests[i - start]
        }),
        forall|i: int| start <= i < events.len() - 1 ==> (#[trigger] events[i])->reply is Ok,
        match outcome {
            Ok(_) => events.len() == start + 3 && events.last()->reply is Ok,
            Err(err) => events.last()->reply == Err::<PyObject, _>(err),
        },
{
    let closing = events.skip(start);
    let settled_part = if outcome is Ok {
        closing
    } else {
        closing.drop_last()
    };
    let requests = seq![
        Request::CallMethod { object: handles.executor, name: "shutdown"@, args: seq![] },
        Request::CallMethod { object: handles.event_loop, name: "stop"@, args: seq![] },
        Request::CallMethod { object: handles.event_loop, name: "close"@, args: seq![] },
    ];
    if settled_part.len() >= 3 {
        assert(answered(settled_part[2]));
    }
    if settled_part.len() > 3 {
        assert(answered(settled_part[3]));
    }
    assert forall|i: int| start <= i < events.len() - 1 implies (#[trigger] events[i])->reply
        is Ok by {
        law_failure_is_final(close_plan(handles), closing, outcome, i - start);
        assert(closing[i - start] == events[i]);
    }
    assert forall|i: int| start <= i < events.len() implies #[trigger] events[i] is Asked
        && events[i]->request == requests[i - start] by {
        let k = i - start;
        let given = answers(settled_part).take(k);
        assert(closing[k] == events[i]);
        if k < settled_part.len() {
            assert(answered(settled_part[k]));
            assert(settled_part[k] == events[i]);
        } else {
            assert(given =~= answers(settled_part));
        }
        assert(asks(close_plan(handles), given, events[i]));
        assert(k == 0 || k == 1 || k == 2);
    }
}

/// An initialization asks for nine things and no tenth: for `asyncio` and its event loop, for a
/// new `ThreadPoolExecutor`, which is given to the event loop and to nobody else, and for the
/// three functions that are kept. Each request waits for an answer to the one before, and the
/// first that fails is the last and decides the result. What is kept is what was answered, unless
/// an earlier initialization has left its own.
pub proof fn law_initialization(
    py: &mut Session<'_>,
    globals: &mut Globals,
    result: PyResult<()>,
)
    requires
        call_ensures(try_init, (py, globals), result),
    ensures
        old(py)@.is_prefix_of(final(py)@),
        ({
            let events = final(py)@.skip(old(py)@.len() as int);
            let requests = seq![
                Request::Import { module: "asyncio"@ },
                Request::CallMethod {
                    object: events[0]->reply->Ok_0,
                    name: "get_event_loop"@,
                    args: seq![],
                },
                Request::Import { module: "concurrent.futures.thread"@ },
                Request::GetAttr {
                    object: events[2]->reply->Ok_0,
                    name: "ThreadPoolExecutor"@,
                },
                Request::Call { callable: events[3]->reply->Ok_0, args: seq![] },
                Request::CallMethod {
                    object: events[1]->reply->Ok_0,
                    name: "set_default_executor"@,
                    args: seq![events[4]->reply->Ok_0],
                },
                Request::GetAttr {
                    object: events[1]->reply->Ok_0,
                    name: "call_soon_threadsafe"@,
                },
                Request::GetAttr {
                    object: events[0]->reply->Ok_0,
                    name: "run_coroutine_threadsafe"@,
                },
                Request::GetAttr { object: events[1]->reply->Ok_0, name: "create_future"@ },
            ];
            &&& 0 < events.len() <= 9
            &&& forall|i: int|
                0 <= i < events.len() ==> #[trigger] events[i] is Asked && events[i]->request
                    == requests[i]
            &&& forall|i: int| 0 <= i < events.len() - 1 ==> (#[trigger] events[i])->reply is Ok
            &&& match result {
                Ok(_) => {
                    &&& events.len() == 9
                    &&& events[8]->reply is Ok
                    &&& final(globals)@ == Some(
                        match old(globals)@ {
                            Some(held) => held,
                            None => Handles {
                                asyncio: events[0]->reply->Ok_0,
                                event_loop: events[1]->reply->Ok_0,
                                executor: events[4]->reply->Ok_0,
                                call_soon: events[6]->reply->Ok_0,
                                create_task: events[7]->reply->Ok_0,
                                create_future: events[8]->reply->Ok_0,
                            },
                        },
                    )
                },
                Err(err) => {
                    &&& events.last()->reply == Err::<PyObject, _>(err)
                    &&& final(globals)@ == old(globals)@
                },
            }
        }),
{
    let events = final(py)@.skip(old(py)@.len() as int);
    assert(events.take(events.len() as int) =~= events);
    lemma_opening(events, events.len() as int, outcome(events, result));
}

/// Closing asks for three things and no fourth: the executor shuts down, the event loop stops, and
/// the event loop closes. Each waits for the one before, and the first that fails is the last and
/// decides the result.
pub proof fn law_closing(py: &mut Session<'_>, globals: &Globals, result: PyResult<()>)
    requires
        call_ensures(try_close, (py, globals), result),
    ensures
        old(py)@.is_prefix_of(final(py)@),
        ({
            let events = final(py)@.skip(old(py)@.len() as int);
            let requests = seq![
                Request::CallMethod {
                    object: globals@->0.executor,
                    name: "shutdown"@,
                    args: seq![],
                },
                Request::CallMethod { object: globals@->0.event_loop, name: "stop"@, args: seq![] },
                Request::CallMethod {
                    object: globals@->0.event_loop,
                    name: "close"@,
                    args: seq![],
                },
            ];
            &&& 0 < events.len() <= 3
            &&& forall|i: int|
                0 <= i < events.len() ==> #[trigger] events[i] is Asked && events[i]->request
                    == requests[i]
            &&& forall|i: int| 0 <= i < events.len() - 1 ==> (#[trigger] events[i])->reply is Ok
            &&& match result {
                Ok(_) => events.len() == 3 && events[2]->reply is Ok,
                Err(err) => events.last()->reply == Err::<PyObject, _>(err),
            }
        }),
{
    let events = final(py)@.skip(old(py)@.len() as int);
    assert(events.skip(0) =~= events);
    lemma_closing(globals@->0, events, 0, outcome(events, result));
}

/// The event loop is the one that the initialization found.
pub proof fn law_event_loop(globals: &Globals, event_loop: &PyObject)
    requires
        call_ensures(get_event_loop, (globals,), event_loop),
    ensures
        *event_loop == globals@->0.event_loop,
{
}

/// Running the event loop asks for that and for nothing else, neither before nor after: if the
/// loop was stopped, the run is a success, and if it ended with an exception, the exception is
/// tested for being an interrupt from the keyboard and is the result if it is none.
pub proof fn law_running_forever(py: &mut Session<'_>, globals: &Globals, result: PyResult<()>)
    requires
        call_ensures(run_forever, (py, globals), result),
    ensures
        old(py)@.is_prefix_of(final(py)@),
        ({
            let events = final(py)@.skip(old(py)@.len() as int);
            &&& events.len() > 0
            &&& events[0] is Asked
            &&& events[0]->request == (Request::CallMethod {
                object: globals@->0.event_loop,
                name: "run_forever"@,
                args: seq![],
            })
            &&& match events[0]->reply {
                Ok(_) => events.len() == 1 && result is Ok,
                Err(err) => {
                    &&& events.len() == 2
                    &&& events[1] == (Event::TestedInterrupt { err, interrupt: result is Ok })
                    &&& result is Err ==> result->Err_0 == err
                },
            }
        }),
{
    let events = final(py)@.skip(old(py)@.len() as int);
    if events.len() > 1 {
        assert(events.skip(1)[0] == events[1]);
    }
}

/// A run that was answered is a success and nothing is asked about it; one that failed is a
/// success exactly if its exception tests as an interrupt, and fails with that exception
/// otherwise.
pub proof fn law_settling(
    py: &mut Session<'_>,
    reply: PyResult<PyObject>,
    result: PyResult<()>,
)
    requires
        call_ensures(settle, (py, reply), result),
    ensures
        match reply {
            Ok(_) => final(py)@ == old(py)@ && result is Ok,
            Err(err) => {
                &&& final(py)@ == old(py)@.push(
                    Event::TestedInterrupt { err, interrupt: result is Ok },
                )
                &&& result is Err ==> result->Err_0 == err
            },
        },
{
}

/// A function runs in a runtime that was opened for it and is closed after it, and nothing else
/// happens: nine requests open it, the function is called once and with the state that they led
/// to, and three requests close it. It is called exactly if all nine were answered, and the
/// closing begins exactly if it succeeded. The first failure, be it of a request or of the
/// function, is the end and the result; without one, the result is what the function returned.
pub proof fn law_runtime<R, F: FnOnce(&Globals) -> PyResult<R>>(
    py: &mut Session<'_>,
    globals: &mut Globals,
    f: Handoff<F>,
    result: PyResult<R>,
)
    requires
        call_ensures(with_runtime::<R, F>, (py, globals, f), result),
    ensures
        old(py)@.is_prefix_of(final(py)@),
        ({
            let events = final(py)@.skip(old(py)@.len() as int);
            let held = final(globals)@->0;
            let opened = events.len() >= 9 && events[8] is Asked && events[8]->reply is Ok;
            let opening = seq![
                Request::Import { module: "asyncio"@ },
                Request::CallMethod {
                    object: events[0]->reply->Ok_0,
                    name: "get_event_loop"@,
                    args: seq![],
                },
                Request::Import { module: "concurrent.futures.thread"@ },
                Request::GetAttr {
                    object: events[2]->reply->Ok_0,
                    name: "ThreadPoolExecutor"@,
                },
                Request::Call { callable: events[3]->reply->Ok_0, args: seq![] },
                Request::CallMethod {
                    object: events[1]->reply->Ok_0,
                    name: "set_default_executor"@,
                    args: seq![events[4]->reply->Ok_0],
                },
                Request::GetAttr {
                    object: events[1]->reply->Ok_0,
                    name: "call_soon_threadsafe"@,
                },
                Request::GetAttr {
                    object: events[0]->reply->Ok_0,
                    name: "run_coroutine_threadsafe"@,
                },
                Request::GetAttr { object: events[1]->reply->Ok_0, name: "create_future"@ },
            ];
            let closing = seq![
                Request::CallMethod { object: held.executor, name: "shutdown"@, args: seq![] },
                Request::CallMethod { object: held.event_loop, name: "stop"@, args: seq![] },
                Request::CallMethod { object: held.event_loop, name: "close"@, args: seq![] },
            ];
            &&& 0 < events.len() <= 13
            &&& forall|i: int|
                0 <= i < 9 && i < events.len() ==> #[trigger] events[i] is Asked
                    && events[i]->request == opening[i]
            &&& events.len() > 9 ==> events[9] == Event::Callback
            &&& forall|i: int|
                10 <= i < events.len() ==> #[trigger] events[i] is Asked && events[i]->request
                    == closing[i - 10]
            &&& forall|i: int|
                0 <= i < events.len() - 1 && #[trigger] events[i] is Asked ==> events[i]->reply
                    is Ok
            &&& final(globals)@ == match old(globals)@ {
                Some(held) => Some(held),
                None => if opened {
                    Some(
                        Handles {
                            asyncio: events[0]->reply->Ok_0,
                            event_loop: events[1]->reply->Ok_0,
                            executor: events[4]->reply->Ok_0,
                            call_soon: events[6]->reply->Ok_0,
                            create_task: events[7]->reply->Ok_0,
                            create_future: events[8]->reply->Ok_0,
                        },
                    )
                } else {
                    None
                },
            }
            &&& opened <==> events.len() > 9
            &&& !opened ==> result is Err && events.last()->reply == Err::<PyObject, _>(
                result->Err_0,
            )
            &&& opened ==> exists|body: PyResult<R>|
                {
                    &&& #[trigger] call_ensures(f.closure(), (&*final(globals),), body)
                    &&& match body {
                        Err(err) => events.len() == 10 && result == Err::<R, _>(err),
                        Ok(value) => {
                            &&& events.len() > 10
                            &&& match result {
                                Ok(returned) => {
                                    &&& returned == value
                                    &&& events.len() == 13
                                    &&& events[12]->reply is Ok
                                },
                                Err(err) => events.last()->reply == Err::<PyObject, _>(err),
                            }
                        },
                    }
                }
        }),
{
    let events = final(py)@.skip(old(py)@.len() as int);
    let after = *final(globals);
    if exists|body: PyResult<R>|
        {
            &&& #[trigger] call_ensures(f.closure(), (&after,), body)
            &&& wrapped(old(globals)@, events, after@, body, result)
        } {
        let body = choose|body: PyResult<R>|
            {
                &&& #[trigger] call_ensures(f.closure(), (&after,), body)
                &&& wrapped(old(globals)@, events, after@, body, result)
            };
        lemma_opening(events, 9, Ok(answers(events.take(9))));
        if body is Ok {
            lemma_closing(after@->0, events, 10, outcome(events.skip(10), result));
        }
    } else {
        assert(events.take(events.len() as int) =~= events);
        lemma_opening(events, events.len() as int, Err(result->Err_0));
    }
}

/// A suite is run in a runtime that was opened for it and is closed after it, and nothing else
/// happens: nine requests open it, the suite is prepared with the state that they led to, a
/// Python future is made for it, the suite is spawned with that future, the event loop runs until
/// that future is done, and three requests close the runtime. Each of these comes exactly if all
/// before it succeeded, and the first failure is the end and the result.
pub proof fn law_suite<
    S: FnOnce((&Globals, PyObject, PyObject)),
    P: FnOnce(&Globals) -> Handoff<S>,
>(
    py: &mut Session<'_>,
    globals: &mut Globals,
    prepare: Handoff<P>,
    result: PyResult<()>,
)
    requires
        call_ensures(test_main::<S, P>, (py, globals, prepare), result),
    ensures
        old(py)@.is_prefix_of(final(py)@),
        ({
            let events = final(py)@.skip(old(py)@.len() as int);
            let held = final(globals)@->0;
            let opened = events.len() >= 9 && events[8] is Asked && events[8]->reply is Ok;
            let future = events[10]->reply->Ok_0;
            let opening = seq![
                Request::Import { module: "asyncio"@ },
                Request::CallMethod {
                    object: events[0]->reply->Ok_0,
                    name: "get_event_loop"@,
                    args: seq![],
                },
                Request::Import { module: "concurrent.futures.thread"@ },
                Request::GetAttr {
                    object: events[2]->reply->Ok_0,
                    name: "ThreadPoolExecutor"@,
                },
                Request::Call { callable: events[3]->reply->Ok_0, args: seq![] },
                Request::CallMethod {
                    object: events[1]->reply->Ok_0,
                    name: "set_default_executor"@,
                    args: seq![events[4]->reply->Ok_0],
                },
                Request::GetAttr {
                    object: events[1]->reply->Ok_0,
                    name: "call_soon_threadsafe"@,
                },
                Request::GetAttr {
                    object: events[0]->reply->Ok_0,
                    name: "run_coroutine_threadsafe"@,
                },
                Request::GetAttr { object: events[1]->reply->Ok_0, name: "create_future"@ },
            ];
            let closing = seq![
                Request::CallMethod { object: held.executor, name: "shutdown"@, args: seq![] },
                Request::CallMethod { object: held.event_loop, name: "stop"@, args: seq![] },
                Request::CallMethod { object: held.event_loop, name: "close"@, args: seq![] },
            ];
            &&& 0 < events.len() <= 16
            &&& forall|i: int|
                0 <= i < 9 && i < events.len() ==> #[trigger] events[i] is Asked
                    && events[i]->request == opening[i]
            &&& events.len() > 9 ==> events[9] == Event::Callback
            &&& events.len() > 10 ==> events[10] is Asked && events[10]->request == (
            Request::Call { callable: held.create_future, args: seq![] })
            &&& events.len() > 11 ==> events[11] == Event::Callback
            &&& events.len() > 12 ==> events[12] is Asked && events[12]->request == (
            Request::CallMethod {
                object: held.event_loop,
                name: "run_until_complete"@,
                args: seq![future],
            })
            &&& forall|i: int|
                13 <= i < events.len() ==> #[trigger] events[i] is Asked && events[i]->request
                    == closing[i - 13]
            &&& forall|i: int|
                0 <= i < events.len() - 1 && #[trigger] events[i] is Asked ==> events[i]->reply
                    is Ok
            &&& final(globals)@ == match old(globals)@ {
                Some(held) => Some(held),
                None => if opened {
                    Some(
                        Handles {
                            asyncio: events[0]->reply->Ok_0,
                            event_loop: events[1]->reply->Ok_0,
                            executor: events[4]->reply->Ok_0,
                            call_soon: events[6]->reply->Ok_0,
                            create_task: events[7]->reply->Ok_0,
                            create_future: events[8]->reply->Ok_0,
                        },
                    )
                } else {
                    None
                },
            }
            &&& events.last() is Asked
            &&& match result {
                Ok(_) => events.len() == 16 && events[15]->reply is Ok,
                Err(err) => events.last()->reply == Err::<PyObject, _>(err),
            }
            &&& opened <==> events.len() > 10
            &&& opened ==> exists|spawn: Handoff<S>|
                {
                    &&& #[trigger] call_ensures(prepare.closure(), (&*final(globals),), spawn)
                    &&& events.len() > 11 ==> call_ensures(
                        spawn.closure(),
                        ((&*final(globals), future, future),),
                        (),
                    )
                }
        }),
{
    let events = final(py)@.skip(old(py)@.len() as int);
    let after = *final(globals);
    let before = old(globals)@;
    if exists|spawn: Handoff<S>, end: int, body: PyResult<()>|
        {
            &&& call_ensures(prepare.closure(), (&after,), spawn)
            &&& #[trigger] bracketed(before, spawn, events, after, end, body, result)
        } {
        let (spawn, end, body) = choose|spawn: Handoff<S>, end: int, body: PyResult<()>|
            {
                &&& call_ensures(prepare.closure(), (&after,), spawn)
                &&& #[trigger] bracketed(before, spawn, events, after, end, body, result)
            };
        let run = events.subrange(10, end);
        lemma_opening(events, 9, Ok(answers(events.take(9))));
        law_spawned_before_the_loop_runs(after, spawn.closure(), run, body);
        assert(forall|i: int| 10 <= i < end ==> #[trigger] events[i] == run[i - 10]);
        if body is Ok {
            lemma_closing(after@->0, events, end, outcome(events.skip(end), result));
        }
    } else {
        assert(events.take(events.len() as int) =~= events);
        lemma_opening(events, events.len() as int, Err(result->Err_0));
    }
}

/// A converted future is left for its Rust future to settle: a new future is asked of the event
/// loop, `spawn` is called with it, and that is all. Neither of the future nor of the event loop
/// is anything else asked. Without a new future, not even `spawn` is called.
pub proof fn law_conversion<S: FnOnce((&Globals, PyObject, PyObject))>(
    py: &mut Session<'_>,
    globals: &Globals,
    spawn: Handoff<S>,
    result: PyResult<PyObject>,
)
    requires
        call_ensures(into_coroutine::<S>, (py, globals, spawn), result),
    ensures
        ({
            let made = Event::Asked {
                request: Request::Call { callable: globals@->0.create_future, args: seq![] },
                reply: result,
            };
            match result {
                Ok(future) => {
                    &&& final(py)@ == old(py)@ + seq![made, Event::Callback]
                    &&& call_ensures(spawn.closure(), ((globals, future, future),), ())
                },
                Err(_) => final(py)@ == old(py)@ + seq![made],
            }
        }),
{
}

/// Running to completion spawns the Rust future with a new Python future and then has the event
/// loop run until that very future is done; nothing else is asked of either. The result is a
/// success exactly if the run is one, and the error of the first step that failed otherwise.
pub proof fn law_completion<S: FnOnce((&Globals, PyObject, PyObject))>(
    py: &mut Session<'_>,
    globals: &Globals,
    spawn: Handoff<S>,
    result: PyResult<()>,
)
    requires
        call_ensures(run_until_complete::<S>, (py, globals, spawn), result),
    ensures
        old(py)@.is_prefix_of(final(py)@),
        ({
            let events = final(py)@.skip(old(py)@.len() as int);
            let reply = events[0]->reply;
            &&& events.len() > 0
            &&& events[0] == (Event::Asked {
                request: Request::Call { callable: globals@->0.create_future, args: seq![] },
                reply,
            })
            &&& match reply {
                Err(err) => events.len() == 1 && result == Err::<(), _>(err),
                Ok(future) => {
                    &&& events.len() == 3
                    &&& events[1] == Event::Callback
                    &&& call_ensures(spawn.closure(), ((globals, future, future),), ())
                    &&& events[2] is Asked
                    &&& events[2]->request == (Request::CallMethod {
                        object: globals@->0.event_loop,
                        name: "run_until_complete"@,
                        args: seq![future],
                    })
                    &&& match result {
                        Ok(_) => events[2]->reply is Ok,
                        Err(err) => events[2]->reply == Err::<PyObject, _>(err),
                    }
                },
            }
        }),
{
    let events = final(py)@.skip(old(py)@.len() as int);
    law_spawned_before_the_loop_runs(*globals, spawn.closure(), events, result);
}

/// A value is delivered by taking the future's `set_result` and having the event loop call it
/// with the value, an error by taking its `set_exception` and having the event loop call it with
/// the exception made of the error. Nothing else is asked, and no method of the future is called
/// on the way. The result is the failure of the step that failed, if any did.
pub proof fn law_delivery(
    py: &mut Session<'_>,
    globals: &Globals,
    future: &PyObject,
    outcome: PyResult<PyObject>,
    result: PyResult<()>,
)
    requires
        call_ensures(set_result, (py, globals, future, outcome), result),
    ensures
        old(py)@.is_prefix_of(final(py)@),
        ({
            let events = final(py)@.skip(old(py)@.len() as int);
            let setter = events[0]->reply->Ok_0;
            &&& events.len() > 0
            &&& events[0] is Asked
            &&& events[0]->request == (Request::GetAttr {
                object: *future,
                name: if outcome is Ok {
                    "set_result"@
                } else {
                    "set_exception"@
                },
            })
            &&& events[0]->reply is Err ==> events.len() == 1
            &&& events[0]->reply is Ok ==> {
                &&& events.last() is Asked
                &&& match outcome {
                    Ok(value) => {
                        &&& events.len() == 2
                        &&& events[1]->request == (Request::Call {
                            callable: globals@->0.call_soon,
                            args: seq![setter, value],
                        })
                    },
                    Err(err) => {
                        &&& events.len() == 3
                        &&& events[1] is IntoInstance
                        &&& events[1]->IntoInstance_err == err
                        &&& events[2]->request == (Request::Call {
                            callable: globals@->0.call_soon,
                            args: seq![setter, events[1]->IntoInstance_instance],
                        })
                    },
                }
            }
            &&& match result {
                Ok(_) => events.len() > 1 && events.last()->reply is Ok,
                Err(err) => events.last()->reply == Err::<PyObject, _>(err),
            }
        }),
{
}

/// A task ended in a panic exactly if it did not join and its error says so.
pub proof fn law_panic_is_as_reported<J: JoinError>(joined: &Result<(), J>, panic: bool)
    requires
        call_ensures(panicked::<J>, (joined,), panic),
    ensures
        match joined {
            Ok(_) => !panic,
            Err(err) => call_ensures(J::is_panic, (err,), panic),
        },
{
}

/// A panic is delivered as any error is, as an `Exception` that says so and is made first.
pub proof fn law_panic_delivery(
    py: &mut Session<'_>,
    globals: &Globals,
    future: &PyObject,
    result: PyResult<()>,
)
    requires
        call_ensures(set_panicked, (py, globals, future), result),
    ensures
        old(py)@.is_prefix_of(final(py)@),
        ({
            let events = final(py)@.skip(old(py)@.len() as int);
            &&& events.len() > 1
            &&& events[0] is MadeException
            &&& events[0]->message == "rust future panicked"@
            &&& events[1] is Asked
            &&& events[1]->request == (Request::GetAttr {
                object: *future,
                name: "set_exception"@,
            })
            &&& events[1]->reply is Err ==> events.len() == 2
            &&& events[1]->reply is Ok ==> {
                &&& events.len() == 4
                &&& events[2] is IntoInstance
                &&& events[2]->IntoInstance_err == events[0]->MadeException_err
                &&& events[3] is Asked
                &&& events[3]->request == (Request::Call {
                    callable: globals@->0.call_soon,
                    args: seq![events[1]->reply->Ok_0, events[2]->IntoInstance_instance],
                })
            }
            &&& match result {
                Ok(_) => events.len() == 4 && events[3]->reply is Ok,
                Err(err) => events.last()->reply == Err::<PyObject, _>(err),
            }
        }),
{
    let events = final(py)@.skip(old(py)@.len() as int);
    let delivery = events.skip(1);
    assert(forall|i: int| 1 <= i < events.len() ==> #[trigger] events[i] == delivery[i - 1]);
}

/// A future that yields no value yields `None` to Python, and an error as it is.
pub proof fn law_no_value_is_none(
    py: &mut Session<'_>,
    outcome: PyResult<()>,
    result: PyResult<PyObject>,
)
    requires
        call_ensures(unit_outcome, (py, outcome), result),
    ensures
        match outcome {
            Ok(_) => {
                &&& result is Ok
                &&& final(py)@ == old(py)@.push(Event::TookNone { object: result->Ok_0 })
            },
            Err(err) => result == Err::<PyObject, _>(err) && final(py)@ == old(py)@,
        },
{
}

/// A coroutine is submitted to the event loop, the completer of a new channel is made into a
/// callback, the callback is added to the task, and that is all: no method of the task is called
/// but `add_done_callback`, and nothing is sent. The result is the other end of the completer's
/// channel, or the error of the step that failed; a coroutine that is not taken has no callback
/// made for it.
pub proof fn law_submission<F: FnOnce(PyTaskCompleter) -> PyObject>(
    py: &mut Session<'_>,
    globals: &Globals,
    coro: &PyObject,
    wrap: Handoff<F>,
    result: PyResult<Receiver<PyResult<PyObject>>>,
)
    requires
        call_ensures(into_future::<F>, (py, globals, coro, wrap), result),
    ensures
        old(py)@.is_prefix_of(final(py)@),
        ({
            let events = final(py)@.skip(old(py)@.len() as int);
            let reply = events[0]->reply;
            &&& events.len() > 0
            &&& events[0] == (Event::Asked {
                request: Request::Call {
                    callable: globals@->0.create_task,
                    args: seq![*coro, globals@->0.event_loop],
                },
                reply,
            })
            &&& match reply {
                Err(err) => {
                    &&& events.len() == 1
                    &&& result == Err::<Receiver<PyResult<PyObject>>, _>(err)
                },
                Ok(task) => exists|completer: PyTaskCompleter, callback: PyObject|
                    {
                        &&& #[trigger] call_ensures(wrap.closure(), (completer,), callback)
                        &&& completer@ is Some
                        &&& events.len() == 3
                        &&& events[1] == Event::Callback
                        &&& events[2] is Asked
                        &&& events[2]->request == (Request::CallMethod {
                            object: task,
                            name: "add_done_callback"@,
                            args: seq![callback],
                        })
                        &&& match result {
                            Ok(rx) => events[2]->reply is Ok && connected(completer@->0, rx),
                            Err(err) => events[2]->reply == Err::<PyObject, _>(err),
                        }
                    },
            }
        }),
{
}

/// A completer asks its task for the result and nothing else, sends what came back, be it a value
/// or an exception, into its channel, and has no channel left. Without a channel it only asks.
pub proof fn law_completer(
    completer: &mut PyTaskCompleter,
    py: &mut Session<'_>,
    task: &PyObject,
    result: PyResult<()>,
)
    requires
        call_ensures(PyTaskCompleter::__call__, (completer, py, task), result),
    ensures
        result is Ok,
        final(completer)@ is None,
        old(py)@.is_prefix_of(final(py)@),
        ({
            let events = final(py)@.skip(old(py)@.len() as int);
            &&& events.len() > 0
            &&& events[0] is Asked
            &&& events[0]->request == (Request::CallMethod {
                object: *task,
                name: "result"@,
                args: seq![],
            })
            &&& match old(completer)@ {
                Some(tx) => {
                    &&& events.len() == 2
                    &&& events[1] is Sent
                    &&& events[1]->tx == tx
                    &&& events[1]->item == events[0]->reply
                },
                None => events.len() == 1,
            }
        }),
{
}

/// A task is asked once whether it is done, and the answer is read as a truth value; what cannot
/// be asked or read is the error.
pub proof fn law_done(py: &mut Session<'_>, task: &PyObject, done: PyResult<bool>)
    requires
        call_ensures(is_done, (py, task), done),
    ensures
        old(py)@.is_prefix_of(final(py)@),
        ({
            let events = final(py)@.skip(old(py)@.len() as int);
            &&& events.len() > 0
            &&& events[0] is Asked
            &&& events[0]->request == (Request::CallMethod {
                object: *task,
                name: "done"@,
                args: seq![],
            })
            &&& match events[0]->reply {
                Ok(object) => {
                    &&& events.len() == 2
                    &&& events[1] == Event::ReadBool { object, value: done }
                },
                Err(err) => events.len() == 1 && done == Err::<bool, _>(err),
            }
        }),
{
}

/// A future yields what its channel yields, without asking for anything. Where the channel was
/// cancelled, it fails with a new `CancelledError`, or else with the error that kept it from being
/// made.
pub proof fn law_resumption(
    py: &mut Session<'_>,
    globals: &Globals,
    received: Result<PyResult<PyObject>, Canceled>,
    result: PyResult<PyObject>,
)
    requires
        call_ensures(resume, (py, globals, received), result),
    ensures
        old(py)@.is_prefix_of(final(py)@),
        ({
            let events = final(py)@.skip(old(py)@.len() as int);
            match received {
                Ok(item) => final(py)@ == old(py)@ && result == item,
                Err(_) => {
                    &&& events.len() > 0
                    &&& events[0] is Asked
                    &&& events[0]->request == (Request::CallMethod {
                        object: globals@->0.asyncio,
                        name: "CancelledError"@,
                        args: seq![],
                    })
                    &&& result is Err
                    &&& match events[0]->reply {
                        Ok(instance) => {
                            &&& events.len() == 2
                            &&& events[1] == (Event::FromInstance { instance, err: result->Err_0 })
                        },
                        Err(err) => events.len() == 1 && result->Err_0 == err,
                    }
                },
            }
        }),
{
}

/// What a coroutine comes to is what awaiting it yields: once the event loop has called the
/// completer with the task that the coroutine became, and the channel has yielded what was sent
/// into it, the result is the task's own, value for value and exception for exception. Of the
/// task nothing is asked on the way but its result.
pub proof fn law_awaiting_yields_the_result<F: FnOnce(PyTaskCompleter) -> PyObject>(
    submission: &mut Session<'_>,
    globals: &Globals,
    coro: &PyObject,
    wrap: Handoff<F>,
    rx: Receiver<PyResult<PyObject>>,
    completer: &mut PyTaskCompleter,
    completion: &mut Session<'_>,
    task: &PyObject,
    called: PyResult<()>,
    resumption: &mut Session<'_>,
    result: PyResult<PyObject>,
)
    requires
        call_ensures(into_future::<F>, (submission, globals, coro, wrap), Ok(rx)),
        final(submission)@[old(submission)@.len() as int]->reply == Ok::<_, PyErr>(*task),
        old(completer)@ is Some,
        connected(old(completer)@->0, rx),
        call_ensures(PyTaskCompleter::__call__, (completer, completion, task), called),
        // The channel yields what was sent into it.
        call_ensures(
            resume,
            (resumption, globals, Ok(final(completion)@.last()->item)),
            result,
        ),
    ensures
        final(submission)@[old(submission)@.len() as int] == (Event::Asked {
            request: Request::Call {
                callable: globals@->0.create_task,
                args: seq![*coro, globals@->0.event_loop],
            },
            reply: Ok(*task),
        }),
        final(completion)@ == old(completion)@ + seq![
            Event::Asked {
                request: Request::CallMethod { object: *task, name: "result"@, args: seq![] },
                reply: result,
            },
            Event::Sent {
                tx: old(completer)@->0,
                item: result,
                taken: final(completion)@.last()->taken,
            },
        ],
        final(resumption)@ == old(resumption)@,
{
    law_submission(submission, globals, coro, wrap, Ok(rx));
    law_completer(completer, completion, task, called);
    law_resumption(resumption, globals, Ok(final(completion)@.last()->item), result);
    let submitted = final(submission)@.skip(old(submission)@.len() as int);
    let events = final(completion)@.skip(old(completion)@.len() as int);
    assert(submitted[0] == final(submission)@[old(submission)@.len() as int]);
    assert(events.last() == final(completion)@.last());
    assert(final(completion)@ =~= old(completion)@ + events);
}

/// What a Rust future comes to is what awaiting it in Python yields: the Python future is new,
/// nothing settles it in the conversion, and the delivery of an outcome has the event loop call
/// its `set_result` with the value, or its `set_exception` with the exception made of the error,
/// and does nothing else.
pub proof fn law_awaitable_is_settled_with_the_outcome<
    S: FnOnce((&Globals, PyObject, PyObject)),
>(
    conversion: &mut Session<'_>,
    globals: &Globals,
    spawn: Handoff<S>,
    future: PyObject,
    delivery: &mut Session<'_>,
    outcome: PyResult<PyObject>,
)
    requires
        call_ensures(into_coroutine::<S>, (conversion, globals, spawn), Ok(future)),
        call_ensures(set_result, (delivery, globals, &future, outcome), Ok(())),
    ensures
        final(conversion)@ == old(conversion)@ + seq![
            Event::Asked {
                request: Request::Call { callable: globals@->0.create_future, args: seq![] },
                reply: Ok(future),
            },
            Event::Callback,
        ],
        match outcome {
            Ok(value) => exists|setter: PyObject, handle: PyObject|
                final(delivery)@ == old(delivery)@ + #[trigger] seq![
                    Event::Asked {
                        request: Request::GetAttr { object: future, name: "set_result"@ },
                        reply: Ok(setter),
                    },
                    Event::Asked {
                        request: Request::Call {
                            callable: globals@->0.call_soon,
                            args: seq![setter, value],
                        },
                        reply: Ok(handle),
                    },
                ],
            Err(err) => exists|setter: PyObject, instance: PyObject, handle: PyObject|
                final(delivery)@ == old(delivery)@ + #[trigger] seq![
                    Event::Asked {
                        request: Request::GetAttr { object: future, name: "set_exception"@ },
                        reply: Ok(setter),
                    },
                    Event::IntoInstance { err, instance },
                    Event::Asked {
                        request: Request::Call {
                            callable: globals@->0.call_soon,
                            args: seq![setter, instance],
                        },
                        reply: Ok(handle),
                    },
                ],
        },
{
    law_conversion(conversion, globals, spawn, Ok(future));
    law_delivery(delivery, globals, &future, outcome, Ok(()));
    let events = final(delivery)@.skip(old(delivery)@.len() as int);
    let setter = events[0]->reply->Ok_0;
    let handle = events.last()->reply->Ok_0;
    assert(final(delivery)@ =~= old(delivery)@ + events);
    match outcome {
        Ok(value) => {
            assert(events =~= seq![
                Event::Asked {
                    request: Request::GetAttr { object: future, name: "set_result"@ },
                    reply: Ok(setter),
                },
                Event::Asked {
                    request: Request::Call {
                        callable: globals@->0.call_soon,
                        args: seq![setter, value],
                    },
                    reply: Ok(handle),
                },
            ]);
        },
        Err(err) => {
            let instance = events[1]->IntoInstance_instance;
            assert(events =~= seq![
                Event::Asked {
                    request: Request::GetAttr { object: future, name: "set_exception"@ },
                    reply: Ok(setter),
                },
                Event::IntoInstance { err, instance },
                Event::Asked {
                    request: Request::Call {
                        callable: globals@->0.call_soon,
                        args: seq![setter, instance],
                    },
                    reply: Ok(handle),
                },
            ]);
        },
    }
}

/// State that is new holds nothing.
pub proof fn law_new_state(globals: Globals)
    requires
        call_ensures(Globals::new, (), globals),
    ensures
        globals@ is None,
        globals.wf(),
{
}

/// A copy of the state holds the same handles.
pub proof fn law_copied_state(globals: &Globals, copy: Globals)
    requires
        call_ensures(Globals::clone, (globals,), copy),
    ensures
        copy@ == globals@,
        globals.wf() ==> copy.wf(),
{
}

/// The state is initialized exactly if it holds handles.
pub proof fn law_initialized_state(globals: &Globals, initialized: bool)
    requires
        call_ensures(Globals::is_initialized, (globals,), initialized),
    ensures
        initialized <==> globals@ is Some,
{
}

} // verus!
