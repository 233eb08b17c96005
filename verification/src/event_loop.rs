//! Starting, running and closing Python's event loop.
use crate::globals::{Globals, Handles};
use crate::plan::{
    answered, answers, lemma_asked, lemma_since, lemma_start, outcome, ran, since, Plan,
};
use crate::python::{method, Event, Handoff, Request, Session};
use pyo3::{PyObject, PyResult};
use vstd::prelude::*;

verus! {

/// What an initialization asks of the interpreter, one request after the other.
pub open spec fn init_plan() -> Plan {
    |given: Seq<PyObject>|
        if given.len() == 0 {
            Some(Request::Import { module: "asyncio"@ })
        } else if given.len() == 1 {
            Some(method(given[0], "get_event_loop"@, seq![]))
        } else if given.len() == 2 {
            Some(Request::Import { module: "concurrent.futures.thread"@ })
        } else if given.len() == 3 {
            Some(Request::GetAttr { object: given[2], name: "ThreadPoolExecutor"@ })
        } else if given.len() == 4 {
            Some(Request::Call { callable: given[3], args: seq![] })
        } else if given.len() == 5 {
            Some(method(given[1], "set_default_executor"@, seq![given[4]]))
        } else if given.len() == 6 {
            Some(Request::GetAttr { object: given[1], name: "call_soon_threadsafe"@ })
        } else if given.len() == 7 {
            Some(Request::GetAttr { object: given[0], name: "run_coroutine_threadsafe"@ })
        } else if given.len() == 8 {
            Some(Request::GetAttr { object: given[1], name: "create_future"@ })
        } else {
            None
        }
}

/// The number of requests in a complete initialization.
pub open spec fn init_len() -> int {
    9
}

/// The handles among the answers to a complete initialization.
pub open spec fn init_handles(given: Seq<PyObject>) -> Handles {
    Handles {
        asyncio: given[0],
        event_loop: given[1],
        executor: given[4],
        call_soon: given[6],
        create_task: given[7],
        create_future: given[8],
    }
}

/// The state after an initialization: an earlier one's handles stay, and a failed one leaves
/// nothing.
pub open spec fn initialized(
    before: Option<Handles>,
    outcome: PyResult<Seq<PyObject>>,
) -> Option<Handles> {
    match (before, outcome) {
        (Some(held), _) => Some(held),
        (None, Ok(given)) => Some(init_handles(given)),
        (None, Err(_)) => None,
    }
}

/// A complete initialization makes all its requests.
pub proof fn lemma_init_len(events: Seq<Event>, given: Seq<PyObject>)
    requires
        ran(init_plan(), events, Ok(given)),
    ensures
        events.len() == init_len(),
{
    if events.len() > init_len() {
        assert(answered(events[init_len()]));
    }
}

/// Initializes the event loop and keeps its handles.
pub fn try_init(py: &mut Session<'_>, globals: &mut Globals) -> (result: PyResult<()>)
    requires
        old(globals).wf(),
    ensures
        old(py)@.is_prefix_of(final(py)@),
        final(globals).wf(),
        ({
            let events = since(old(py)@, final(py)@);
            &&& ran(init_plan(), events, outcome(events, result))
            &&& final(globals)@ == initialized(old(globals)@, outcome(events, result))
        }),
{
    broadcast use lemma_asked;

    proof {
        lemma_start(init_plan(), py@);
    }
    let asyncio = py.import("asyncio")?;
    let event_loop = py.call_method0(&asyncio, "get_event_loop")?;
    let thread = py.import("concurrent.futures.thread")?;
    let executor_type = py.getattr(&thread, "ThreadPoolExecutor")?;
    let executor = py.call0(&executor_type)?;
    py.call_method1(&event_loop, "set_default_executor", &executor)?;
    let call_soon = py.getattr(&event_loop, "call_soon_threadsafe")?;
    let create_task = py.getattr(&asyncio, "run_coroutine_threadsafe")?;
    let create_future = py.getattr(&event_loop, "create_future")?;

    globals.install(
        Handles { asyncio, event_loop, executor, call_soon, create_task, create_future },
    );
    Ok(())
}

/// The event loop.
pub fn get_event_loop(globals: &Globals) -> (event_loop: &PyObject)
    requires
        globals@ is Some,
    ensures
        *event_loop == globals@->0.event_loop,
{
    globals.event_loop()
}

/// What closing asks of the interpreter: the executor finishes its threads first, then the event
/// loop stops, and then it closes.
pub open spec fn close_plan(handles: Handles) -> Plan {
    |given: Seq<PyObject>|
        if given.len() == 0 {
            Some(method(handles.executor, "shutdown"@, seq![]))
        } else if given.len() == 1 {
            Some(method(handles.event_loop, "stop"@, seq![]))
        } else if given.len() == 2 {
            Some(method(handles.event_loop, "close"@, seq![]))
        } else {
            None
        }
}

/// Shuts down the executor and closes the event loop.
pub fn try_close(py: &mut Session<'_>, globals: &Globals) -> (result: PyResult<()>)
    requires
        globals@ is Some,
    ensures
        old(py)@.is_prefix_of(final(py)@),
        ({
            let events = since(old(py)@, final(py)@);
            ran(close_plan(globals@->0), events, outcome(events, result))
        }),
{
    broadcast use lemma_asked;

    proof {
        lemma_start(close_plan(globals@->0), py@);
    }
    py.call_method0(globals.executor(), "shutdown")?;
    py.call_method0(get_event_loop(globals), "stop")?;
    py.call_method0(get_event_loop(globals), "close")?;
    Ok(())
}

/// Whether the events are those of a function that ran inside an initialized runtime, returned
/// `body`, and led to `result`: initialization, the function, and closing if the function
/// succeeded. The first failure is the result.
pub open spec fn wrapped<R>(
    before: Option<Handles>,
    events: Seq<Event>,
    after: Option<Handles>,
    body: PyResult<R>,
    result: PyResult<R>,
) -> bool {
    let opening = events.take(init_len());
    let closing = events.skip(init_len() + 1);
    &&& events.len() > init_len()
    &&& ran(init_plan(), opening, Ok(answers(opening)))
    &&& after == initialized(before, Ok(answers(opening)))
    &&& events[init_len()] == Event::Callback
    &&& match body {
        Err(_) => closing.len() == 0 && result == body,
        Ok(_) => {
            &&& ran(close_plan(after->0), closing, outcome(closing, result))
            &&& result is Ok ==> result == body
        },
    }
}

/// Whether the events and the result are those of running `f` inside the runtime: either the
/// initialization failed, and `f` was not called, or `f` was called and returned something.
pub open spec fn enclosed<R, F: FnOnce(&Globals) -> PyResult<R>>(
    before: Option<Handles>,
    f: F,
    events: Seq<Event>,
    after: Globals,
    result: PyResult<R>,
) -> bool {
    ||| {
        &&& result is Err
        &&& ran(init_plan(), events, Err(result->Err_0))
        &&& after@ == before
    }
    ||| exists|body: PyResult<R>|
        {
            &&& #[trigger] call_ensures(f, (&after,), body)
            &&& wrapped(before, events, after@, body, result)
        }
}

/// Wraps the provided function with the initialization and finalization of the runtime.
///
/// This function must be called from the main thread.
pub fn with_runtime<R, F>(
    py: &mut Session<'_>,
    globals: &mut Globals,
    f: Handoff<F>,
) -> (result: PyResult<R>) where F: FnOnce(&Globals) -> PyResult<R>
    requires
        old(globals).wf(),
        forall|g: &Globals| g.wf() && g@ is Some ==> #[trigger] call_requires(f.closure(), (g,)),
    ensures
        old(py)@.is_prefix_of(final(py)@),
        final(globals).wf(),
        enclosed(old(globals)@, f.closure(), since(old(py)@, final(py)@), *final(globals), result),
{
    let ghost start = py@;
    try_init(py, globals)?;
    let ghost opened = py@;
    let ghost opening = since(start, opened);
    proof {
        lemma_init_len(opening, answers(opening));
    }
    let body = py.hand_over(f, &*globals);
    let ghost returned = py@;
    proof {
        assert(since(opened, returned) =~= seq![Event::Callback]);
        lemma_since(start, opened, returned);
        assert(since(start, returned).take(init_len()) =~= opening);
        assert(call_ensures(f.closure(), (&*globals,), body));
    }
    let value = body?;
    let closed = try_close(py, globals);
    proof {
        lemma_since(start, returned, py@);
        assert(since(start, py@).take(init_len()) =~= opening);
        assert(since(start, py@).skip(init_len() + 1) =~= since(returned, py@));
    }
    closed?;
    Ok(value)
}

/// What a run of the event loop comes to: an interrupt from the keyboard ends it without being
/// an error, and any other exception is one.
pub open spec fn settled(
    reply: PyResult<PyObject>,
    events: Seq<Event>,
    result: PyResult<()>,
) -> bool {
    match reply {
        Ok(_) => events.len() == 0 && result is Ok,
        Err(err) => {
            &&& events.len() == 1
            &&& events[0] is TestedInterrupt
            &&& events[0]->TestedInterrupt_err == err
            &&& result == if events[0]->interrupt {
                Ok(())
            } else {
                Err(err)
            }
        },
    }
}

/// Turns the reply of a run of the event loop into the result of the run.
pub fn settle(py: &mut Session<'_>, reply: PyResult<PyObject>) -> (result: PyResult<()>)
    ensures
        old(py)@.is_prefix_of(final(py)@),
        settled(reply, since(old(py)@, final(py)@), result),
{
    if let Err(err) = reply {
        if py.is_interrupt(&err) {
            Ok(())
        } else {
            Err(err)
        }
    } else {
        Ok(())
    }
}

/// Whether the events and the result are those of running the event loop until it is stopped.
pub open spec fn ran_forever(
    handles: Handles,
    events: Seq<Event>,
    result: PyResult<()>,
) -> bool {
    &&& events.len() > 0
    &&& events[0] is Asked
    &&& events[0]->request == method(handles.event_loop, "run_forever"@, seq![])
    &&& settled(events[0]->reply, events.skip(1), result)
}

/// Runs the event loop until it is stopped.
///
/// After this function returns, the event loop can be resumed with either `run_until_complete`
/// or `run_forever`.
pub fn run_forever(py: &mut Session<'_>, globals: &Globals) -> (result: PyResult<()>)
    requires
        globals@ is Some,
    ensures
        old(py)@.is_prefix_of(final(py)@),
        ran_forever(globals@->0, since(old(py)@, final(py)@), result),
{
    let ghost start = py@;
    let reply = py.call_method0(get_event_loop(globals), "run_forever");
    let ghost stopped = py@;
    let result = settle(py, reply);
    proof {
        lemma_since(start, stopped, py@);
        assert(since(start, py@).skip(1) =~= since(stopped, py@));
    }
    result
}

} // verus!
