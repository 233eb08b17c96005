//! Awaiting a Rust future from Python, on any Rust runtime.
use crate::event_loop::get_event_loop;
use crate::globals::{Globals, Handles};
use crate::plan::{lemma_since, since};
use crate::python::{method, same_object, Event, Handoff, Request, Session};
use pyo3::{PyObject, PyResult};
use std::future::Future;
use vstd::prelude::*;

pub mod testing;

verus! {

/// Generic utilities for a JoinError
pub trait JoinError {
    /// Check if the spawned task exited because of a panic
    fn is_panic(&self) -> bool;
}

/// Generic Rust async/await runtime
pub trait Runtime {
    /// The type of errors that a JoinHandle can return after awaited
    type JoinError: JoinError + Send;

    /// A future that completes with the result of the spawned task
    type JoinHandle: Future<Output = Result<(), Self::JoinError>> + Send;

    /// Spawn a function onto this runtime's event loop
    fn spawn<F>(fut: F) -> Self::JoinHandle where F: Future<Output = ()> + Send + 'static;
}

/// Whether the event schedules `setter(arg)` on the event loop, with the given result.
pub open spec fn scheduled(
    handles: Handles,
    setter: PyObject,
    arg: PyObject,
    event: Event,
    result: PyResult<()>,
) -> bool {
    &&& event is Asked
    &&& event->request == (Request::Call { callable: handles.call_soon, args: seq![setter, arg] })
    &&& match event->reply {
        Ok(_) => result is Ok,
        Err(err) => result == Err::<(), _>(err),
    }
}

/// Whether the events and the result are those of settling the Python future with `outcome`: a
/// value goes through the future's `set_result` and an error through its `set_exception`, in
/// either case from within the event loop.
pub open spec fn delivered(
    handles: Handles,
    future: PyObject,
    outcome: PyResult<PyObject>,
    events: Seq<Event>,
    result: PyResult<()>,
) -> bool {
    &&& events.len() > 0
    &&& events[0] is Asked
    &&& events[0]->request == (Request::GetAttr {
        object: future,
        name: match outcome {
            Ok(_) => "set_result"@,
            Err(_) => "set_exception"@,
        },
    })
    &&& match (events[0]->reply, outcome) {
        (Err(err), _) => events.len() == 1 && result == Err::<(), _>(err),
        (Ok(setter), Ok(value)) => {
            &&& events.len() == 2
            &&& scheduled(handles, setter, value, events[1], result)
        },
        (Ok(setter), Err(err)) => {
            &&& events.len() == 3
            &&& events[1] is IntoInstance
            &&& events[1]->IntoInstance_err == err
            &&& scheduled(handles, setter, events[1]->IntoInstance_instance, events[2], result)
        },
    }
}

/// Settles a Python future from any thread.
pub fn set_result(
    py: &mut Session<'_>,
    globals: &Globals,
    future: &PyObject,
    outcome: PyResult<PyObject>,
) -> (result: PyResult<()>)
    requires
        globals@ is Some,
    ensures
        old(py)@.is_prefix_of(final(py)@),
        delivered(globals@->0, *future, outcome, since(old(py)@, final(py)@), result),
{
    match outcome {
        Ok(value) => {
            let set_result = py.getattr(future, "set_result")?;
            py.call1(globals.call_soon(), &set_result, &value)?;
        },
        Err(err) => {
            let set_exception = py.getattr(future, "set_exception")?;
            let instance = py.into_instance(err);
            py.call1(globals.call_soon(), &set_exception, &instance)?;
        },
    }
    Ok(())
}

/// Whether `panic` is the answer to whether a task that joined this way ended in a panic: one
/// that joined without an error did not, and any other answers for itself.
pub open spec fn panic_reported<J: JoinError>(joined: Result<(), J>, panic: bool) -> bool {
    match joined {
        Ok(_) => !panic,
        Err(err) => call_ensures(J::is_panic, (&err,), panic),
    }
}

/// Whether a spawned task ended in a panic.
pub fn panicked<J: JoinError>(joined: &Result<(), J>) -> (panic: bool)
    ensures
        panic_reported(*joined, panic),
{
    match joined {
        Ok(_) => false,
        Err(err) => err.is_panic(),
    }
}

/// Whether the events and the result are those of settling the Python future of a Rust future
/// that panicked.
pub open spec fn panic_delivered(
    handles: Handles,
    future: PyObject,
    events: Seq<Event>,
    result: PyResult<()>,
) -> bool {
    &&& events.len() > 0
    &&& events[0] is MadeException
    &&& events[0]->message == "rust future panicked"@
    &&& delivered(handles, future, Err(events[0]->MadeException_err), events.skip(1), result)
}

/// Settles a Python future whose Rust future panicked.
pub fn set_panicked(py: &mut Session<'_>, globals: &Globals, future: &PyObject) -> (result:
    PyResult<()>)
    requires
        globals@ is Some,
    ensures
        old(py)@.is_prefix_of(final(py)@),
        panic_delivered(globals@->0, *future, since(old(py)@, final(py)@), result),
{
    let ghost start = py@;
    let err = py.exception("rust future panicked");
    let ghost made = py@;
    let result = set_result(py, globals, future, Err(err));
    proof {
        lemma_since(start, made, py@);
        assert(since(start, py@).skip(1) =~= since(made, py@));
    }
    result
}

/// Whether the events and the result are those of converting a Rust future: either there is no
/// Python future for it, and `spawn` was not called, or `spawn` was called with one.
pub open spec fn spawned<S: FnOnce((&Globals, PyObject, PyObject))>(
    globals: Globals,
    spawn: S,
    events: Seq<Event>,
    result: PyResult<PyObject>,
) -> bool {
    &&& events.len() > 0
    &&& events[0] is Asked
    &&& events[0]->request == (Request::Call { callable: globals@->0.create_future, args: seq![] })
    &&& result == events[0]->reply
    &&& match result {
        Ok(future) => {
            &&& events.len() == 2
            &&& call_ensures(spawn, ((&globals, future, future),), ())
            &&& events[1] == Event::Callback
        },
        Err(_) => events.len() == 1,
    }
}

/// Converts a Rust future into a Python coroutine: the result is a new future of the event
/// loop. `spawn` is handed what it takes to settle it: the globals and the future twice over,
/// once for the outcome of the Rust future and once for the case that it panics.
pub fn into_coroutine<S>(
    py: &mut Session<'_>,
    globals: &Globals,
    spawn: Handoff<S>,
) -> (result: PyResult<PyObject>) where S: FnOnce((&Globals, PyObject, PyObject))
    requires
        globals@ is Some,
        forall|g: &Globals, future: PyObject|
            g@ is Some ==> #[trigger] call_requires(spawn.closure(), ((g, future, future),)),
    ensures
        old(py)@.is_prefix_of(final(py)@),
        spawned(*globals, spawn.closure(), since(old(py)@, final(py)@), result),
{
    let future_rx = py.call0(globals.create_future())?;
    let future_tx1 = same_object(&future_rx);
    let future_tx2 = same_object(&future_rx);
    py.hand_over(spawn, (globals, future_tx1, future_tx2));
    Ok(future_rx)
}

/// The outcome, for Python, of a future that yields no value: `None` stands for the value.
pub fn unit_outcome(py: &mut Session<'_>, outcome: PyResult<()>) -> (result: PyResult<PyObject>)
    ensures
        old(py)@.is_prefix_of(final(py)@),
        ({
            let events = since(old(py)@, final(py)@);
            match outcome {
                Ok(_) => {
                    &&& events.len() == 1
                    &&& result is Ok
                    &&& events[0] == (Event::TookNone { object: result->Ok_0 })
                },
                Err(err) => events.len() == 0 && result == Err::<PyObject, _>(err),
            }
        }),
{
    outcome?;
    Ok(py.none())
}

/// Whether the events and the result are those of running the event loop until the Python
/// future of a Rust future is done.
pub open spec fn driven<S: FnOnce((&Globals, PyObject, PyObject))>(
    globals: Globals,
    spawn: S,
    events: Seq<Event>,
    result: PyResult<()>,
) -> bool {
    ||| {
        &&& result is Err
        &&& spawned(globals, spawn, events, Err(result->Err_0))
    }
    ||| {
        &&& events.len() == 3
        &&& events[0]->reply is Ok
        &&& spawned(globals, spawn, events.take(2), events[0]->reply)
        &&& events[2] is Asked
        &&& events[2]->request == method(
            globals@->0.event_loop,
            "run_until_complete"@,
            seq![events[0]->reply->Ok_0],
        )
        &&& match events[2]->reply {
            Ok(_) => result is Ok,
            Err(err) => result == Err::<(), _>(err),
        }
    }
}

/// Runs the event loop until the Rust future that `spawn` spawns completes.
///
/// After this function returns, the event loop can be resumed with either `run_until_complete`
/// or `run_forever`.
pub fn run_until_complete<S>(
    py: &mut Session<'_>,
    globals: &Globals,
    spawn: Handoff<S>,
) -> (result: PyResult<()>) where S: FnOnce((&Globals, PyObject, PyObject))
    requires
        globals@ is Some,
        forall|g: &Globals, future: PyObject|
            g@ is Some ==> #[trigger] call_requires(spawn.closure(), ((g, future, future),)),
    ensures
        old(py)@.is_prefix_of(final(py)@),
        driven(*globals, spawn.closure(), since(old(py)@, final(py)@), result),
{
    let ghost start = py@;
    let coro = into_coroutine(py, globals, spawn)?;
    let ghost converted = py@;
    let reply = py.call_method1(get_event_loop(globals), "run_until_complete", &coro);
    proof {
        assert(since(start, py@).take(2) =~= since(start, converted));
    }
    reply?;
    Ok(())
}

} // verus!
