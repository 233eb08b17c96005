//! Awaiting a Python coroutine from Rust.
use crate::event_loop::get_event_loop;
use crate::globals::{Globals, Handles};
use crate::plan::since;
use crate::python::{method, Event, Handoff, Request, Session};
use futures::channel::oneshot::{Canceled, Receiver, Sender};
use pyo3::{PyObject, PyResult};
use vstd::prelude::*;

verus! {

/// `futures::channel::oneshot::Receiver`: the receiving half of a one-shot channel.
#[verifier::external_type_specification]
#[verifier::external_body]
#[verifier::reject_recursive_types(T)]
pub struct ExReceiver<T>(futures::channel::oneshot::Receiver<T>);

/// `futures::channel::oneshot::Canceled`: the sender was dropped before it sent anything.
#[verifier::external_type_specification]
#[verifier::external_body]
pub struct ExCanceled(futures::channel::oneshot::Canceled);

/// Whether the two halves belong to the same channel, as
/// `futures::channel::oneshot::Sender::is_connected_to` tells.
pub uninterp spec fn connected(
    tx: Sender<PyResult<PyObject>>,
    rx: Receiver<PyResult<PyObject>>,
) -> bool;

/// Calls `futures::channel::oneshot::channel`, which makes the two halves of one channel.
#[verifier::external_body]
fn channel() -> (halves: (Sender<PyResult<PyObject>>, Receiver<PyResult<PyObject>>))
    ensures
        connected(halves.0, halves.1),
{
    futures::channel::oneshot::channel()
}

/// Passes the result of a Python task on to whoever awaits it in Rust.
pub struct PyTaskCompleter {
    tx: Option<Sender<PyResult<PyObject>>>,
}

impl View for PyTaskCompleter {
    type V = Option<Sender<PyResult<PyObject>>>;

    closed spec fn view(&self) -> Option<Sender<PyResult<PyObject>>> {
        self.tx
    }
}

/// Whether the events are those of a completer that was called with `task`: it asks for the
/// task's result and sends it, be it a value or an exception, unless it has sent one before.
pub open spec fn completed(
    tx: Option<Sender<PyResult<PyObject>>>,
    task: PyObject,
    events: Seq<Event>,
) -> bool {
    &&& events.len() > 0
    &&& events[0] is Asked
    &&& events[0]->request == method(task, "result"@, seq![])
    &&& match tx {
        Some(tx) => {
            &&& events.len() == 2
            &&& events[1] is Sent
            &&& events[1]->tx == tx
            &&& events[1]->item == events[0]->reply
        },
        None => events.len() == 1,
    }
}

impl PyTaskCompleter {
    /// A completer that sends to the given channel.
    fn new(tx: Sender<PyResult<PyObject>>) -> (completer: Self)
        ensures
            completer@ == Some(tx),
    {
        PyTaskCompleter { tx: Some(tx) }
    }

    /// Called by the event loop when the task is done. A second call is harmless, and so is a
    /// receiver that is gone.
    pub fn __call__(&mut self, py: &mut Session<'_>, task: &PyObject) -> (result: PyResult<()>)
        ensures
            result is Ok,
            final(self)@ is None,
            old(py)@.is_prefix_of(final(py)@),
            completed(old(self)@, *task, since(old(py)@, final(py)@)),
    {
        let result = py.call_method0(task, "result");
        if let Some(tx) = self.tx.take() {
            if py.send(tx, result).is_err() {
                // cancellation is not an error
            }
        }
        Ok(())
    }
}

/// Asks a task whether it is done.
pub fn is_done(py: &mut Session<'_>, task: &PyObject) -> (done: PyResult<bool>)
    ensures
        old(py)@.is_prefix_of(final(py)@),
        ({
            let events = since(old(py)@, final(py)@);
            &&& events.len() > 0
            &&& events[0] is Asked
            &&& events[0]->request == method(*task, "done"@, seq![])
            &&& match events[0]->reply {
                Ok(object) => {
                    &&& events.len() == 2
                    &&& events[1] == Event::ReadBool { object, value: done }
                },
                Err(err) => events.len() == 1 && done == Err::<bool, _>(err),
            }
        }),
{
    let object = py.call_method0(task, "done")?;
    py.read_bool(&object)
}

/// Whether the event hands the coroutine to the event loop.
pub open spec fn submits(handles: Handles, coro: PyObject, event: Event) -> bool {
    &&& event is Asked
    &&& event->request == (Request::Call {
        callable: handles.create_task,
        args: seq![coro, handles.event_loop],
    })
}

/// Whether the events and the result are those of watching over a submitted coroutine: the
/// task gets a callback, and the result is the other end of the callback's channel. `tx` is the
/// sender that went into the task's completer, and `callback` the Python object made of it.
pub open spec fn watched(
    tx: Sender<PyResult<PyObject>>,
    callback: PyObject,
    events: Seq<Event>,
    result: PyResult<Receiver<PyResult<PyObject>>>,
) -> bool {
    &&& events.len() == 3
    &&& events[1] == Event::Callback
    &&& events[2] is Asked
    &&& events[2]->request == method(
        events[0]->reply->Ok_0,
        "add_done_callback"@,
        seq![callback],
    )
    &&& match events[2]->reply {
        Ok(_) => result is Ok && connected(tx, result->Ok_0),
        Err(err) => result == Err::<Receiver<PyResult<PyObject>>, _>(err),
    }
}

/// Converts a Python coroutine into a Rust future: the coroutine becomes a task of the event
/// loop, and the channel yields the task's result once it is done. `wrap` makes a Python
/// callable of the task's completer.
pub fn into_future<F>(
    py: &mut Session<'_>,
    globals: &Globals,
    coro: &PyObject,
    wrap: Handoff<F>,
) -> (result: PyResult<Receiver<PyResult<PyObject>>>) where
    F: FnOnce(PyTaskCompleter) -> PyObject,

    requires
        globals@ is Some,
        forall|completer: PyTaskCompleter|
            completer@ is Some ==> #[trigger] call_requires(wrap.closure(), (completer,)),
    ensures
        old(py)@.is_prefix_of(final(py)@),
        ({
            let events = since(old(py)@, final(py)@);
            &&& events.len() > 0
            &&& submits(globals@->0, *coro, events[0])
            &&& match events[0]->reply {
                Ok(_) => exists|completer: PyTaskCompleter, callback: PyObject|
                    {
                        &&& completer@ is Some
                        &&& #[trigger] call_ensures(wrap.closure(), (completer,), callback)
                        &&& watched(completer@->0, callback, events, result)
                    },
                Err(err) => {
                    &&& events.len() == 1
                    &&& result == Err::<Receiver<PyResult<PyObject>>, _>(err)
                },
            }
        }),
{
    let (tx, rx) = channel();
    let task = py.call1(globals.create_task(), coro, get_event_loop(globals))?;
    let on_complete = py.hand_over(wrap, PyTaskCompleter::new(tx));
    py.call_method1(&task, "add_done_callback", &on_complete)?;
    Ok(rx)
}

/// Whether the events and the result are those of resuming with what the channel yielded: an
/// item is handed on as it is, and a channel that was cancelled makes for a `CancelledError`.
pub open spec fn resumed(
    handles: Handles,
    received: Result<PyResult<PyObject>, Canceled>,
    events: Seq<Event>,
    result: PyResult<PyObject>,
) -> bool {
    match received {
        Ok(item) => events.len() == 0 && result == item,
        Err(_) => {
            &&& events.len() > 0
            &&& events[0] is Asked
            &&& events[0]->request == method(handles.asyncio, "CancelledError"@, seq![])
            &&& match events[0]->reply {
                Ok(instance) => {
                    &&& events.len() == 2
                    &&& result is Err
                    &&& events[1] == (Event::FromInstance { instance, err: result->Err_0 })
                },
                Err(err) => events.len() == 1 && result == Err::<PyObject, _>(err),
            }
        },
    }
}

/// What a future yields once its channel has yielded.
pub fn resume(
    py: &mut Session<'_>,
    globals: &Globals,
    received: Result<PyResult<PyObject>, Canceled>,
) -> (result: PyResult<PyObject>)
    requires
        globals@ is Some,
    ensures
        old(py)@.is_prefix_of(final(py)@),
        resumed(globals@->0, received, since(old(py)@, final(py)@), result),
{
    match received {
        Ok(item) => item,
        Err(_) => {
            let instance = py.call_method0(globals.asyncio(), "CancelledError")?;
            Err(py.from_instance(&instance))
        },
    }
}

} // verus!
