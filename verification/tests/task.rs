use futures::channel::oneshot::{Canceled, Receiver};
use futures::executor::block_on;
use pyo3::exceptions::PyValueError;
use pyo3::types::PyModule;
use pyo3::{PyErr, PyObject, PyResult, Python};
use pyo3_asyncio::event_loop::try_init;
use pyo3_asyncio::generic::{run_until_complete, set_result};
use pyo3_asyncio::globals::Globals;
use pyo3_asyncio::python::{Handoff, Session};
use pyo3_asyncio::task::{is_done, resume, PyTaskCompleter};
use pyo3_asyncio::{get_event_loop, into_future, run_forever};

/// What a spawning closure is handed: the globals and the future twice over.
type Ends<'a> = (&'a Globals, PyObject, PyObject);

const COROUTINES: &str = r#"
import asyncio

async def add(a, b):
    await asyncio.sleep(0.01)
    return a + b

async def fail():
    await asyncio.sleep(0.01)
    raise ValueError("on purpose")

class Finished:
    def __init__(self, value):
        self.value = value
        self.asked = 0
    def done(self):
        return True
    def result(self):
        self.asked += 1
        return self.value

class Unfinished:
    def done(self):
        return False

class Broken:
    def done(self):
        raise ValueError("done")
    def result(self):
        raise ValueError("result")

class Odd:
    def done(self):
        return "maybe"

class Callbacks:
    def __init__(self, event_loop):
        self.event_loop = event_loop
        self.tasks = []
    def __call__(self, task):
        self.tasks.append(task)
        self.event_loop.call_soon_threadsafe(self.event_loop.stop)

class Refusing:
    def add_done_callback(self, callback):
        raise ValueError("add_done_callback")
"#;

fn module(py: Python, code: &str) -> PyObject {
    PyModule::from_code(py, code, "helper.py", "helper").unwrap().into()
}

fn started(py: Python) -> (PyObject, Globals) {
    let helper = module(py, COROUTINES);
    let mut globals = Globals::new();
    try_init(&mut Session::new(py), &mut globals).unwrap();
    (helper, globals)
}

/// Submits the coroutine and keeps its completer; the callback notes the task and stops the
/// event loop.
fn submit(
    py: Python,
    helper: &PyObject,
    globals: &Globals,
    coro: &PyObject,
) -> (PyResult<Receiver<PyResult<PyObject>>>, Option<PyTaskCompleter>, PyObject) {
    let event_loop = get_event_loop(globals).clone();
    let callbacks = helper.call_method1(py, "Callbacks", (event_loop,)).unwrap();
    let mut kept = None;
    let wrap = Handoff::new(|completer: PyTaskCompleter| {
        kept = Some(completer);
        callbacks.clone()
    });
    let result = into_future(&mut Session::new(py), globals, coro, wrap);
    (result, kept, callbacks)
}

/// Runs the submitted task to its end, completes it, and gives what the future yields.
fn awaited(
    py: Python,
    helper: &PyObject,
    globals: &Globals,
    coro: &PyObject,
) -> PyResult<PyObject> {
    let (rx, completer, callbacks) = submit(py, helper, globals, coro);
    let rx = rx.unwrap();
    let mut session = Session::new(py);
    run_forever(&mut session, globals).unwrap();
    let tasks: Vec<PyObject> = callbacks.getattr(py, "tasks").unwrap().extract(py).unwrap();
    assert_eq!(tasks.len(), 1);
    assert!(is_done(&mut session, &tasks[0]).unwrap());
    let mut completer = completer.unwrap();
    completer.__call__(&mut session, &tasks[0]).unwrap();
    resume(&mut session, globals, block_on(rx))
}

fn instance(py: Python, helper: &PyObject, class: &str) -> PyObject {
    helper.call_method0(py, class).unwrap()
}

#[test]
fn a_coroutine_value_reaches_rust() {
    Python::with_gil(|py| {
        let (helper, globals) = started(py);
        let coro = helper.call_method1(py, "add", (20, 22)).unwrap();
        let value: i32 = awaited(py, &helper, &globals, &coro).unwrap().extract(py).unwrap();
        assert_eq!(value, 42);
    });
}

#[test]
fn a_coroutine_exception_reaches_rust() {
    Python::with_gil(|py| {
        let (helper, globals) = started(py);
        let coro = helper.call_method0(py, "fail").unwrap();
        let err = awaited(py, &helper, &globals, &coro).unwrap_err();
        assert_eq!(err.to_string(), "ValueError: on purpose");
    });
}

/// Takes a coroutine to Rust and what it came to back to Python.
fn round_trip(py: Python, helper: &PyObject, globals: &Globals, coro: &PyObject) -> PyResult<()> {
    let outcome = awaited(py, helper, globals, coro);
    let mut kept: Option<PyObject> = None;
    let spawn = Handoff::new(|(g, future, _): Ends<'_>| {
        set_result(&mut Session::new(py), g, &future, outcome).unwrap();
        kept = Some(future);
    });
    run_until_complete(&mut Session::new(py), globals, spawn)?;
    let value: i32 = kept.unwrap().call_method0(py, "result").unwrap().extract(py).unwrap();
    assert_eq!(value, 42);
    Ok(())
}

#[test]
fn a_round_trip_keeps_the_outcome() {
    Python::with_gil(|py| {
        let (helper, globals) = started(py);
        let coro = helper.call_method1(py, "add", (20, 22)).unwrap();
        assert!(round_trip(py, &helper, &globals, &coro).is_ok());
        let coro = helper.call_method0(py, "fail").unwrap();
        let err = round_trip(py, &helper, &globals, &coro).unwrap_err();
        assert_eq!(err.to_string(), "ValueError: on purpose");
    });
}

#[test]
fn only_a_coroutine_can_be_submitted() {
    Python::with_gil(|py| {
        let (helper, globals) = started(py);
        let (result, completer, _) = submit(py, &helper, &globals, &py.None());
        let err: PyErr = result.map(|_| ()).unwrap_err();
        assert_eq!(err.to_string(), "TypeError: A coroutine object is required");
        assert!(completer.is_none());
    });
}

#[test]
fn a_task_may_refuse_the_callback() {
    Python::with_gil(|py| {
        let helper = module(py, COROUTINES);
        let refuse = py.eval("lambda h: lambda *args: h.Refusing()", None, None).unwrap();
        let refuse = refuse.call1((helper.clone(),)).unwrap();
        let asyncio = py.import("asyncio").unwrap();
        asyncio.setattr("run_coroutine_threadsafe", refuse).unwrap();
        let mut globals = Globals::new();
        try_init(&mut Session::new(py), &mut globals).unwrap();
        let (result, completer, _) = submit(py, &helper, &globals, &py.None());
        let err: PyErr = result.map(|_| ()).unwrap_err();
        assert_eq!(err.to_string(), "ValueError: add_done_callback");
        assert!(completer.is_some());
    });
}

/// A completer with the other end of its channel, whose task never ran.
fn completer(py: Python) -> (Globals, PyTaskCompleter, Receiver<PyResult<PyObject>>, PyObject) {
    let (helper, globals) = started(py);
    let coro = helper.call_method1(py, "add", (1, 2)).unwrap();
    let (rx, kept, _) = submit(py, &helper, &globals, &coro);
    (globals, kept.unwrap(), rx.unwrap(), helper)
}

#[test]
fn a_completer_sends_once() {
    Python::with_gil(|py| {
        let (globals, mut completer, rx, helper) = completer(py);
        let first = helper.call_method1(py, "Finished", (5,)).unwrap();
        let second = helper.call_method1(py, "Finished", (6,)).unwrap();
        let mut session = Session::new(py);
        assert!(completer.__call__(&mut session, &first).is_ok());
        assert!(completer.__call__(&mut session, &second).is_ok());
        let value: i32 =
            resume(&mut session, &globals, block_on(rx)).unwrap().extract(py).unwrap();
        assert_eq!(value, 5);
        // The second call asked for its task's result all the same.
        let asked: i32 = second.getattr(py, "asked").unwrap().extract(py).unwrap();
        assert_eq!(asked, 1);
    });
}

#[test]
fn a_completer_sends_a_failed_result() {
    Python::with_gil(|py| {
        let (globals, mut completer, rx, helper) = completer(py);
        let mut session = Session::new(py);
        let broken = instance(py, &helper, "Broken");
        assert!(completer.__call__(&mut session, &broken).is_ok());
        let err = resume(&mut session, &globals, block_on(rx)).unwrap_err();
        assert_eq!(err.to_string(), "ValueError: result");
    });
}

#[test]
fn a_receiver_that_is_gone_is_no_error() {
    Python::with_gil(|py| {
        let (_, mut completer, rx, helper) = completer(py);
        drop(rx);
        let task = helper.call_method1(py, "Finished", (5,)).unwrap();
        assert!(completer.__call__(&mut Session::new(py), &task).is_ok());
    });
}

#[test]
fn a_dropped_completer_cancels_the_future() {
    Python::with_gil(|py| {
        let (globals, completer, rx, _) = completer(py);
        drop(completer);
        let received = block_on(rx);
        assert!(matches!(received, Err(Canceled)));
        let err = resume(&mut Session::new(py), &globals, received).unwrap_err();
        let expected = py.import("asyncio").unwrap().getattr("CancelledError").unwrap();
        assert!(err.matches(py, expected));
    });
}

#[test]
fn a_missing_cancelled_error_is_reported() {
    Python::with_gil(|py| {
        let (_, globals) = started(py);
        py.import("asyncio").unwrap().delattr("CancelledError").unwrap();
        let err = resume(&mut Session::new(py), &globals, Err(Canceled)).unwrap_err();
        assert!(err.to_string().starts_with("AttributeError"));
    });
}

#[test]
fn what_was_received_is_handed_on() {
    Python::with_gil(|py| {
        let (_, globals) = started(py);
        let mut session = Session::new(py);
        let value = resume(&mut session, &globals, Ok(Ok(py.None()))).unwrap();
        assert!(value.is_none(py));
        let received = Ok(Err(PyValueError::new_err("received")));
        let err = resume(&mut session, &globals, received).unwrap_err();
        assert_eq!(err.to_string(), "ValueError: received");
    });
}

#[test]
fn a_task_tells_whether_it_is_done() {
    Python::with_gil(|py| {
        let helper = module(py, COROUTINES);
        let mut session = Session::new(py);
        let finished = helper.call_method1(py, "Finished", (5,)).unwrap();
        assert!(is_done(&mut session, &finished).unwrap());
        assert!(!is_done(&mut session, &instance(py, &helper, "Unfinished")).unwrap());
        let err = is_done(&mut session, &instance(py, &helper, "Broken")).unwrap_err();
        assert_eq!(err.to_string(), "ValueError: done");
        let err = is_done(&mut session, &instance(py, &helper, "Odd")).unwrap_err();
        assert!(err.to_string().starts_with("TypeError"));
    });
}
