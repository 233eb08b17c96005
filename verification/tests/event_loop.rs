use pyo3::exceptions::{PyAttributeError, PyImportError, PyKeyboardInterrupt, PyValueError};
use pyo3::exceptions::{PyRuntimeError, PySystemExit};
use pyo3::types::PyModule;
use pyo3::{PyErr, PyObject, Python};
use pyo3_asyncio::event_loop::{settle, try_close, try_init};
use pyo3_asyncio::globals::Globals;
use pyo3_asyncio::python::{Handoff, Session};
use pyo3_asyncio::{get_event_loop, run_forever, with_runtime};

/// Loads Python source text as a module.
fn module(py: Python, code: &str) -> PyObject {
    PyModule::from_code(py, code, "helper.py", "helper").unwrap().into()
}

/// Replaces `asyncio` and `concurrent.futures.thread` by stand-ins that note every call.
const STAND_IN: &str = r#"
import sys, types

log = []
fail = None

def note(name, *args):
    log.append((name,) + args)
    if name == fail:
        raise ValueError(name)

class Executor:
    def __init__(self):
        note("ThreadPoolExecutor")
    def shutdown(self):
        note("shutdown", self is executors[0])
executors = []
def make_executor():
    e = Executor()
    executors.append(e)
    return e

class Loop:
    def set_default_executor(self, e):
        note("set_default_executor", e is executors[-1])
    def call_soon_threadsafe(self, f, *args):
        note("call_soon_threadsafe")
    def create_future(self):
        note("create_future")
    def stop(self):
        note("stop", self is loops[0])
    def close(self):
        note("close", self is loops[0])
loops = []

asyncio = types.ModuleType("asyncio")
def get_event_loop():
    note("get_event_loop")
    loops.append(Loop())
    return loops[-1]
asyncio.get_event_loop = get_event_loop
asyncio.run_coroutine_threadsafe = lambda *args: note("run_coroutine_threadsafe")

thread = types.ModuleType("concurrent.futures.thread")
thread.ThreadPoolExecutor = make_executor

import concurrent.futures
sys.modules["asyncio"] = asyncio
sys.modules["concurrent.futures.thread"] = thread
concurrent.futures.thread = thread
"#;

fn log(py: Python, helper: &PyObject) -> String {
    helper.getattr(py, "log").unwrap().as_ref(py).repr().unwrap().to_string()
}

fn attr(py: Python, object: &PyObject, name: &str) -> PyObject {
    object.getattr(py, name).unwrap()
}

fn truth(py: Python, object: &PyObject, name: &str) -> bool {
    object.call_method0(py, name).unwrap().extract(py).unwrap()
}

#[test]
fn with_runtime_runs_the_body_between_opening_and_closing() {
    Python::with_gil(|py| {
        let mut globals = Globals::new();
        let mut session = Session::new(py);
        let mut kept: Option<PyObject> = None;
        let body = Handoff::new(|g: &Globals| {
            let event_loop = get_event_loop(g);
            assert!(!truth(py, event_loop, "is_closed"));
            kept = Some(event_loop.clone());
            Ok(7)
        });
        let result = with_runtime(&mut session, &mut globals, body);
        assert_eq!(result.unwrap(), 7);
        assert!(truth(py, &kept.unwrap(), "is_closed"));
        assert!(globals.is_initialized());
    });
}

#[test]
fn with_runtime_calls_in_order() {
    Python::with_gil(|py| {
        let helper = module(py, STAND_IN);
        let mut globals = Globals::new();
        let mut session = Session::new(py);
        let body = Handoff::new(|_: &Globals| {
            helper.call_method1(py, "note", ("body",))?;
            Ok(())
        });
        let result = with_runtime(&mut session, &mut globals, body);
        assert!(result.is_ok());
        assert_eq!(
            log(py, &helper),
            "[('get_event_loop',), ('ThreadPoolExecutor',), ('set_default_executor', True), \
             ('body',), ('shutdown', True), ('stop', True), ('close', True)]"
        );
    });
}

#[test]
fn with_runtime_leaves_the_loop_open_when_the_body_fails() {
    Python::with_gil(|py| {
        let helper = module(py, STAND_IN);
        let mut globals = Globals::new();
        let mut session = Session::new(py);
        let body = Handoff::new(|_: &Globals| Err(PyValueError::new_err("body")));
        let result = with_runtime::<(), _>(&mut session, &mut globals, body);
        assert_eq!(result.unwrap_err().to_string(), "ValueError: body");
        assert_eq!(
            log(py, &helper),
            "[('get_event_loop',), ('ThreadPoolExecutor',), ('set_default_executor', True)]"
        );
    });
}

#[test]
fn with_runtime_skips_the_body_when_opening_fails() {
    Python::with_gil(|py| {
        let helper = module(py, STAND_IN);
        helper.as_ref(py).setattr("fail", "set_default_executor").unwrap();
        let mut globals = Globals::new();
        let mut session = Session::new(py);
        let mut entered = false;
        let body = Handoff::new(|_: &Globals| {
            entered = true;
            Ok(())
        });
        let result = with_runtime(&mut session, &mut globals, body);
        assert_eq!(result.unwrap_err().to_string(), "ValueError: set_default_executor");
        assert!(!entered);
        assert!(!globals.is_initialized());
    });
}

#[test]
fn with_runtime_skips_the_body_when_a_later_opening_fails() {
    Python::with_gil(|py| {
        let helper = module(py, STAND_IN);
        let mut globals = Globals::new();
        try_init(&mut Session::new(py), &mut globals).unwrap();
        helper.as_ref(py).setattr("fail", "get_event_loop").unwrap();
        let mut entered = false;
        let body = Handoff::new(|_: &Globals| {
            entered = true;
            Ok(())
        });
        let result = with_runtime(&mut Session::new(py), &mut globals, body);
        assert_eq!(result.unwrap_err().to_string(), "ValueError: get_event_loop");
        assert!(!entered);
        assert!(globals.is_initialized());
        assert_eq!(
            log(py, &helper),
            "[('get_event_loop',), ('ThreadPoolExecutor',), ('set_default_executor', True), \
             ('get_event_loop',)]"
        );
    });
}

#[test]
fn the_failing_step_is_the_last() {
    Python::with_gil(|py| {
        let expected = [
            ("get_event_loop", "[('get_event_loop',)]"),
            ("ThreadPoolExecutor", "[('get_event_loop',), ('ThreadPoolExecutor',)]"),
            (
                "shutdown",
                "[('get_event_loop',), ('ThreadPoolExecutor',), ('set_default_executor', True), \
                 ('shutdown', True)]",
            ),
        ];
        for (step, steps) in expected.iter() {
            let helper = module(py, STAND_IN);
            helper.as_ref(py).setattr("fail", *step).unwrap();
            let mut globals = Globals::new();
            let body = Handoff::new(|_: &Globals| Ok(()));
            let result = with_runtime(&mut Session::new(py), &mut globals, body);
            assert_eq!(result.unwrap_err().to_string(), format!("ValueError: {}", step));
            assert_eq!(log(py, &helper), *steps);
        }
    });
}

#[test]
fn the_same_answers_lead_to_the_same_requests() {
    Python::with_gil(|py| {
        let mut logs = Vec::new();
        for _ in 0..2 {
            let helper = module(py, STAND_IN);
            let mut globals = Globals::new();
            let body = Handoff::new(|_: &Globals| Ok(()));
            with_runtime(&mut Session::new(py), &mut globals, body).unwrap();
            logs.push(log(py, &helper));
        }
        assert_eq!(logs[0], logs[1]);
    });
}

#[test]
fn with_runtime_reports_a_failed_closing() {
    Python::with_gil(|py| {
        let helper = module(py, STAND_IN);
        helper.as_ref(py).setattr("fail", "stop").unwrap();
        let mut globals = Globals::new();
        let mut session = Session::new(py);
        let result = with_runtime(&mut session, &mut globals, Handoff::new(|_: &Globals| Ok(3)));
        assert_eq!(result.unwrap_err().to_string(), "ValueError: stop");
        assert_eq!(
            log(py, &helper),
            "[('get_event_loop',), ('ThreadPoolExecutor',), ('set_default_executor', True), \
             ('shutdown', True), ('stop', True)]"
        );
    });
}

#[test]
fn first_initialization_wins() {
    Python::with_gil(|py| {
        let helper = module(py, STAND_IN);
        let mut globals = Globals::new();
        let mut session = Session::new(py);
        try_init(&mut session, &mut globals).unwrap();
        let first = get_event_loop(&globals).clone();
        try_init(&mut session, &mut globals).unwrap();
        assert!(*get_event_loop(&globals) == first);
        let loops: Vec<PyObject> = attr(py, &helper, "loops").extract(py).unwrap();
        assert_eq!(loops.len(), 2);
        assert!(loops[0] == first);
        assert!(loops[1] != first);
        // The executor of the first initialization is the one that is shut down.
        try_close(&mut session, &globals).unwrap();
        assert!(log(py, &helper).ends_with("('shutdown', True), ('stop', True), ('close', True)]"));
    });
}

#[test]
fn init_fails_on_the_first_missing_module() {
    Python::with_gil(|py| {
        module(py, "import sys\nsys.modules['asyncio'] = None\n");
        let mut globals = Globals::new();
        let mut session = Session::new(py);
        let err = try_init(&mut session, &mut globals).unwrap_err();
        assert!(err.is_instance::<PyImportError>(py));
        assert!(!globals.is_initialized());
    });
}

#[test]
fn init_fails_on_the_executor_module() {
    Python::with_gil(|py| {
        let helper = module(py, STAND_IN);
        module(py, "import sys\nsys.modules['concurrent.futures.thread'] = None\n");
        let mut globals = Globals::new();
        let mut session = Session::new(py);
        let err = try_init(&mut session, &mut globals).unwrap_err();
        assert!(err.is_instance::<PyImportError>(py));
        assert!(!globals.is_initialized());
        assert_eq!(log(py, &helper), "[('get_event_loop',)]");
    });
}

#[test]
fn init_fails_on_a_missing_attribute() {
    Python::with_gil(|py| {
        let helper = module(py, STAND_IN);
        attr(py, &helper, "asyncio").as_ref(py).delattr("run_coroutine_threadsafe").unwrap();
        let mut globals = Globals::new();
        let mut session = Session::new(py);
        let err = try_init(&mut session, &mut globals).unwrap_err();
        assert!(err.is_instance::<PyAttributeError>(py));
        assert!(!globals.is_initialized());
    });
}

#[test]
fn run_forever_returns_when_stopped_and_can_be_resumed() {
    Python::with_gil(|py| {
        let mut globals = Globals::new();
        let mut session = Session::new(py);
        try_init(&mut session, &mut globals).unwrap();
        let event_loop = get_event_loop(&globals);
        for _ in 0..2 {
            let stop = attr(py, event_loop, "stop");
            event_loop.call_method1(py, "call_soon", (stop,)).unwrap();
            assert!(run_forever(&mut session, &globals).is_ok());
        }
        try_close(&mut session, &globals).unwrap();
        assert!(truth(py, event_loop, "is_closed"));
    });
}

/// Runs the event loop with a callback that raises the given exception.
fn run_raising(py: Python, exception: &str) -> Result<(), PyErr> {
    let code = format!("def throw():\n    raise {}\n", exception);
    let throw = attr(py, &module(py, &code), "throw");
    let mut globals = Globals::new();
    let mut session = Session::new(py);
    try_init(&mut session, &mut globals).unwrap();
    get_event_loop(&globals).call_method1(py, "call_soon", (throw,)).unwrap();
    run_forever(&mut session, &globals)
}

#[test]
fn run_forever_takes_a_keyboard_interrupt_for_success() {
    Python::with_gil(|py| {
        assert!(run_raising(py, "KeyboardInterrupt()").is_ok());
    });
}

#[test]
fn run_forever_reports_any_other_exception() {
    Python::with_gil(|py| {
        let err = run_raising(py, "SystemExit(3)").unwrap_err();
        assert!(err.is_instance::<PySystemExit>(py));
    });
}

#[test]
fn run_forever_fails_on_a_closed_loop() {
    Python::with_gil(|py| {
        let mut globals = Globals::new();
        let mut session = Session::new(py);
        with_runtime(&mut session, &mut globals, Handoff::new(|_: &Globals| Ok(()))).unwrap();
        let err = run_forever(&mut session, &globals).unwrap_err();
        assert!(err.is_instance::<PyRuntimeError>(py));
    });
}

#[test]
fn settle_decides_by_the_reply() {
    Python::with_gil(|py| {
        let mut session = Session::new(py);
        assert!(settle(&mut session, Ok(py.None())).is_ok());
        assert!(settle(&mut session, Err(PyKeyboardInterrupt::new_err(()))).is_ok());
        let err = settle(&mut session, Err(PyValueError::new_err("no"))).unwrap_err();
        assert_eq!(err.to_string(), "ValueError: no");
    });
}

#[test]
fn globals_can_be_copied() {
    Python::with_gil(|py| {
        let mut globals = Globals::new();
        assert!(!globals.is_initialized());
        assert!(!globals.clone().is_initialized());
        let mut session = Session::new(py);
        try_init(&mut session, &mut globals).unwrap();
        let copy = globals.clone();
        assert!(copy.is_initialized());
        assert!(get_event_loop(&copy) == get_event_loop(&globals));
    });
}
