use pyo3::exceptions::PyValueError;
use pyo3::types::PyModule;
use pyo3::{PyObject, PyResult, Python};
use pyo3_asyncio::event_loop::try_init;
use pyo3_asyncio::generic::testing::test_main;
use pyo3_asyncio::generic::{
    into_coroutine, panicked, run_until_complete, set_panicked, set_result, unit_outcome,
    JoinError,
};
use pyo3_asyncio::globals::Globals;
use pyo3_asyncio::python::{Handoff, Session};
use pyo3_asyncio::{get_event_loop, run_forever, with_runtime};

/// What a spawning closure is handed: the globals and the future twice over.
type Ends<'a> = (&'a Globals, PyObject, PyObject);

struct Failure {
    panic: bool,
}

impl JoinError for Failure {
    fn is_panic(&self) -> bool {
        self.panic
    }
}

fn module(py: Python, code: &str) -> PyObject {
    PyModule::from_code(py, code, "helper.py", "helper").unwrap().into()
}

fn started(py: Python) -> Globals {
    let mut globals = Globals::new();
    try_init(&mut Session::new(py), &mut globals).unwrap();
    globals
}

fn call(py: Python, object: &PyObject, name: &str) -> PyResult<PyObject> {
    object.call_method0(py, name)
}

fn truth(py: Python, object: &PyObject, name: &str) -> bool {
    call(py, object, name).unwrap().extract(py).unwrap()
}

/// Runs the event loop over a converted future that is settled by `settle`.
fn drive<F>(py: Python, globals: &Globals, settle: F) -> PyResult<PyObject>
where
    F: FnOnce(&Globals, &PyObject),
{
    let mut kept = None;
    let spawn = Handoff::new(|(g, outcome, panic): Ends<'_>| {
        assert!(outcome == panic);
        settle(g, &outcome);
        kept = Some(outcome);
    });
    run_until_complete(&mut Session::new(py), globals, spawn)?;
    call(py, &kept.unwrap(), "result")
}

#[test]
fn a_rust_value_reaches_python() {
    Python::with_gil(|py| {
        let globals = started(py);
        let value = py.eval("6 * 7", None, None).unwrap().into();
        let result = drive(py, &globals, |g, future| {
            set_result(&mut Session::new(py), g, future, Ok(value)).unwrap();
            // The event loop settles the future, not the caller.
            assert!(!truth(py, future, "done"));
        });
        let result: i32 = result.unwrap().extract(py).unwrap();
        assert_eq!(result, 42);
    });
}

#[test]
fn a_rust_error_reaches_python() {
    Python::with_gil(|py| {
        let globals = started(py);
        let err = drive(py, &globals, |g, future| {
            let outcome = Err(PyValueError::new_err("from rust"));
            set_result(&mut Session::new(py), g, future, outcome).unwrap();
        })
        .unwrap_err();
        assert_eq!(err.to_string(), "ValueError: from rust");
    });
}

#[test]
fn a_rust_panic_reaches_python() {
    Python::with_gil(|py| {
        let globals = started(py);
        let err = drive(py, &globals, |g, future| {
            set_panicked(&mut Session::new(py), g, future).unwrap();
        })
        .unwrap_err();
        assert_eq!(err.to_string(), "Exception: rust future panicked");
    });
}

#[test]
fn only_panics_are_relayed() {
    let finished: Result<(), Failure> = Ok(());
    assert!(!panicked(&finished));
    assert!(panicked(&Err(Failure { panic: true })));
    assert!(!panicked(&Err(Failure { panic: false })));
}

#[test]
fn a_failed_delivery_is_reported() {
    Python::with_gil(|py| {
        let globals = started(py);
        // `None` has no `set_result`.
        let future = py.None();
        let err = set_result(&mut Session::new(py), &globals, &future, Ok(py.None())).unwrap_err();
        assert!(err.to_string().contains("set_result"));
        let failed = Err(PyValueError::new_err("x"));
        let err = set_result(&mut Session::new(py), &globals, &future, failed).unwrap_err();
        assert!(err.to_string().contains("set_exception"));
        let err = set_panicked(&mut Session::new(py), &globals, &future).unwrap_err();
        assert!(err.to_string().contains("set_exception"));
    });
}

#[test]
fn a_closed_loop_takes_no_delivery() {
    Python::with_gil(|py| {
        let mut globals = Globals::new();
        let mut session = Session::new(py);
        let mut future: Option<PyObject> = None;
        let body = Handoff::new(|g: &Globals| {
            let spawn = Handoff::new(|_: Ends<'_>| ());
            future = Some(into_coroutine(&mut Session::new(py), g, spawn)?);
            Ok(())
        });
        with_runtime(&mut session, &mut globals, body).unwrap();
        let err = set_result(&mut session, &globals, &future.unwrap(), Ok(py.None())).unwrap_err();
        assert_eq!(err.to_string(), "RuntimeError: Event loop is closed");
    });
}

#[test]
fn the_converted_future_belongs_to_the_loop() {
    Python::with_gil(|py| {
        let globals = started(py);
        let mut seen = None;
        let spawn = Handoff::new(|(g, one, other): Ends<'_>| {
            assert!(g.is_initialized());
            seen = Some((one, other));
        });
        let future = into_coroutine(&mut Session::new(py), &globals, spawn).unwrap();
        let (one, other) = seen.unwrap();
        assert!(one == future);
        assert!(other == future);
        assert!(call(py, &future, "get_loop").unwrap() == *get_event_loop(&globals));
    });
}

const REFUSING: &str = r#"
import asyncio

class Refusing(asyncio.SelectorEventLoop):
    def create_future(self):
        raise ValueError("create_future")
    def run_until_complete(self, future):
        raise KeyError("run_until_complete")

asyncio.set_event_loop(Refusing())
"#;

#[test]
fn nothing_is_spawned_without_a_future() {
    Python::with_gil(|py| {
        module(py, REFUSING);
        let globals = started(py);
        let mut entered = false;
        let spawn = Handoff::new(|_: Ends<'_>| entered = true);
        let result = into_coroutine(&mut Session::new(py), &globals, spawn);
        assert_eq!(result.unwrap_err().to_string(), "ValueError: create_future");
        assert!(!entered);
        let spawn = Handoff::new(|_: Ends<'_>| entered = true);
        let result = run_until_complete(&mut Session::new(py), &globals, spawn);
        assert_eq!(result.unwrap_err().to_string(), "ValueError: create_future");
        assert!(!entered);
    });
}

#[test]
fn a_future_is_spawned_before_the_loop_runs() {
    Python::with_gil(|py| {
        let globals = started(py);
        let mut spawned = 0;
        let result = drive(py, &globals, |g, future| {
            assert!(!truth(py, get_event_loop(g), "is_running"));
            spawned += 1;
            set_result(&mut Session::new(py), g, future, Ok(py.None())).unwrap();
        });
        assert!(result.unwrap().is_none(py));
        assert_eq!(spawned, 1);
    });
}

#[test]
fn running_to_completion_reports_the_failure() {
    Python::with_gil(|py| {
        let globals = started(py);
        let spawn = Handoff::new(|(g, future, _): Ends<'_>| {
            let outcome = Err(PyValueError::new_err("run"));
            set_result(&mut Session::new(py), g, &future, outcome).unwrap();
        });
        let result = run_until_complete(&mut Session::new(py), &globals, spawn);
        assert_eq!(result.unwrap_err().to_string(), "ValueError: run");
    });
}

#[test]
fn the_loop_can_be_run_again_after_completion() {
    Python::with_gil(|py| {
        let globals = started(py);
        for n in 0..3 {
            let value: PyObject = py.eval(&format!("{}", n), None, None).unwrap().into();
            let result = drive(py, &globals, |g, future| {
                set_result(&mut Session::new(py), g, future, Ok(value)).unwrap();
            });
            let result: i32 = result.unwrap().extract(py).unwrap();
            assert_eq!(result, n);
        }
    });
}

#[test]
fn the_loop_can_be_run_after_a_failed_completion() {
    Python::with_gil(|py| {
        let globals = started(py);
        let spawn = Handoff::new(|(g, future, _): Ends<'_>| {
            set_panicked(&mut Session::new(py), g, &future).unwrap();
        });
        let result = run_until_complete(&mut Session::new(py), &globals, spawn);
        assert!(result.is_err());
        let event_loop = get_event_loop(&globals);
        let stop = event_loop.getattr(py, "stop").unwrap();
        event_loop.call_method1(py, "call_soon", (stop,)).unwrap();
        assert!(run_forever(&mut Session::new(py), &globals).is_ok());
    });
}

#[test]
fn a_future_without_a_value_yields_none() {
    Python::with_gil(|py| {
        let mut session = Session::new(py);
        assert!(unit_outcome(&mut session, Ok(())).unwrap().is_none(py));
        let err = unit_outcome(&mut session, Err(PyValueError::new_err("unit"))).unwrap_err();
        assert_eq!(err.to_string(), "ValueError: unit");
    });
}

/// Runs a suite that comes to the given outcome, and tells whether it was prepared.
fn run_suite(py: Python, globals: &mut Globals, outcome: PyResult<()>) -> (PyResult<()>, bool) {
    let mut prepared = false;
    let prepare = Handoff::new(|g: &Globals| {
        assert!(!truth(py, get_event_loop(g), "is_closed"));
        prepared = true;
        Handoff::new(move |(g, future, _): Ends<'_>| {
            let mut session = Session::new(py);
            let outcome = unit_outcome(&mut session, outcome);
            set_result(&mut session, g, &future, outcome).unwrap();
        })
    });
    let result = test_main(&mut Session::new(py), globals, prepare);
    (result, prepared)
}

#[test]
fn a_suite_that_passes() {
    Python::with_gil(|py| {
        let mut globals = Globals::new();
        let (result, prepared) = run_suite(py, &mut globals, Ok(()));
        assert!(result.is_ok());
        assert!(prepared);
        assert!(truth(py, get_event_loop(&globals), "is_closed"));
    });
}

#[test]
fn a_suite_that_fails() {
    Python::with_gil(|py| {
        let mut globals = Globals::new();
        let failure = Err(PyValueError::new_err("suite"));
        let (result, prepared) = run_suite(py, &mut globals, failure);
        assert_eq!(result.unwrap_err().to_string(), "ValueError: suite");
        assert!(prepared);
        assert!(!truth(py, get_event_loop(&globals), "is_closed"));
    });
}

#[test]
fn a_suite_that_panics() {
    Python::with_gil(|py| {
        let mut globals = Globals::new();
        let prepare = Handoff::new(|_: &Globals| {
            Handoff::new(move |(g, _, future): Ends<'_>| {
                set_panicked(&mut Session::new(py), g, &future).unwrap();
            })
        });
        let result = test_main(&mut Session::new(py), &mut globals, prepare);
        assert_eq!(result.unwrap_err().to_string(), "Exception: rust future panicked");
    });
}

#[test]
fn a_suite_that_cannot_start() {
    Python::with_gil(|py| {
        module(py, "import sys\nsys.modules['asyncio'] = None\n");
        let mut globals = Globals::new();
        let (result, prepared) = run_suite(py, &mut globals, Ok(()));
        assert!(result.is_err());
        assert!(!prepared);
        assert!(!globals.is_initialized());
    });
}

#[test]
fn a_suite_that_cannot_start_again() {
    Python::with_gil(|py| {
        let mut globals = started(py);
        module(py, "import sys\nsys.modules['asyncio'] = None\n");
        let (result, prepared) = run_suite(py, &mut globals, Ok(()));
        assert!(result.is_err());
        assert!(!prepared);
        assert!(globals.is_initialized());
        assert!(!truth(py, get_event_loop(&globals), "is_closed"));
    });
}

const UNCLOSABLE: &str = r#"
import asyncio

class Unclosable(asyncio.SelectorEventLoop):
    def close(self):
        raise ValueError("close")

asyncio.set_event_loop(Unclosable())
"#;

#[test]
fn a_suite_whose_runtime_cannot_be_closed() {
    Python::with_gil(|py| {
        module(py, UNCLOSABLE);
        let mut globals = Globals::new();
        let (result, prepared) = run_suite(py, &mut globals, Ok(()));
        assert_eq!(result.unwrap_err().to_string(), "ValueError: close");
        assert!(prepared);
    });
}

/// Settles a converted future as the two tasks behind it do, and gives how often the event loop
/// was asked to call something.
fn conclude(
    py: Python,
    globals: &Globals,
    helper: &PyObject,
    returned: Option<PyResult<PyObject>>,
    joined: Result<(), Failure>,
) -> i32 {
    let spawn = Handoff::new(|_: Ends<'_>| ());
    let future = into_coroutine(&mut Session::new(py), globals, spawn).unwrap();
    if let Some(outcome) = returned {
        set_result(&mut Session::new(py), globals, &future, outcome).unwrap();
    }
    if panicked(&joined) {
        set_panicked(&mut Session::new(py), globals, &future).unwrap();
    }
    helper.call_method0(py, "count").unwrap().extract(py).unwrap()
}

const COUNTING: &str = r#"
import asyncio

class Counting(asyncio.SelectorEventLoop):
    scheduled = 0
    def call_soon_threadsafe(self, *args, **kwargs):
        self.scheduled += 1
        return super().call_soon_threadsafe(*args, **kwargs)

event_loop = Counting()
asyncio.set_event_loop(event_loop)

def count():
    n = event_loop.scheduled
    event_loop.scheduled = 0
    return n
"#;

#[test]
fn a_converted_future_is_completed_at_most_once() {
    Python::with_gil(|py| {
        let helper = module(py, COUNTING);
        let globals = started(py);
        let panic = Err(Failure { panic: true });
        let other = Err(Failure { panic: false });
        let failed = Err(PyValueError::new_err("x"));
        assert_eq!(conclude(py, &globals, &helper, Some(Ok(py.None())), Ok(())), 1);
        assert_eq!(conclude(py, &globals, &helper, Some(failed), Ok(())), 1);
        assert_eq!(conclude(py, &globals, &helper, None, panic), 1);
        assert_eq!(conclude(py, &globals, &helper, None, other), 0);
    });
}
