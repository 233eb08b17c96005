//! The Python interpreter as the library sees it.
//!
//! A [`Session`] is a GIL guard together with a ghost history of everything that the library did
//! under it. The interpreter answers what it likes, so nothing is claimed of a reply. What is
//! handed to the interpreter, in which order, and what becomes of each reply is what the
//! contracts of this library are about. No function of the library gets hold of a GIL guard other
//! than in the session that it is handed, and a closure of the caller's comes in a [`Handoff`],
//! which only a session opens. So the history of that session is all that it did: each entry
//! [`Event::Callback`] is one call of one closure, and a closure that was called has its entry.
//!
//! Each trusted method of a session makes one call into an outside crate and claims one thing of
//! it: that the history has gained the entry for this call, which holds the arguments as they
//! were handed over and the reply as it came back. Python code that runs during a call may
//! block, end the process, or carry a Rust panic out of a Python callback, which pyo3 resumes;
//! the call then does not return, and nothing in its arguments tells beforehand.
use futures::channel::oneshot::Sender;
use pyo3::exceptions::{PyException, PyKeyboardInterrupt};
use pyo3::{IntoPy, PyErr, PyObject, PyResult, Python};
use vstd::prelude::*;

verus! {

/// `pyo3::PyAny`: a Python object of any type.
#[verifier::external_type_specification]
#[verifier::external_body]
pub struct ExPyAny(pyo3::PyAny);

/// `pyo3::Py`: an owned reference to a Python object. Two references are equal when they refer
/// to the same object.
#[verifier::external_type_specification]
#[verifier::external_body]
#[verifier::reject_recursive_types(T)]
pub struct ExPy<T>(pyo3::Py<T>);

/// `pyo3::PyErr`: a Python exception.
#[verifier::external_type_specification]
#[verifier::external_body]
pub struct ExPyErr(pyo3::PyErr);

/// `pyo3::Python`: the proof that the GIL is held.
#[verifier::external_type_specification]
#[verifier::external_body]
pub struct ExPython<'p>(pyo3::Python<'p>);

/// `futures::channel::oneshot::Sender`: the sending half of a one-shot channel.
#[verifier::external_type_specification]
#[verifier::external_body]
#[verifier::reject_recursive_types(T)]
pub struct ExSender<T>(futures::channel::oneshot::Sender<T>);

/// Something that can be asked of the interpreter and that may fail.
pub enum Request {
    /// `import module`
    Import { module: Seq<char> },
    /// `object.name`
    GetAttr { object: PyObject, name: Seq<char> },
    /// `callable(*args)`
    Call { callable: PyObject, args: Seq<PyObject> },
    /// `object.name(*args)`
    CallMethod { object: PyObject, name: Seq<char>, args: Seq<PyObject> },
}

/// The request for `object.name(*args)`.
pub open spec fn method(object: PyObject, name: Seq<char>, args: Seq<PyObject>) -> Request {
    Request::CallMethod { object, name, args }
}

/// One entry of a session's history.
pub enum Event {
    /// The interpreter was asked for something and replied.
    Asked { request: Request, reply: PyResult<PyObject> },
    /// `None` was taken from the interpreter.
    TookNone { object: PyObject },
    /// An object was read as a `bool`.
    ReadBool { object: PyObject, value: PyResult<bool> },
    /// An exception was tested for being a `KeyboardInterrupt`.
    TestedInterrupt { err: PyErr, interrupt: bool },
    /// An `Exception` with a message was made.
    MadeException { message: Seq<char>, err: PyErr },
    /// An exception instance was turned into an error.
    FromInstance { instance: PyObject, err: PyErr },
    /// An error was turned into an exception instance.
    IntoInstance { err: PyErr, instance: PyObject },
    /// An item was sent into a one-shot channel; `taken` tells whether the channel took it.
    Sent {
        tx: Sender<PyResult<PyObject>>,
        item: PyResult<PyObject>,
        taken: bool,
    },
    /// Control passed to a closure of the caller's and came back.
    Callback,
}

/// A closure of the caller's on its way to the one call that a session may make of it. Nothing
/// else can call it, so a closure without an [`Event::Callback`] in the history was not called.
pub struct Handoff<F> {
    f: F,
}

impl<F> Handoff<F> {
    /// The closure.
    pub closed spec fn closure(self) -> F {
        self.f
    }

    /// Puts a closure up for being called.
    pub fn new(f: F) -> (handoff: Self)
        ensures
            handoff.closure() == f,
        opens_invariants none
        no_unwind
    {
        Handoff { f }
    }
}

/// A GIL guard and the history of what was done under it.
pub struct Session<'p> {
    py: Python<'p>,
    history: Ghost<Seq<Event>>,
}

impl<'p> View for Session<'p> {
    type V = Seq<Event>;

    closed spec fn view(&self) -> Seq<Event> {
        self.history@
    }
}

impl<'p> Session<'p> {
    /// The GIL guard that the session was opened under.
    pub closed spec fn guard(self) -> Python<'p> {
        self.py
    }

    /// Opens a session under the given GIL guard, with an empty history. Nothing is asked of the
    /// interpreter: every method that does may unwind, and this function does not.
    pub fn new(py: Python<'p>) -> (session: Self)
        ensures
            session.guard() == py,
            session@ == Seq::<Event>::empty(),
        opens_invariants none
        no_unwind
    {
        Session { py, history: Ghost(Seq::empty()) }
    }

    /// Passes control to a closure of the caller's, which is thereby used up.
    pub(crate) fn hand_over<A, R, F: FnOnce(A) -> R>(
        &mut self,
        handoff: Handoff<F>,
        arg: A,
    ) -> (result: R)
        requires
            call_requires(handoff.closure(), (arg,)),
        ensures
            call_ensures(handoff.closure(), (arg,), result),
            final(self)@ == old(self)@.push(Event::Callback),
    {
        let result = (handoff.f)(arg);
        self.history = Ghost(self.history@.push(Event::Callback));
        result
    }

    /// Calls `pyo3::Python::import`. The history gains the module's name and the reply.
    #[verifier::external_body]
    pub(crate) fn import(&mut self, module: &str) -> (reply: PyResult<PyObject>)
        ensures
            final(self)@ == old(self)@.push(
                Event::Asked { request: Request::Import { module: module@ }, reply },
            ),
    {
        match self.py.import(module) {
            Ok(module) => Ok(module.into()),
            Err(err) => Err(err),
        }
    }

    /// Calls `pyo3::Py::getattr`. The history gains the object, the attribute's name and the
    /// reply.
    #[verifier::external_body]
    pub(crate) fn getattr(&mut self, object: &PyObject, name: &str) -> (reply: PyResult<PyObject>)
        ensures
            final(self)@ == old(self)@.push(
                Event::Asked { request: Request::GetAttr { object: *object, name: name@ }, reply },
            ),
    {
        object.getattr(self.py, name)
    }

    /// Calls `pyo3::Py::call0`. The history gains the callable, without arguments, and the
    /// reply.
    #[verifier::external_body]
    pub(crate) fn call0(&mut self, callable: &PyObject) -> (reply: PyResult<PyObject>)
        ensures
            final(self)@ == old(self)@.push(
                Event::Asked {
                    request: Request::Call { callable: *callable, args: Seq::empty() },
                    reply,
                },
            ),
    {
        callable.call0(self.py)
    }

    /// Calls `pyo3::Py::call1` with two arguments. The history gains the callable, the
    /// arguments and the reply.
    #[verifier::external_body]
    pub(crate) fn call1(
        &mut self,
        callable: &PyObject,
        first: &PyObject,
        second: &PyObject,
    ) -> (reply: PyResult<PyObject>)
        ensures
            final(self)@ == old(self)@.push(
                Event::Asked {
                    request: Request::Call { callable: *callable, args: seq![*first, *second] },
                    reply,
                },
            ),
    {
        callable.call1(self.py, (first, second))
    }

    /// Calls `pyo3::Py::call_method0`. The history gains the object, the method's name, no
    /// arguments, and the reply.
    #[verifier::external_body]
    pub(crate) fn call_method0(
        &mut self,
        object: &PyObject,
        name: &str,
    ) -> (reply: PyResult<PyObject>)
        ensures
            final(self)@ == old(self)@.push(
                Event::Asked {
                    request: Request::CallMethod {
                        object: *object,
                        name: name@,
                        args: Seq::empty(),
                    },
                    reply,
                },
            ),
    {
        object.call_method0(self.py, name)
    }

    /// Calls `pyo3::Py::call_method1` with one argument. The history gains the object, the
    /// method's name, the argument and the reply.
    #[verifier::external_body]
    pub(crate) fn call_method1(
        &mut self,
        object: &PyObject,
        name: &str,
        arg: &PyObject,
    ) -> (reply: PyResult<PyObject>)
        ensures
            final(self)@ == old(self)@.push(
                Event::Asked {
                    request: Request::CallMethod {
                        object: *object,
                        name: name@,
                        args: seq![*arg],
                    },
                    reply,
                },
            ),
    {
        object.call_method1(self.py, name, (arg,))
    }

    /// Calls `pyo3::Python::None`. The history gains the object.
    #[verifier::external_body]
    pub(crate) fn none(&mut self) -> (object: PyObject)
        ensures
            final(self)@ == old(self)@.push(Event::TookNone { object }),
    {
        self.py.None()
    }

    /// Calls `pyo3::Py::extract` for a `bool`. The history gains the object and what was read.
    #[verifier::external_body]
    pub(crate) fn read_bool(&mut self, object: &PyObject) -> (value: PyResult<bool>)
        ensures
            final(self)@ == old(self)@.push(Event::ReadBool { object: *object, value }),
    {
        object.extract(self.py)
    }

    /// Calls `pyo3::PyErr::is_instance` for `KeyboardInterrupt`. The history gains the error and
    /// the verdict.
    #[verifier::external_body]
    pub(crate) fn is_interrupt(&mut self, err: &PyErr) -> (interrupt: bool)
        ensures
            final(self)@ == old(self)@.push(Event::TestedInterrupt { err: *err, interrupt }),
    {
        err.is_instance::<PyKeyboardInterrupt>(self.py)
    }

    /// Calls `pyo3::exceptions::PyException::new_err`. The history gains the message and the
    /// error that was made.
    #[verifier::external_body]
    pub(crate) fn exception(&mut self, message: &'static str) -> (err: PyErr)
        ensures
            final(self)@ == old(self)@.push(Event::MadeException { message: message@, err }),
    {
        PyException::new_err(message)
    }

    /// Calls `pyo3::PyErr::from_instance`. The history gains the instance and the error.
    #[verifier::external_body]
    pub(crate) fn from_instance(&mut self, instance: &PyObject) -> (err: PyErr)
        ensures
            final(self)@ == old(self)@.push(Event::FromInstance { instance: *instance, err }),
    {
        PyErr::from_instance(instance.as_ref(self.py))
    }

    /// Calls `pyo3::IntoPy::into_py` on an error. The history gains the error and the instance.
    #[verifier::external_body]
    pub(crate) fn into_instance(&mut self, err: PyErr) -> (instance: PyObject)
        ensures
            final(self)@ == old(self)@.push(Event::IntoInstance { err, instance }),
    {
        err.into_py(self.py)
    }

    /// Calls `futures::channel::oneshot::Sender::send`. The history gains the channel, the item
    /// and whether the channel took it; an item that was not taken comes back.
    #[verifier::external_body]
    pub(crate) fn send(
        &mut self,
        tx: Sender<PyResult<PyObject>>,
        item: PyResult<PyObject>,
    ) -> (sent: Result<(), PyResult<PyObject>>)
        ensures
            final(self)@ == old(self)@.push(Event::Sent { tx, item, taken: sent is Ok }),
            sent matches Err(back) ==> back == item,
    {
        tx.send(item)
    }
}

/// Calls `pyo3::Py::clone`, which gives another reference to the same object.
#[verifier::external_body]
pub(crate) fn same_object(object: &PyObject) -> (same: PyObject)
    ensures
        same == *object,
{
    object.clone()
}

} // verus!
