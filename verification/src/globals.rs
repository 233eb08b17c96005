//! The handles that an initialization leaves behind for the rest of the program.
use crate::python::same_object;
use once_cell::sync::OnceCell;
use pyo3::PyObject;
use vstd::prelude::*;

verus! {

/// `once_cell::sync::OnceCell`: a cell that can be written only once.
#[verifier::external_type_specification]
#[verifier::external_body]
#[verifier::reject_recursive_types(T)]
pub struct ExOnceCell<T>(once_cell::sync::OnceCell<T>);

/// What a cell holds, if it has been written.
pub uninterp spec fn contents(cell: OnceCell<PyObject>) -> Option<PyObject>;

/// Calls `once_cell::sync::OnceCell::new`, which makes an empty cell.
#[verifier::external_body]
fn empty_cell() -> (cell: OnceCell<PyObject>)
    ensures
        contents(cell) is None,
{
    OnceCell::new()
}

/// Calls `once_cell::sync::OnceCell::get_or_init`: an empty cell takes the object, and a full
/// one keeps what it holds. The cell is borrowed exclusively, so that no other thread can write
/// to it meanwhile.
#[verifier::external_body]
fn fill_cell(cell: &mut OnceCell<PyObject>, object: PyObject)
    ensures
        contents(*final(cell)) == Some(
            match contents(*old(cell)) {
                Some(held) => held,
                None => object,
            },
        ),
{
    cell.get_or_init(|| object);
}

/// Calls `once_cell::sync::OnceCell::get`, which gives what the cell holds.
#[verifier::external_body]
fn read_cell(cell: &OnceCell<PyObject>) -> (object: Option<&PyObject>)
    ensures
        object == (match contents(*cell) {
            Some(held) => Some(&held),
            None => None,
        }),
{
    cell.get()
}

/// A cell of its own that holds the same object.
fn copy_cell(cell: &OnceCell<PyObject>) -> (copy: OnceCell<PyObject>)
    ensures
        contents(copy) == contents(*cell),
{
    let mut copy = empty_cell();
    match read_cell(cell) {
        Some(object) => fill_cell(&mut copy, same_object(object)),
        None => {},
    }
    copy
}

/// The six Python objects that the library works with once it is initialized.
pub struct Handles {
    /// The module `asyncio`.
    pub asyncio: PyObject,
    /// The event loop.
    pub event_loop: PyObject,
    /// The thread pool that the event loop runs blocking work on.
    pub executor: PyObject,
    /// The event loop's `call_soon_threadsafe`.
    pub call_soon: PyObject,
    /// `asyncio.run_coroutine_threadsafe`.
    pub create_task: PyObject,
    /// The event loop's `create_future`.
    pub create_future: PyObject,
}

/// The library's state: nothing before the first successful initialization, and the handles
/// that it obtained ever after.
pub struct Globals {
    asyncio: OnceCell<PyObject>,
    event_loop: OnceCell<PyObject>,
    executor: OnceCell<PyObject>,
    call_soon: OnceCell<PyObject>,
    create_task: OnceCell<PyObject>,
    create_future: OnceCell<PyObject>,
}

impl View for Globals {
    type V = Option<Handles>;

    closed spec fn view(&self) -> Option<Handles> {
        if self.full() {
            Some(
                Handles {
                    asyncio: contents(self.asyncio)->0,
                    event_loop: contents(self.event_loop)->0,
                    executor: contents(self.executor)->0,
                    call_soon: contents(self.call_soon)->0,
                    create_task: contents(self.create_task)->0,
                    create_future: contents(self.create_future)->0,
                },
            )
        } else {
            None
        }
    }
}

impl Clone for Globals {
    fn clone(&self) -> (copy: Self)
        ensures
            copy@ == self@,
            self.wf() ==> copy.wf(),
    {
        Globals {
            asyncio: copy_cell(&self.asyncio),
            event_loop: copy_cell(&self.event_loop),
            executor: copy_cell(&self.executor),
            call_soon: copy_cell(&self.call_soon),
            create_task: copy_cell(&self.create_task),
            create_future: copy_cell(&self.create_future),
        }
    }
}

impl Globals {
    spec fn full(self) -> bool {
        &&& contents(self.asyncio) is Some
        &&& contents(self.event_loop) is Some
        &&& contents(self.executor) is Some
        &&& contents(self.call_soon) is Some
        &&& contents(self.create_task) is Some
        &&& contents(self.create_future) is Some
    }

    spec fn empty(self) -> bool {
        &&& contents(self.asyncio) is None
        &&& contents(self.event_loop) is None
        &&& contents(self.executor) is None
        &&& contents(self.call_soon) is None
        &&& contents(self.create_task) is None
        &&& contents(self.create_future) is None
    }

    /// The six cells are written together.
    pub closed spec fn wf(self) -> bool {
        self.full() || self.empty()
    }

    /// The state before any initialization.
    pub fn new() -> (globals: Self)
        ensures
            globals.wf(),
            globals@ is None,
    {
        Globals {
            asyncio: empty_cell(),
            event_loop: empty_cell(),
            executor: empty_cell(),
            call_soon: empty_cell(),
            create_task: empty_cell(),
            create_future: empty_cell(),
        }
    }

    /// Keeps the handles of an initialization, unless an earlier one has left its own.
    pub(crate) fn install(&mut self, handles: Handles)
        requires
            old(self).wf(),
        ensures
            final(self).wf(),
            final(self)@ == Some(
                match old(self)@ {
                    Some(held) => held,
                    None => handles,
                },
            ),
    {
        fill_cell(&mut self.asyncio, handles.asyncio);
        fill_cell(&mut self.event_loop, handles.event_loop);
        fill_cell(&mut self.executor, handles.executor);
        fill_cell(&mut self.call_soon, handles.call_soon);
        fill_cell(&mut self.create_task, handles.create_task);
        fill_cell(&mut self.create_future, handles.create_future);
    }

    /// Whether an initialization has succeeded.
    pub fn is_initialized(&self) -> (initialized: bool)
        requires
            self.wf(),
        ensures
            initialized == (self@ is Some),
    {
        read_cell(&self.event_loop).is_some()
    }

    /// The module `asyncio`.
    pub(crate) fn asyncio(&self) -> (object: &PyObject)
        requires
            self@ is Some,
        ensures
            *object == self@->0.asyncio,
    {
        read_cell(&self.asyncio).unwrap()
    }

    /// The event loop.
    pub(crate) fn event_loop(&self) -> (object: &PyObject)
        requires
            self@ is Some,
        ensures
            *object == self@->0.event_loop,
    {
        read_cell(&self.event_loop).unwrap()
    }

    /// The thread pool of the event loop.
    pub(crate) fn executor(&self) -> (object: &PyObject)
        requires
            self@ is Some,
        ensures
            *object == self@->0.executor,
    {
        read_cell(&self.executor).unwrap()
    }

    /// The event loop's `call_soon_threadsafe`.
    pub(crate) fn call_soon(&self) -> (object: &PyObject)
        requires
            self@ is Some,
        ensures
            *object == self@->0.call_soon,
    {
        read_cell(&self.call_soon).unwrap()
    }

    /// `asyncio.run_coroutine_threadsafe`.
    pub(crate) fn create_task(&self) -> (object: &PyObject)
        requires
            self@ is Some,
        ensures
            *object == self@->0.create_task,
    {
        read_cell(&self.create_task).unwrap()
    }

    /// The event loop's `create_future`.
    pub(crate) fn create_future(&self) -> (object: &PyObject)
        requires
            self@ is Some,
        ensures
            *object == self@->0.create_future,
    {
        read_cell(&self.create_future).unwrap()
    }
}

} // verus!
