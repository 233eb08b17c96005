//! Running a test suite on the event loop.
use crate::event_loop::{
    close_plan, init_len, init_plan, initialized, lemma_init_len, try_close, try_init,
};
use crate::generic::{driven, run_until_complete};
use crate::globals::{Globals, Handles};
use crate::plan::{answers, lemma_since, outcome, ran, since};
use crate::python::{Event, Handoff, Session};
use pyo3::{PyObject, PyResult};
use vstd::prelude::*;

verus! {

/// Whether the events are those of a suite that was spawned by `spawn` and driven to completion
/// between opening and closing the runtime: opening, the call that prepared the suite, driving
/// the suite, which ends at the event number `end` and comes to `body`, and closing if it
/// passed. The first failure is the result.
pub open spec fn bracketed<S: FnOnce((&Globals, PyObject, PyObject))>(
    before: Option<Handles>,
    spawn: Handoff<S>,
    events: Seq<Event>,
    after: Globals,
    end: int,
    body: PyResult<()>,
    result: PyResult<()>,
) -> bool {
    let opening = events.take(init_len());
    let closing = events.skip(end);
    &&& init_len() < end <= events.len()
    &&& ran(init_plan(), opening, Ok(answers(opening)))
    &&& after@ == initialized(before, Ok(answers(opening)))
    &&& events[init_len()] == Event::Callback
    &&& driven(after, spawn.closure(), events.subrange(init_len() + 1, end), body)
    &&& match body {
        Err(_) => closing.len() == 0 && result == body,
        Ok(_) => ran(close_plan(after@->0), closing, outcome(closing, result)),
    }
}

/// Whether the events and the result are those of running the suite that `prepare` prepares:
/// either the initialization failed, and nothing was prepared, or one suite was prepared and
/// driven inside the runtime.
pub open spec fn suite_ran<
    S: FnOnce((&Globals, PyObject, PyObject)),
    P: FnOnce(&Globals) -> Handoff<S>,
>(
    before: Option<Handles>,
    prepare: P,
    events: Seq<Event>,
    after: Globals,
    result: PyResult<()>,
) -> bool {
    ||| {
        &&& result is Err
        &&& ran(init_plan(), events, Err(result->Err_0))
        &&& after@ == before
    }
    ||| exists|spawn: Handoff<S>, end: int, body: PyResult<()>|
        {
            &&& call_ensures(prepare, (&after,), spawn)
            &&& #[trigger] bracketed(before, spawn, events, after, end, body, result)
        }
}

/// Runs a test suite on the event loop. Once the runtime is initialized, `prepare` prepares the
/// suite and gives the function that spawns it.
pub fn test_main<S, P>(
    py: &mut Session<'_>,
    globals: &mut Globals,
    prepare: Handoff<P>,
) -> (result: PyResult<()>) where
    S: FnOnce((&Globals, PyObject, PyObject)),
    P: FnOnce(&Globals) -> Handoff<S>,

    requires
        old(globals).wf(),
        forall|g: &Globals|
            g.wf() && g@ is Some ==> #[trigger] call_requires(prepare.closure(), (g,)),
        forall|g: &Globals, spawn: Handoff<S>, h: &Globals, future: PyObject|
            #[trigger] call_ensures(prepare.closure(), (g,), spawn) && h@ is Some
                ==> #[trigger] call_requires(spawn.closure(), ((h, future, future),)),
    ensures
        old(py)@.is_prefix_of(final(py)@),
        final(globals).wf(),
        suite_ran(
            old(globals)@,
            prepare.closure(),
            since(old(py)@, final(py)@),
            *final(globals),
            result,
        ),
{
    let ghost start = py@;
    let ghost before = globals@;
    try_init(py, globals)?;
    let ghost opened = py@;
    let ghost opening = since(start, opened);
    proof {
        lemma_init_len(opening, answers(opening));
    }
    let spawn = py.hand_over(prepare, &*globals);
    let ghost prepared = py@;
    let ghost f = spawn;
    proof {
        lemma_since(start, opened, prepared);
        assert(since(opened, prepared) =~= seq![Event::Callback]);
    }
    let body = run_until_complete(py, globals, spawn);
    let ghost ran_through = py@;
    let ghost end = since(start, ran_through).len() as int;
    proof {
        lemma_since(start, prepared, ran_through);
        let events = since(start, ran_through);
        assert(events.take(init_len()) =~= opening);
        assert(events.subrange(init_len() + 1, end) =~= since(prepared, ran_through));
        if body is Err {
            assert(bracketed(before, f, events, *globals, end, body, body));
        }
    }
    body?;
    let result = try_close(py, globals);
    proof {
        lemma_since(start, ran_through, py@);
        let events = since(start, py@);
        assert(events.take(init_len()) =~= opening);
        assert(events.subrange(init_len() + 1, end) =~= since(prepared, ran_through));
        assert(events.skip(end) =~= since(ran_through, py@));
        assert(bracketed(before, f, events, *globals, end, body, result));
    }
    result
}

} // verus!
