//! Plans: sequences of requests in which each one may depend on the answers so far.
use crate::python::{Event, Request};
use pyo3::{PyErr, PyObject, PyResult};
use vstd::prelude::*;

verus! {

/// From the answers so far to the next request, or to `None` when nothing is left to ask.
pub type Plan = spec_fn(Seq<PyObject>) -> Option<Request>;

/// The events that a history gained between two points in time.
pub open spec fn since(before: Seq<Event>, after: Seq<Event>) -> Seq<Event> {
    after.skip(before.len() as int)
}

/// Whether the event is a request that was answered.
pub open spec fn answered(event: Event) -> bool {
    event is Asked && event->reply is Ok
}

/// The answers in a run of events.
pub open spec fn answers(events: Seq<Event>) -> Seq<PyObject> {
    events.map_values(|event: Event| event->reply->Ok_0)
}

/// Whether the event asks what the plan calls for after the given answers.
pub open spec fn asks(plan: Plan, given: Seq<PyObject>, event: Event) -> bool {
    event is Asked && plan(given) == Some(event->request)
}

/// Whether the events are a beginning of the plan in which every request was answered.
pub open spec fn underway(plan: Plan, events: Seq<Event>) -> bool {
    forall|i: int|
        0 <= i < events.len() ==> answered(#[trigger] events[i]) && asks(
            plan,
            answers(events).take(i),
            events[i],
        )
}

/// Whether the events are a run of the plan with the given outcome: the requests come in the
/// plan's order, each made from the answers before it, up to the first one that fails. The
/// outcome is that failure, or else all the answers.
pub open spec fn ran(
    plan: Plan,
    events: Seq<Event>,
    outcome: PyResult<Seq<PyObject>>,
) -> bool {
    match outcome {
        Ok(given) => {
            &&& underway(plan, events)
            &&& given == answers(events)
            &&& plan(given) is None
        },
        Err(err) => {
            &&& events.len() > 0
            &&& underway(plan, events.drop_last())
            &&& asks(plan, answers(events.drop_last()), events.last())
            &&& events.last()->reply == Err::<PyObject, PyErr>(err)
        },
    }
}

/// The outcome of a run that a function reports by returning `result`.
pub open spec fn outcome<T>(events: Seq<Event>, result: PyResult<T>) -> PyResult<Seq<PyObject>> {
    match result {
        Ok(_) => Ok(answers(events)),
        Err(err) => Err(err),
    }
}

/// Making the plan's next request keeps the plan underway when it is answered, and ends the run
/// with the failure when it is not.
pub broadcast proof fn lemma_asked(
    plan: Plan,
    start: Seq<Event>,
    now: Seq<Event>,
    event: Event,
)
    requires
        start.is_prefix_of(now),
        #[trigger] underway(plan, since(start, now)),
        asks(plan, answers(since(start, now)), event),
    ensures
        start.is_prefix_of(#[trigger] now.push(event)),
        since(start, now.push(event)) == since(start, now).push(event),
        match event->reply {
            Ok(object) => {
                &&& underway(plan, since(start, now.push(event)))
                &&& answers(since(start, now.push(event))) == answers(since(start, now)).push(
                    object,
                )
            },
            Err(err) => ran(plan, since(start, now.push(event)), Err(err)),
        },
{
    let events = since(start, now);
    let more = events.push(event);
    assert(since(start, now.push(event)) =~= more);
    assert(more.drop_last() =~= events);
    if answered(event) {
        assert(answers(more) =~= answers(events).push(event->reply->Ok_0));
        assert forall|i: int| 0 <= i < more.len() implies answered(#[trigger] more[i]) && asks(
            plan,
            answers(more).take(i),
            more[i],
        ) by {
            assert(answers(more).take(i) =~= answers(events).take(i));
            if i < events.len() {
                assert(more[i] == events[i]);
            } else {
                assert(answers(events).take(i) =~= answers(events));
            }
        }
    }
}

/// What was gained until some point, and from there on, is what was gained in all.
pub proof fn lemma_since(start: Seq<Event>, mid: Seq<Event>, now: Seq<Event>)
    requires
        start.is_prefix_of(mid),
        mid.is_prefix_of(now),
    ensures
        start.is_prefix_of(now),
        since(start, now) == since(start, mid) + since(mid, now),
{
    assert(since(start, now) =~= since(start, mid) + since(mid, now));
}

/// Nothing has been asked yet at the start of a plan.
pub proof fn lemma_start(plan: Plan, start: Seq<Event>)
    ensures
        start.is_prefix_of(start),
        since(start, start) == Seq::<Event>::empty(),
        underway(plan, since(start, start)),
        answers(since(start, start)) == Seq::<PyObject>::empty(),
{
    assert(since(start, start) =~= Seq::<Event>::empty());
    assert(answers(since(start, start)) =~= Seq::<PyObject>::empty());
}

} // verus!
