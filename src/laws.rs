//! Laws of the coordinator, stated and proved over its abstract model.
use vstd::prelude::*;

use crate::model::{Request, SearchModel, SearchState};

verus! {

/// One thing that can happen to the coordinator.
pub enum Event {
    /// The UI submits a request.
    Submit(Request),
    /// The dispatch unit in flight delivers its models.
    Completed,
    /// The dispatch unit in flight delivers a failure.
    Failed,
    /// The UI polls before anything was delivered.
    NothingYet,
}

impl Event {
    pub open spec fn is_outcome(self) -> bool {
        self is Completed || self is Failed
    }
}

/// The effect of one event: the new state and the request dispatched, if any.
pub open spec fn step(m: SearchModel, e: Event) -> (SearchModel, Option<Request>) {
    match e {
        Event::Submit(r) => m.submit(r),
        Event::Completed => m.complete(),
        Event::Failed => (m.fail(), None),
        Event::NothingYet => (m, None),
    }
}

/// Submitting each request in turn: the final state and what was dispatched.
pub open spec fn submit_all(m: SearchModel, reqs: Seq<Request>) -> (SearchModel, Seq<Request>)
    decreases reqs.len(),
{
    if reqs.len() == 0 {
        (m, Seq::empty())
    } else {
        let first = m.submit(reqs[0]);
        let rest = submit_all(first.0, reqs.drop_first());
        match first.1 {
            Some(d) => (rest.0, seq![d] + rest.1),
            None => (rest.0, rest.1),
        }
    }
}

/// Outcomes are delivered only by a dispatch unit that is in flight, so an
/// outcome event occurs only while the coordinator is pending.
pub open spec fn feasible(m: SearchModel, events: Seq<Event>) -> bool
    decreases events.len(),
{
    events.len() == 0 || {
        &&& (events[0].is_outcome() ==> m.pending())
        &&& feasible(step(m, events[0]).0, events.drop_first())
    }
}

/// The state after a run of events.
pub open spec fn run(m: SearchModel, events: Seq<Event>) -> SearchModel
    decreases events.len(),
{
    if events.len() == 0 {
        m
    } else {
        run(step(m, events[0]).0, events.drop_first())
    }
}

/// How many dispatch units are alive after a run that starts with `alive` of
/// them: each dispatch starts one, each outcome ends one.
pub open spec fn alive_after(m: SearchModel, alive: int, events: Seq<Event>) -> int
    decreases events.len(),
{
    if events.len() == 0 {
        alive
    } else {
        let s = step(m, events[0]);
        let started: int = if s.1 is Some { 1 } else { 0 };
        let ended: int = if events[0].is_outcome() { 1 } else { 0 };
        alive_after(s.0, alive + started - ended, events.drop_first())
    }
}

pub open spec fn held(m: SearchModel) -> int {
    if m.current is Some { 1 } else { 0 }
}

/// Single flight, one step at a time: every event keeps the invariant that a
/// request is current exactly while one is in flight; a dispatch happens only
/// when nothing is in flight or the request in flight has just completed, and
/// what is dispatched becomes the current request.
pub proof fn lemma_single_flight_step(m: SearchModel, e: Event)
    requires
        m.wf(),
    ensures
        step(m, e).0.wf(),
        step(m, e).1 is Some ==> (m.current is None || e is Completed),
        step(m, e).1 is Some ==> step(m, e).0.current == step(m, e).1,
{
}

/// Single flight over any run: starting from a well-formed state whose held
/// request is the one unit alive, after any feasible run of events the number
/// of dispatch units alive is exactly the number of requests held as current,
/// hence at most one.
pub proof fn lemma_single_flight(m: SearchModel, events: Seq<Event>)
    requires
        m.wf(),
        feasible(m, events),
    ensures
        run(m, events).wf(),
        alive_after(m, held(m), events) == held(run(m, events)),
        0 <= alive_after(m, held(m), events) <= 1,
    decreases events.len(),
{
    if events.len() > 0 {
        lemma_single_flight_step(m, events[0]);
        lemma_single_flight(step(m, events[0]).0, events.drop_first());
    }
}

/// Requests submitted while one is in flight are coalesced: none of them is
/// dispatched, only the newest stays queued, and that one is what is
/// dispatched when the request in flight completes.
pub proof fn lemma_coalesce_keeps_newest(m: SearchModel, reqs: Seq<Request>)
    requires
        m.wf(),
        m.pending(),
        reqs.len() > 0,
    ensures
        submit_all(m, reqs).1.len() == 0,
        submit_all(m, reqs).0 == (SearchModel {
            keyword: m.keyword,
            current: m.current,
            next: Some(reqs.last()),
            state: SearchState::Pending,
        }),
        submit_all(m, reqs).0.complete().1 == Some(reqs.last()),
        submit_all(m, reqs).0.complete().0.current == Some(reqs.last()),
        submit_all(m, reqs).0.complete().0.next is None,
    decreases reqs.len(),
{
    let rest = reqs.drop_first();
    if reqs.len() > 1 {
        lemma_coalesce_keeps_newest(m.submit(reqs[0]).0, rest);
        assert(rest.last() == reqs.last());
    } else {
        assert(submit_all(m.submit(reqs[0]).0, rest) == (m.submit(reqs[0]).0, Seq::<Request>::empty()));
    }
}

/// A search submitted with nothing in flight sets the retained keyword to its
/// query once it completes; a featured-list request leaves the keyword as it
/// was, and so does a failure.
pub proof fn lemma_keyword_follows_search(m: SearchModel, q: Seq<char>)
    requires
        m.wf(),
        !m.pending(),
    ensures
        m.submit(Request::Search(q)).0.complete().0.keyword == Some(q),
        m.submit(Request::LoadFeaturedModels).0.complete().0.keyword == m.keyword,
        m.submit(Request::Search(q)).0.fail().keyword == m.keyword,
        m.submit(Request::LoadFeaturedModels).0.fail().keyword == m.keyword,
{
}

/// After a failure nothing is pending, the error is recorded, and neither a
/// current nor a queued request remains.
pub proof fn lemma_failure_clears(m: SearchModel)
    ensures
        m.fail().wf(),
        !m.fail().pending(),
        m.fail().state == SearchState::Errored,
        m.fail().current is None,
        m.fail().next is None,
{
}

} // verus!
