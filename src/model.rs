//! The abstract state of the coordinator and its transitions.
use vstd::prelude::*;

verus! {

/// Where the coordinator stands in its request cycle.
#[derive(PartialEq, Eq, Structural, Clone, Copy, Debug)]
pub enum SearchState {
    Idle,
    Pending,
    Errored,
}

/// The abstract value of a request: a keyword search or the featured list.
pub enum Request {
    Search(Seq<char>),
    LoadFeaturedModels,
}

/// The abstract value of the coordinator.
pub struct SearchModel {
    /// Keyword of the last search that completed successfully.
    pub keyword: Option<Seq<char>>,
    /// The request whose dispatch unit is in flight.
    pub current: Option<Request>,
    /// The request queued behind it.
    pub next: Option<Request>,
    pub state: SearchState,
}

impl SearchModel {
    pub open spec fn pending(self) -> bool {
        self.state == SearchState::Pending
    }

    /// A request is held as current exactly while the coordinator is pending,
    /// and one is queued only behind it.
    pub open spec fn wf(self) -> bool {
        &&& (self.current is Some <==> self.pending())
        &&& (self.next is Some ==> self.pending())
    }

    /// A fresh coordinator: idle, nothing held, no keyword.
    pub open spec fn initial() -> SearchModel {
        SearchModel { keyword: None, current: None, next: None, state: SearchState::Idle }
    }

    /// Accepting a request: while one is in flight it replaces whatever was
    /// queued; otherwise it becomes current and is dispatched at once (the
    /// second component).
    pub open spec fn submit(self, r: Request) -> (SearchModel, Option<Request>) {
        if self.pending() {
            (SearchModel { keyword: self.keyword, current: self.current, next: Some(r), state: self.state }, None)
        } else {
            (SearchModel { keyword: self.keyword, current: Some(r), next: None, state: SearchState::Pending }, Some(r))
        }
    }

    /// The keyword retained once the current request has completed.
    pub open spec fn completed_keyword(self) -> Option<Seq<char>> {
        match self.current {
            Some(Request::Search(q)) => Some(q),
            _ => self.keyword,
        }
    }

    /// The in-flight request completed successfully: it is cleared, a search
    /// adopts its keyword, and a queued request, if any, is dispatched.
    pub open spec fn complete(self) -> (SearchModel, Option<Request>) {
        let idle = SearchModel {
            keyword: self.completed_keyword(),
            current: None,
            next: None,
            state: SearchState::Idle,
        };
        match self.next {
            Some(r) => idle.submit(r),
            None => (idle, None),
        }
    }

    /// The in-flight request failed: current and queued requests are dropped.
    pub open spec fn fail(self) -> SearchModel {
        SearchModel { keyword: self.keyword, current: None, next: None, state: SearchState::Errored }
    }
}

} // verus!
