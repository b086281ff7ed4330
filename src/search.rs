//! The executable coordinator.
use vstd::prelude::*;

use crate::model::{Request, SearchModel};
pub use crate::model::SearchState;

verus! {

/// A request from the UI, and the command dispatched to the backend for it.
#[derive(PartialEq, Eq, Debug)]
pub enum SearchCommand {
    Search(String),
    LoadFeaturedModels,
}

impl View for SearchCommand {
    type V = Request;

    open spec fn view(&self) -> Request {
        match self {
            SearchCommand::Search(q) => Request::Search(q@),
            SearchCommand::LoadFeaturedModels => Request::LoadFeaturedModels,
        }
    }
}

impl Clone for SearchCommand {
    fn clone(&self) -> (r: Self)
        ensures
            r == *self,
    {
        match self {
            SearchCommand::Search(q) => SearchCommand::Search(q.clone()),
            SearchCommand::LoadFeaturedModels => SearchCommand::LoadFeaturedModels,
        }
    }
}

/// What a dispatch unit delivers back: the models found, or a failure.
pub enum SearchAction<M> {
    Results(Vec<M>),
    Error,
}

/// Why a poll returned no models.
#[derive(PartialEq, Eq, Structural, Clone, Copy, Debug)]
pub enum SearchError {
    /// The backend reported a failure for the request in flight.
    BackendFailure,
    /// No outcome had been delivered yet.
    NoResultYet,
}

pub open spec fn request_of(c: Option<SearchCommand>) -> Option<Request> {
    match c {
        Some(c) => Some(c@),
        None => None,
    }
}

pub open spec fn keyword_of(k: Option<String>) -> Option<Seq<char>> {
    match k {
        Some(k) => Some(k@),
        None => None,
    }
}

/// The coordinator.
#[derive(Debug)]
pub struct Search {
    pub keyword: Option<String>,
    pub current_command: Option<SearchCommand>,
    pub next_command: Option<SearchCommand>,
    pub state: SearchState,
}

impl View for Search {
    type V = SearchModel;

    open spec fn view(&self) -> SearchModel {
        SearchModel {
            keyword: keyword_of(self.keyword),
            current: request_of(self.current_command),
            next: request_of(self.next_command),
            state: self.state,
        }
    }
}

impl Search {
    pub fn new() -> (s: Search)
        ensures
            s@ == SearchModel::initial(),
    {
        Search { keyword: None, current_command: None, next_command: None, state: SearchState::Idle }
    }

    /// Accepts a request. Returns the command to dispatch now, or `None` when
    /// the request was queued behind the one in flight.
    pub fn submit(&mut self, command: SearchCommand) -> (dispatch: Option<SearchCommand>)
        requires
            old(self)@.wf(),
        ensures
            final(self)@.wf(),
            (final(self)@, request_of(dispatch)) == old(self)@.submit(command@),
            dispatch is Some ==> dispatch == Some(command),
    {
        match self.state {
            SearchState::Pending => {
                self.next_command = Some(command);
                None
            },
            SearchState::Idle | SearchState::Errored => {
                self.state = SearchState::Pending;
                let dispatch = command.clone();
                self.current_command = Some(command);
                self.next_command = None;
                Some(dispatch)
            },
        }
    }
    /// Requests a keyword search.
    pub fn run_or_enqueue(&mut self, keyword: String) -> (dispatch: Option<SearchCommand>)
        requires
            old(self)@.wf(),
        ensures
            final(self)@.wf(),
            (final(self)@, request_of(dispatch)) == old(self)@.submit(Request::Search(keyword@)),
            dispatch is Some ==> dispatch == Some(SearchCommand::Search(keyword)),
    {
        self.submit(SearchCommand::Search(keyword))
    }

    /// Requests the list of featured models.
    pub fn load_featured_models(&mut self) -> (dispatch: Option<SearchCommand>)
        requires
            old(self)@.wf(),
        ensures
            final(self)@.wf(),
            (final(self)@, request_of(dispatch)) == old(self)@.submit(Request::LoadFeaturedModels),
            dispatch is Some ==> dispatch == Some(SearchCommand::LoadFeaturedModels),
    {
        self.submit(SearchCommand::LoadFeaturedModels)
    }

    /// Takes in what the dispatch unit delivered, if anything has arrived.
    /// Returns the models or the error, and the queued command that must now
    /// be dispatched, if one was promoted.
    pub fn process_results<M>(&mut self, outcome: Option<SearchAction<M>>) -> (r: (
        Result<Vec<M>, SearchError>,
        Option<SearchCommand>,
    ))
        requires
            old(self)@.wf(),
        ensures
            final(self)@.wf(),
            match outcome {
                None => {
                    &&& *final(self) == *old(self)
                    &&& r.0 == Err::<Vec<M>, SearchError>(SearchError::NoResultYet)
                    &&& r.1 is None
                },
                Some(SearchAction::Error) => {
                    &&& final(self)@ == old(self)@.fail()
                    &&& r.0 == Err::<Vec<M>, SearchError>(SearchError::BackendFailure)
                    &&& r.1 is None
                },
                Some(SearchAction::Results(models)) => {
                    &&& (final(self)@, request_of(r.1)) == old(self)@.complete()
                    &&& r.0 == Ok::<Vec<M>, SearchError>(models)
                    &&& r.1 is Some ==> r.1 == old(self).next_command
                },
            },
    {
        match outcome {
            None => (Err(SearchError::NoResultYet), None),
            Some(SearchAction::Error) => {
                self.state = SearchState::Errored;
                self.current_command = None;
                self.next_command = None;
                (Err(SearchError::BackendFailure), None)
            },
            Some(SearchAction::Results(models)) => {
                self.state = SearchState::Idle;
                let current = self.current_command.take();
                if let Some(SearchCommand::Search(keyword)) = current {
                    self.keyword = Some(keyword);
                }
                let dispatch = match self.next_command.take() {
                    Some(next) => self.submit(next),
                    None => None,
                };
                (Ok(models), dispatch)
            },
        }
    }

    /// Whether a request is in flight.
    pub fn is_pending(&self) -> (r: bool)
        ensures
            r == self@.pending(),
    {
        matches!(self.state, SearchState::Pending)
    }

    /// Whether the last request failed.
    pub fn was_error(&self) -> (r: bool)
        ensures
            r == (self@.state == SearchState::Errored),
    {
        matches!(self.state, SearchState::Errored)
    }
}

impl Default for Search {
    fn default() -> (s: Self)
        ensures
            s@ == SearchModel::initial(),
    {
        Search::new()
    }
}

} // verus!
