//! A single-flight request coordinator for model searches.
//!
//! At most one request is in flight against the backend at a time; requests
//! that arrive meanwhile are coalesced into one queued follow-up (the newest
//! wins). The coordinator itself only decides: each transition hands back the
//! command that the caller must now dispatch, if any, and outcomes are fed back
//! in through `Search::process_results`.
use vstd::prelude::*;

pub mod model;
pub mod laws;
pub mod search;

pub use model::{Request, SearchModel};
pub use search::{Search, SearchAction, SearchCommand, SearchError, SearchState};
