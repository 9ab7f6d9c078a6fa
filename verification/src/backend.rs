//! What the cache can answer to each of the three operations.
//!
//! The cache itself is reached over the network by whoever runs the
//! gateway. Its raw answers are sorted here into the outcomes that decide a
//! reply; every failure of the connection or of the cache counts as the same
//! outcome, whatever its cause.

use vstd::prelude::*;

verus! {

/// Outcome of fetching a key.
#[derive(Clone, Debug, PartialEq, Eq)]
pub enum FetchOutcome {
    /// The key holds this value.
    Found(Vec<u8>),
    /// The key holds nothing.
    Absent,
    /// The cache could not be asked or did not answer properly.
    BackendFailure,
}

/// What a `FetchOutcome` holds.
pub enum FetchOutcomeView {
    Found(Seq<u8>),
    Absent,
    BackendFailure,
}

impl View for FetchOutcome {
    type V = FetchOutcomeView;

    open spec fn view(&self) -> FetchOutcomeView {
        match self {
            FetchOutcome::Found(value) => FetchOutcomeView::Found(value@),
            FetchOutcome::Absent => FetchOutcomeView::Absent,
            FetchOutcome::BackendFailure => FetchOutcomeView::BackendFailure,
        }
    }
}

/// Outcome of storing a value under a key.
#[derive(Clone, Copy, Debug, PartialEq, Eq, Structural)]
pub enum StoreOutcome {
    /// The key now holds the value.
    Stored,
    /// The cache could not be asked or did not answer properly.
    BackendFailure,
}

/// Outcome of removing a key.
#[derive(Clone, Copy, Debug, PartialEq, Eq, Structural)]
pub enum RemoveOutcome {
    /// The key held a value and holds none now.
    Removed,
    /// The key held nothing.
    Absent,
    /// The cache could not be asked or did not answer properly.
    BackendFailure,
}

/// The outcome that a raw answer to a fetch stands for.
pub open spec fn fetch_outcome_of<E>(reply: Result<Option<Vec<u8>>, E>) -> FetchOutcomeView {
    match reply {
        Ok(Some(value)) => FetchOutcomeView::Found(value@),
        Ok(None) => FetchOutcomeView::Absent,
        Err(_) => FetchOutcomeView::BackendFailure,
    }
}

/// The outcome that a raw answer to a store stands for.
pub open spec fn store_outcome_of<E>(reply: Result<(), E>) -> StoreOutcome {
    match reply {
        Ok(_) => StoreOutcome::Stored,
        Err(_) => StoreOutcome::BackendFailure,
    }
}

/// The outcome that a raw answer to a remove stands for.
pub open spec fn remove_outcome_of<E>(reply: Result<bool, E>) -> RemoveOutcome {
    match reply {
        Ok(true) => RemoveOutcome::Removed,
        Ok(false) => RemoveOutcome::Absent,
        Err(_) => RemoveOutcome::BackendFailure,
    }
}

impl FetchOutcome {
    /// Sorts the raw answer to a fetch: a value is `Found`, no value is
    /// `Absent`, and any error is `BackendFailure`.
    pub fn from_reply<E>(reply: Result<Option<Vec<u8>>, E>) -> (outcome: FetchOutcome)
        ensures
            outcome@ == fetch_outcome_of(reply),
    {
        match reply {
            Ok(Some(value)) => FetchOutcome::Found(value),
            Ok(None) => FetchOutcome::Absent,
            Err(_) => FetchOutcome::BackendFailure,
        }
    }
}

impl StoreOutcome {
    /// Sorts the raw answer to a store: success is `Stored`, and any error
    /// is `BackendFailure`.
    pub fn from_reply<E>(reply: Result<(), E>) -> (outcome: StoreOutcome)
        ensures
            outcome == store_outcome_of(reply),
    {
        match reply {
            Ok(_) => StoreOutcome::Stored,
            Err(_) => StoreOutcome::BackendFailure,
        }
    }
}

impl RemoveOutcome {
    /// Sorts the raw answer to a remove: `true` is `Removed`, `false` is
    /// `Absent`, and any error is `BackendFailure`.
    pub fn from_reply<E>(reply: Result<bool, E>) -> (outcome: RemoveOutcome)
        ensures
            outcome == remove_outcome_of(reply),
    {
        match reply {
            Ok(true) => RemoveOutcome::Removed,
            Ok(false) => RemoveOutcome::Absent,
            Err(_) => RemoveOutcome::BackendFailure,
        }
    }
}

} // verus!
