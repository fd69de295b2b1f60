//! Failures of the project store.
use vstd::prelude::*;

use crate::text::{concat2, concat3};

verus! {

/// Why a request to the project store failed; each variant carries the
/// store's own description.
#[derive(Debug, Clone, PartialEq, Eq)]
pub enum AppRepositoryError {
    FailedToCreate(String),
    FailedToCreatePivot(String),
    FailedToDelete(String, String),
    FailedToFetch(String),
}

/// The message shown for a failure.
pub open spec fn app_error_message(e: AppRepositoryError) -> Seq<char> {
    match e {
        AppRepositoryError::FailedToCreate(s) => "Failed to create entity "@ + s@,
        AppRepositoryError::FailedToCreatePivot(s) => "Failed to create the record on the pivot table "@ + s@,
        AppRepositoryError::FailedToDelete(a, b) => "Failed to delete entity "@ + a@ + " : "@ + b@,
        AppRepositoryError::FailedToFetch(s) => "Failed to fetch data entity:  "@ + s@,
    }
}

impl AppRepositoryError {
    /// The message shown for this failure.
    pub fn message(&self) -> (r: String)
        ensures
            r@ == app_error_message(*self),
    {
        match self {
            AppRepositoryError::FailedToCreate(s) => concat2("Failed to create entity ", s.as_str()),
            AppRepositoryError::FailedToCreatePivot(s) => concat2(
                "Failed to create the record on the pivot table ",
                s.as_str(),
            ),
            AppRepositoryError::FailedToDelete(a, b) => {
                let mut r = concat3("Failed to delete entity ", a.as_str(), " : ");
                r.append(b.as_str());
                r
            },
            AppRepositoryError::FailedToFetch(s) => concat2("Failed to fetch data entity:  ", s.as_str()),
        }
    }
}

} // verus!
