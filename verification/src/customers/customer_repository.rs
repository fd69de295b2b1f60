//! Failures of the customer store.
use vstd::prelude::*;

use crate::text::concat2;

verus! {

/// Why a request to the customer store failed; each variant carries the
/// store's own description.
#[derive(Debug, Clone, PartialEq, Eq)]
pub enum CustomerRepositoryError {
    CreateCustomerFailed(String),
    FetchFailed(String),
    DeleteFailed(String),
    PatchError(String),
}

/// The message shown for a failure.
pub open spec fn customer_error_message(e: CustomerRepositoryError) -> Seq<char> {
    match e {
        CustomerRepositoryError::CreateCustomerFailed(s) => "Failed to create customer: "@ + s@,
        CustomerRepositoryError::FetchFailed(s) => "Failed to fetch customer: "@ + s@,
        CustomerRepositoryError::DeleteFailed(s) => "Failed to delete customer: "@ + s@,
        CustomerRepositoryError::PatchError(s) => "Failed to patch customer: "@ + s@,
    }
}

impl CustomerRepositoryError {
    /// The message shown for this failure.
    pub fn message(&self) -> (r: String)
        ensures
            r@ == customer_error_message(*self),
    {
        match self {
            CustomerRepositoryError::CreateCustomerFailed(s) => concat2(
                "Failed to create customer: ",
                s.as_str(),
            ),
            CustomerRepositoryError::FetchFailed(s) => concat2("Failed to fetch customer: ", s.as_str()),
            CustomerRepositoryError::DeleteFailed(s) => concat2("Failed to delete customer: ", s.as_str()),
            CustomerRepositoryError::PatchError(s) => concat2("Failed to patch customer: ", s.as_str()),
        }
    }
}

} // verus!
