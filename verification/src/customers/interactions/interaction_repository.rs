//! The decisions of the interaction store that come before and after the
//! store is asked: whose interactions, the failures, and reading rows back.
use vstd::prelude::*;

use crate::text::concat2;
use crate::shared::customer::{Customer, CustomerView};
use crate::shared::customer_interaction::{
    status_from_text, Interaction, InteractionRow, InteractionStatus, InteractionView,
};

verus! {

/// Why a request to the interaction store failed.
#[derive(Debug, Clone, PartialEq, Eq)]
pub enum InteractionRepositoryError {
    CreateError(String),
    PivotCreateError(String),
}

/// The message shown for a failure.
pub open spec fn interaction_error_message(e: InteractionRepositoryError) -> Seq<char> {
    match e {
        InteractionRepositoryError::CreateError(s) => "Failed to create interaction : "@ + s@,
        InteractionRepositoryError::PivotCreateError(s) => "Failed to create the pivot record  : "@ + s@,
    }
}

impl InteractionRepositoryError {
    /// The message shown for this failure.
    pub fn message(&self) -> (r: String)
        ensures
            r@ == interaction_error_message(*self),
    {
        match self {
            InteractionRepositoryError::CreateError(s) => concat2(
                "Failed to create interaction : ",
                s.as_str(),
            ),
            InteractionRepositoryError::PivotCreateError(s) => concat2(
                "Failed to create the pivot record  : ",
                s.as_str(),
            ),
        }
    }
}

/// The customer whose interactions are recorded, when one is set: its id;
/// otherwise the failure "Missing customer target".
pub fn creation_target(customer: &Option<Customer>) -> (r: Result<i64, InteractionRepositoryError>)
    ensures
        match customer {
            Some(c) => r == Ok::<i64, InteractionRepositoryError>(c.id),
            None => r matches Err(InteractionRepositoryError::CreateError(m)) && m@
                == "Missing customer target"@,
        },
{
    match customer {
        Some(c) => Ok(c.id),
        None => Err(InteractionRepositoryError::CreateError(String::from_str("Missing customer target"))),
    }
}

/// The customer whose interactions are listed, when one is set: its id;
/// otherwise the failure "no customer target".
pub fn listing_target(customer: &Option<Customer>) -> (r: Result<i64, InteractionRepositoryError>)
    ensures
        match customer {
            Some(c) => r == Ok::<i64, InteractionRepositoryError>(c.id),
            None => r matches Err(InteractionRepositoryError::CreateError(m)) && m@
                == "no customer target"@,
        },
{
    match customer {
        Some(c) => Ok(c.id),
        None => Err(InteractionRepositoryError::CreateError(String::from_str("no customer target"))),
    }
}

/// The interaction a stored row describes: the same fields, its outcome read
/// from the stored text.
pub open spec fn row_interaction(row: InteractionRow) -> InteractionView<i64> {
    InteractionView {
        id: row.id,
        interaction_date: row.interaction_date@,
        status: status_from_text(row.status@),
        note: row.note.deep_view(),
    }
}

/// The interactions that stored rows describe, in the same order.
pub fn interactions_from_rows(rows: Vec<InteractionRow>) -> (r: Vec<Interaction>)
    ensures
        r@.len() == rows@.len(),
        forall|k: int| 0 <= k < rows@.len() ==> (#[trigger] r@[k])@ == row_interaction(rows@[k]),
{
    let n = rows.len();
    let ghost orig = rows@;
    let mut rows = rows;
    let mut r: Vec<Interaction> = Vec::new();
    let mut i: usize = 0;
    while i < n
        invariant
            n == orig.len(),
            i <= n,
            rows@ == orig.subrange(i as int, n as int),
            r@.len() == i,
            forall|k: int| 0 <= k < i ==> (#[trigger] r@[k])@ == row_interaction(orig[k]),
        decreases n - i,
    {
        let row = rows.remove(0);
        proof {
            assert(row == orig[i as int]);
            assert(rows@ =~= orig.subrange(i + 1, n as int));
        }
        let status = InteractionStatus::from_str(row.status.as_str());
        r.push(Interaction { id: row.id, interaction_date: row.interaction_date, status, note: row.note });
        i += 1;
    }
    r
}

} // verus!
