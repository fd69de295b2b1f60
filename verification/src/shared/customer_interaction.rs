//! Interactions with a customer and their outcome.
use vstd::prelude::*;
use vstd::std_specs::convert::FromSpecImpl;

use crate::shared::customer::{copy_text, Draft};
use crate::text::str_equals;

verus! {

/// The outcome of an interaction with a customer.
#[derive(Debug, Clone, Copy, PartialEq, Eq)]
pub enum InteractionStatus {
    Contacted,
    NoResponse,
    NewClient,
    Refused,
}

/// The stored text of an outcome.
pub open spec fn status_text(s: InteractionStatus) -> Seq<char> {
    match s {
        InteractionStatus::Contacted => "Contacted"@,
        InteractionStatus::NewClient => "New client"@,
        InteractionStatus::NoResponse => "No response from customer"@,
        InteractionStatus::Refused => "Refused the contact or deal"@,
    }
}

/// The outcome a stored text names; any other text is read as no response.
pub open spec fn status_from_text(s: Seq<char>) -> InteractionStatus {
    if s == "Contacted"@ {
        InteractionStatus::Contacted
    } else if s == "New client"@ {
        InteractionStatus::NewClient
    } else if s == "No response from customer"@ {
        InteractionStatus::NoResponse
    } else if s == "Refused the contact or deal"@ {
        InteractionStatus::Refused
    } else {
        InteractionStatus::NoResponse
    }
}

impl InteractionStatus {
    /// The stored text of this outcome.
    pub fn as_str(&self) -> (r: &'static str)
        ensures
            r@ == status_text(*self),
    {
        match self {
            InteractionStatus::Contacted => "Contacted",
            InteractionStatus::NewClient => "New client",
            InteractionStatus::NoResponse => "No response from customer",
            InteractionStatus::Refused => "Refused the contact or deal",
        }
    }

    /// The outcome that `s` names; unknown text gives `NoResponse`.
    pub fn from_str(s: &str) -> (r: Self)
        ensures
            r == status_from_text(s@),
    {
        if str_equals(s, "Contacted") {
            Self::Contacted
        } else if str_equals(s, "New client") {
            Self::NewClient
        } else if str_equals(s, "No response from customer") {
            Self::NoResponse
        } else if str_equals(s, "Refused the contact or deal") {
            Self::Refused
        } else {
            Self::NoResponse
        }
    }

    /// The texts of every outcome, in the order a form offers them.
    pub fn option_texts() -> (r: Vec<String>)
        ensures
            r@.len() == 4,
            r@[0]@ == status_text(InteractionStatus::Contacted),
            r@[1]@ == status_text(InteractionStatus::NewClient),
            r@[2]@ == status_text(InteractionStatus::NoResponse),
            r@[3]@ == status_text(InteractionStatus::Refused),
    {
        let mut r: Vec<String> = Vec::new();
        r.push(String::from_str(InteractionStatus::Contacted.as_str()));
        r.push(String::from_str(InteractionStatus::NewClient.as_str()));
        r.push(String::from_str(InteractionStatus::NoResponse.as_str()));
        r.push(String::from_str(InteractionStatus::Refused.as_str()));
        r
    }
}

/// An interaction with a customer; `State` is `Draft` before it is stored
/// and its id after.
#[derive(Debug, Clone)]
pub struct Interaction<State = i64> {
    pub id: State,
    pub interaction_date: String,
    pub status: InteractionStatus,
    pub note: Option<String>,
}

/// The content of an interaction.
pub ghost struct InteractionView<State> {
    pub id: State,
    pub interaction_date: Seq<char>,
    pub status: InteractionStatus,
    pub note: Option<Seq<char>>,
}

impl<State> View for Interaction<State> {
    type V = InteractionView<State>;

    open spec fn view(&self) -> InteractionView<State> {
        InteractionView {
            id: self.id,
            interaction_date: self.interaction_date@,
            status: self.status,
            note: self.note.deep_view(),
        }
    }
}

impl Interaction<i64> {
    /// A copy of this interaction with the same content.
    pub fn duplicate(&self) -> (r: Self)
        ensures
            r@ == self@,
    {
        Interaction {
            id: self.id,
            interaction_date: self.interaction_date.clone(),
            status: self.status,
            note: copy_text(&self.note),
        }
    }
}

impl Interaction<Draft> {
    /// A copy of this unsaved interaction with the same content.
    pub fn duplicate_draft(&self) -> (r: Self)
        ensures
            r@ == self@,
    {
        Interaction {
            id: Draft,
            interaction_date: self.interaction_date.clone(),
            status: self.status,
            note: copy_text(&self.note),
        }
    }
}

/// An interaction as the store returns it, its outcome still as text.
#[derive(Debug)]
pub struct InteractionRow {
    pub id: i64,
    pub interaction_date: String,
    pub status: String,
    pub note: Option<String>,
}

impl From<InteractionRow> for Interaction<i64> {
    fn from(row: InteractionRow) -> (r: Self) {
        let status = InteractionStatus::from_str(row.status.as_str());
        Self { id: row.id, interaction_date: row.interaction_date, status, note: row.note }
    }
}

impl FromSpecImpl<InteractionRow> for Interaction<i64> {
    open spec fn obeys_from_spec() -> bool {
        true
    }

    open spec fn from_spec(row: InteractionRow) -> Self {
        Interaction {
            id: row.id,
            interaction_date: row.interaction_date,
            status: status_from_text(row.status@),
            note: row.note,
        }
    }
}

/// Reading back the stored text of an outcome gives the same outcome.
pub proof fn law_status_text_roundtrip(s: InteractionStatus)
    ensures
        status_from_text(status_text(s)) == s,
{
    reveal_strlit("Contacted");
    reveal_strlit("New client");
    reveal_strlit("No response from customer");
    reveal_strlit("Refused the contact or deal");
    assert("Contacted"@.len() == 9);
    assert("New client"@.len() == 10);
    assert("No response from customer"@.len() == 25);
    assert("Refused the contact or deal"@.len() == 27);
}

} // verus!
