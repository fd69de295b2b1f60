//! The form that records an interaction with a customer.
use vstd::prelude::*;

use crate::shared::customer::{Customer, CustomerView, Draft};
use crate::shared::customer_interaction::{status_from_text, Interaction, InteractionStatus, InteractionView};
use crate::text::{concat2, string_of};

verus! {

/// What the interaction form tells its listeners.
pub enum CreateInteractionViewEvent {
    /// A new interaction was stored.
    CreatedNewInteraction(Interaction),
    /// The interaction with this id was deleted.
    DeletedInteraction(i64),
}

/// The fields of the interaction form.
#[derive(Debug, Clone, Copy, PartialEq, Eq, Hash)]
pub enum InteractionFormFieldId {
    InteractionDate,
    Status,
    Note,
}

/// A field of the form and its label.
#[derive(Debug, Clone, Copy, PartialEq, Eq, Hash)]
pub struct FormFieldDescriptor {
    pub id: InteractionFormFieldId,
    pub label: &'static str,
}

/// A choice field of the form, its label and the texts it offers.
#[derive(Debug, Clone, PartialEq, Eq, Hash)]
pub struct FormFieldSelectDescriptor {
    pub id: InteractionFormFieldId,
    pub label: &'static str,
    pub options: Vec<String>,
}

/// The free-text fields: the note.
pub fn text_fields() -> (r: Vec<FormFieldDescriptor>)
    ensures
        r@.len() == 1,
        r@[0].id == InteractionFormFieldId::Note,
        r@[0].label@ == "Notes about interaction"@,
{
    let mut r: Vec<FormFieldDescriptor> = Vec::new();
    r.push(FormFieldDescriptor { id: InteractionFormFieldId::Note, label: "Notes about interaction" });
    r
}

/// The date fields: the date of the interaction.
pub fn date_fields() -> (r: Vec<FormFieldDescriptor>)
    ensures
        r@.len() == 1,
        r@[0].id == InteractionFormFieldId::InteractionDate,
        r@[0].label@ == "Interaction date"@,
{
    let mut r: Vec<FormFieldDescriptor> = Vec::new();
    r.push(FormFieldDescriptor { id: InteractionFormFieldId::InteractionDate, label: "Interaction date" });
    r
}

/// The choice fields: the outcome, offering every outcome's text.
pub fn select_fields() -> (r: Vec<FormFieldSelectDescriptor>)
    ensures
        r@.len() == 1,
        r@[0].id == InteractionFormFieldId::Status,
        r@[0].label@ == "Interaction date"@,
        r@[0].options@.len() == 4,
        r@[0].options@[0]@ == "Contacted"@,
        r@[0].options@[1]@ == "New client"@,
        r@[0].options@[2]@ == "No response from customer"@,
        r@[0].options@[3]@ == "Refused the contact or deal"@,
{
    let mut r: Vec<FormFieldSelectDescriptor> = Vec::new();
    r.push(
        FormFieldSelectDescriptor {
            id: InteractionFormFieldId::Status,
            label: "Interaction date",
            options: InteractionStatus::option_texts(),
        },
    );
    r
}

/// The content of the interaction form.
pub ghost struct InteractionFormModel {
    pub note: Seq<char>,
    pub status: Seq<char>,
    pub interaction_date: Seq<char>,
    pub customer: Option<CustomerView<i64>>,
}

/// The values entered in the interaction form and the customer it records for.
pub struct CreateInteractionView {
    note: String,
    status: String,
    interaction_date: String,
    pub customer: Option<Customer>,
}

impl View for CreateInteractionView {
    type V = InteractionFormModel;

    closed spec fn view(&self) -> InteractionFormModel {
        InteractionFormModel {
            note: self.note@,
            status: self.status@,
            interaction_date: self.interaction_date@,
            customer: match self.customer {
                Some(c) => Some(c@),
                None => None,
            },
        }
    }
}

/// The interaction the form's values describe: the entered date, the
/// outcome its text names, and the note unless it is empty.
pub open spec fn drafted(m: InteractionFormModel) -> InteractionView<Draft> {
    InteractionView {
        id: Draft,
        interaction_date: m.interaction_date,
        status: status_from_text(m.status),
        note: if m.note.len() > 0 {
            Some(m.note)
        } else {
            None
        },
    }
}

impl CreateInteractionView {
    /// An empty form recording for `customer`.
    pub fn new(customer: Option<Customer>) -> (s: Self)
        ensures
            s@.note == Seq::<char>::empty(),
            s@.status == Seq::<char>::empty(),
            s@.interaction_date == Seq::<char>::empty(),
            s@.customer == match customer {
                Some(c) => Some(c@),
                None => None::<CustomerView<i64>>,
            },
    {
        Self { note: String::new(), status: String::new(), interaction_date: String::new(), customer }
    }

    /// The value entered in a field.
    pub fn value(&self, id: InteractionFormFieldId) -> (r: &str)
        ensures
            r@ == match id {
                InteractionFormFieldId::Note => self@.note,
                InteractionFormFieldId::Status => self@.status,
                InteractionFormFieldId::InteractionDate => self@.interaction_date,
            },
    {
        match id {
            InteractionFormFieldId::Note => self.note.as_str(),
            InteractionFormFieldId::Status => self.status.as_str(),
            InteractionFormFieldId::InteractionDate => self.interaction_date.as_str(),
        }
    }

    /// Records the text now entered in a field; the other fields keep theirs.
    pub fn set_value(&mut self, id: InteractionFormFieldId, text: &str)
        ensures
            final(self)@ == match id {
                InteractionFormFieldId::Note => InteractionFormModel { note: text@, ..old(self)@ },
                InteractionFormFieldId::Status => InteractionFormModel { status: text@, ..old(self)@ },
                InteractionFormFieldId::InteractionDate => InteractionFormModel {
                    interaction_date: text@,
                    ..old(self)@
                },
            },
    {
        let v = String::from_str(text);
        match id {
            InteractionFormFieldId::Note => self.note = v,
            InteractionFormFieldId::Status => self.status = v,
            InteractionFormFieldId::InteractionDate => self.interaction_date = v,
        }
    }

    /// Sets the customer the form records for.
    pub fn set_customer(&mut self, customer: Customer)
        ensures
            final(self)@ == (InteractionFormModel { customer: Some(customer@), ..old(self)@ }),
    {
        self.customer = Some(customer);
    }

    /// The interaction to store for the form's values.
    pub fn save_interaction(&self) -> (r: Interaction<Draft>)
        ensures
            r@ == drafted(self@),
    {
        let note = if self.note.as_str().unicode_len() > 0 {
            Some(self.note.clone())
        } else {
            None
        };
        Interaction {
            id: Draft,
            interaction_date: self.interaction_date.clone(),
            note,
            status: InteractionStatus::from_str(self.status.as_str()),
        }
    }

    /// The heading of the form, naming the customer (nothing when none is
    /// set).
    pub fn title(&self) -> (r: String)
        ensures
            r@ == "Register interaction with "@ + match self@.customer {
                Some(c) => c.name,
                None => Seq::empty(),
            },
    {
        match &self.customer {
            Some(c) => concat2("Register interaction with ", c.name.as_str()),
            None => {
                let r = string_of("Register interaction with ");
                assert(r@ =~= "Register interaction with "@ + Seq::<char>::empty());
                r
            },
        }
    }

    /// Clears the free-text fields (the note); the date and the outcome keep
    /// their values.
    pub fn reset_form(&mut self)
        ensures
            final(self)@ == (InteractionFormModel { note: Seq::empty(), ..old(self)@ }),
    {
        self.note = String::new();
    }

    /// The interaction was stored: the note is cleared, and the event
    /// announcing the stored interaction is given.
    pub fn on_saved(&mut self, interaction: Interaction) -> (e: CreateInteractionViewEvent)
        ensures
            final(self)@ == (InteractionFormModel { note: Seq::empty(), ..old(self)@ }),
            e matches CreateInteractionViewEvent::CreatedNewInteraction(i) && i@ == interaction@,
    {
        self.reset_form();
        CreateInteractionViewEvent::CreatedNewInteraction(interaction)
    }
}

} // verus!
