//! The detail of one customer: who it is and its recorded interactions.
use vstd::prelude::*;

use crate::customers::interactions::create_interaction_view::{
    CreateInteractionView, CreateInteractionViewEvent, InteractionFormModel,
};
use crate::seqs::{keep, lemma_keep_all, lemma_keep_members, lemma_keep_step};
use crate::shared::customer::{Customer, CustomerView};
use crate::shared::customer_interaction::{status_text, Interaction, InteractionStatus, InteractionView};
use crate::text::{concat2, decimal, decimal_of, text_or, text_or_else};

verus! {

/// The content of a list of interactions.
pub open spec fn interaction_views(v: Seq<Interaction>) -> Seq<InteractionView<i64>> {
    v.map_values(|i: Interaction| i@)
}

/// Holds of the interactions whose id is not `id`.
pub open spec fn other_id(id: i64) -> spec_fn(InteractionView<i64>) -> bool {
    |x: InteractionView<i64>| x.id != id
}

/// The interactions of `s` other than those with `id`.
pub open spec fn without_interaction(s: Seq<InteractionView<i64>>, id: i64) -> Seq<InteractionView<i64>> {
    keep(s, other_id(id))
}

/// The content of a customer detail.
pub ghost struct DetailModel {
    pub customer: Option<CustomerView<i64>>,
    /// `None` until the interactions are loaded.
    pub interactions: Option<Seq<InteractionView<i64>>>,
    /// The form recording interactions with the customer.
    pub form: InteractionFormModel,
}

impl DetailModel {
    /// After showing `c`: the detail and its interaction form both hold it;
    /// the interactions stay as they are.
    pub open spec fn showing(self, c: CustomerView<i64>) -> DetailModel {
        DetailModel { customer: Some(c), form: InteractionFormModel { customer: Some(c), ..self.form }, ..self }
    }

    /// After adding `i`: appended when the interactions are loaded, otherwise
    /// nothing changes.
    pub open spec fn added(self, i: InteractionView<i64>) -> DetailModel {
        match self.interactions {
            Some(v) => DetailModel { interactions: Some(v.push(i)), ..self },
            None => self,
        }
    }

    /// After removing `id`: every interaction with it goes when the
    /// interactions are loaded, otherwise nothing changes.
    pub open spec fn removed(self, id: i64) -> DetailModel {
        match self.interactions {
            Some(v) => DetailModel { interactions: Some(without_interaction(v, id)), ..self },
            None => self,
        }
    }
}

/// The tag telling whether the customer is a client.
pub open spec fn client_tag(c: CustomerView<i64>) -> Seq<char> {
    if c.is_client {
        "Active Client"@
    } else {
        "Prospect"@
    }
}

/// The tag telling whether the customer has been contacted.
pub open spec fn contact_tag(c: CustomerView<i64>) -> Seq<char> {
    if c.contacted {
        "Contacted"@
    } else {
        "Pending Contact"@
    }
}

/// The label of detail line `k`.
pub open spec fn info_label(k: int) -> Seq<char> {
    if k == 0 {
        "Email"@
    } else if k == 1 {
        "Phone Number"@
    } else if k == 2 {
        "Address"@
    } else if k == 3 {
        "Website"@
    } else {
        "Instagram"@
    }
}

/// The value of detail line `k` of customer `c`; a missing detail reads "N/A".
pub open spec fn info_value(c: CustomerView<i64>, k: int) -> Seq<char> {
    if k == 0 {
        c.email
    } else if k == 1 {
        c.phone_number
    } else if k == 2 {
        text_or(c.address, "N/A"@)
    } else if k == 3 {
        text_or(c.site_url, "N/A"@)
    } else {
        text_or(c.instagram_url, "N/A"@)
    }
}

/// A labelled line of the customer's details.
pub struct InfoRow {
    pub label: &'static str,
    pub value: String,
}

/// What the detail screen shows of a customer: its name, its id, whether it
/// is a client and has been contacted, and its details line by line.
pub struct CustomerProfile {
    pub name: String,
    pub id_label: String,
    pub client_tag: &'static str,
    pub contact_tag: &'static str,
    pub rows: Vec<InfoRow>,
}

/// The date an interaction card shows, or a notice when none was entered.
pub open spec fn card_date(i: InteractionView<i64>) -> Seq<char> {
    if i.interaction_date.len() == 0 {
        "Missing interaction date"@
    } else {
        i.interaction_date
    }
}

/// The note an interaction card shows, or a notice when none was left.
pub open spec fn card_note(i: InteractionView<i64>) -> Seq<char> {
    text_or(i.note, "No note left"@)
}

/// How an interaction is shown: its date, its outcome, its note, and whether
/// it is marked as alarming (the customer did not respond).
pub struct InteractionCard {
    pub date: String,
    pub status: &'static str,
    pub note: String,
    pub alarming: bool,
}

/// Whether `card` shows interaction `i`.
pub open spec fn shows_interaction(card: InteractionCard, i: InteractionView<i64>) -> bool {
    &&& card.date@ == card_date(i)
    &&& card.status@ == status_text(i.status)
    &&& card.note@ == card_note(i)
    &&& card.alarming == (i.status == InteractionStatus::NoResponse)
}

/// The detail line with label `label` and `value`.
fn info_row(label: &'static str, value: String) -> (r: InfoRow)
    ensures
        r.label == label,
        r.value == value,
{
    InfoRow { label, value }
}

/// The customer shown in detail, its interactions, and the form recording
/// new ones.
pub struct CustomerDetailView {
    customer: Option<Customer>,
    interactions: Option<Vec<Interaction>>,
    pub create_interaction_view: CreateInteractionView,
}

impl View for CustomerDetailView {
    type V = DetailModel;

    closed spec fn view(&self) -> DetailModel {
        DetailModel {
            customer: match self.customer {
                Some(c) => Some(c@),
                None => None,
            },
            interactions: match self.interactions {
                Some(v) => Some(interaction_views(v@)),
                None => None,
            },
            form: self.create_interaction_view@,
        }
    }
}

impl CustomerDetailView {
    /// The detail of `customer`, its interactions not loaded yet, with an
    /// empty interaction form recording for the same customer.
    pub fn new(customer: Option<Customer>) -> (s: Self)
        ensures
            s@.customer == match customer {
                Some(c) => Some(c@),
                None => None::<CustomerView<i64>>,
            },
            s@.interactions is None,
            s@.form == (InteractionFormModel {
                note: Seq::empty(),
                status: Seq::empty(),
                interaction_date: Seq::empty(),
                customer: s@.customer,
            }),
    {
        let for_form = match &customer {
            Some(c) => Some(c.duplicate()),
            None => None,
        };
        Self { customer, interactions: None, create_interaction_view: CreateInteractionView::new(for_form) }
    }

    /// The customer shown.
    pub fn customer(&self) -> (r: Option<&Customer>)
        ensures
            match r {
                Some(c) => self@.customer == Some(c@),
                None => self@.customer is None,
            },
    {
        match &self.customer {
            Some(c) => Some(c),
            None => None,
        }
    }

    /// The loaded interactions, if they are loaded.
    pub fn interactions(&self) -> (r: Option<&[Interaction]>)
        ensures
            match r {
                Some(v) => self@.interactions == Some(interaction_views(v@)),
                None => self@.interactions is None,
            },
    {
        match &self.interactions {
            Some(v) => Some(v.as_slice()),
            None => None,
        }
    }

    /// What the screen shows of the customer, when one is shown.
    pub fn profile(&self) -> (r: Option<CustomerProfile>)
        ensures
            match self@.customer {
                None => r is None,
                Some(c) => r matches Some(p) && {
                    &&& p.name@ == c.name
                    &&& p.id_label@ == "ID #"@ + decimal(c.id as int)
                    &&& p.client_tag@ == client_tag(c)
                    &&& p.contact_tag@ == contact_tag(c)
                    &&& p.rows@.len() == 5
                    &&& forall|k: int| 0 <= k < 5 ==> (#[trigger] p.rows@[k]).label@ == info_label(k)
                        && p.rows@[k].value@ == info_value(c, k)
                },
            },
    {
        match &self.customer {
            None => None,
            Some(c) => {
                let id_text = decimal_of(c.id);
                let mut rows: Vec<InfoRow> = Vec::new();
                rows.push(info_row("Email", c.email.clone()));
                rows.push(info_row("Phone Number", c.phone_number.clone()));
                rows.push(info_row("Address", text_or_else(&c.address, "N/A")));
                rows.push(info_row("Website", text_or_else(&c.site_url, "N/A")));
                rows.push(info_row("Instagram", text_or_else(&c.instagram_url, "N/A")));
                let p = CustomerProfile {
                    name: c.name.clone(),
                    id_label: concat2("ID #", id_text.as_str()),
                    client_tag: if c.is_client {
                        "Active Client"
                    } else {
                        "Prospect"
                    },
                    contact_tag: if c.contacted {
                        "Contacted"
                    } else {
                        "Pending Contact"
                    },
                    rows,
                };
                proof {
                    assert forall|k: int| 0 <= k < 5 implies (#[trigger] p.rows@[k]).label@ == info_label(k)
                        && p.rows@[k].value@ == info_value(c@, k) by {
                        if k == 0 {
                        } else if k == 1 {
                        } else if k == 2 {
                        } else if k == 3 {
                        } else {
                        }
                    }
                }
                Some(p)
            },
        }
    }

    /// The card of one interaction.
    pub fn interaction_item(&self, i: &Interaction) -> (r: InteractionCard)
        ensures
            shows_interaction(r, i@),
    {
        proof {
            reveal_strlit("Missing interaction date");
        }
        let date = if i.interaction_date.as_str().is_empty() {
            String::from_str("Missing interaction date")
        } else {
            i.interaction_date.clone()
        };
        let alarming = match i.status {
            InteractionStatus::NoResponse => true,
            _ => false,
        };
        InteractionCard {
            date,
            status: i.status.as_str(),
            note: text_or_else(&i.note, "No note left"),
            alarming,
        }
    }

    /// The cards of the loaded interactions, in order; none before they are
    /// loaded (the section is then not shown).
    pub fn interaction_cards(&self) -> (r: Option<Vec<InteractionCard>>)
        ensures
            match self@.interactions {
                None => r is None,
                Some(v) => r matches Some(cards) && cards@.len() == v.len() && forall|k: int|
                    0 <= k < v.len() ==> shows_interaction(#[trigger] cards@[k], v[k]),
            },
    {
        match &self.interactions {
            None => None,
            Some(interactions) => {
                let n = interactions.len();
                let mut cards: Vec<InteractionCard> = Vec::new();
                let mut i: usize = 0;
                while i < n
                    invariant
                        n == interactions@.len(),
                        i <= n,
                        cards@.len() == i,
                        forall|k: int| 0 <= k < i ==> shows_interaction(#[trigger] cards@[k], interactions@[k]@),
                    decreases n - i,
                {
                    cards.push(self.interaction_item(&interactions[i]));
                    i += 1;
                }
                proof {
                    assert forall|k: int| 0 <= k < n implies shows_interaction(
                        #[trigger] cards@[k],
                        interaction_views(interactions@)[k],
                    ) by {
                        assert(interaction_views(interactions@)[k] == interactions@[k]@);
                    }
                }
                Some(cards)
            },
        }
    }

    /// Shows `customer`, and sets it as the customer the interaction form
    /// records for; the interactions stay as they are.
    pub fn set_customer(&mut self, customer: Customer)
        ensures
            final(self)@ == old(self)@.showing(customer@),
    {
        self.create_interaction_view.set_customer(customer.duplicate());
        self.customer = Some(customer);
    }

    /// The interactions loaded from the store.
    pub fn set_interactions(&mut self, interactions: Vec<Interaction>)
        ensures
            final(self)@ == (DetailModel { interactions: Some(interaction_views(interactions@)), ..old(self)@ }),
    {
        self.interactions = Some(interactions);
    }

    /// Appends `interaction` when the interactions are loaded; otherwise
    /// nothing changes.
    pub fn add_interaction(&mut self, interaction: Interaction)
        ensures
            final(self)@ == old(self)@.added(interaction@),
    {
        match self.interactions.as_mut() {
            Some(interactions) => {
                proof {
                    assert(interaction_views(interactions@.push(interaction)) =~= interaction_views(
                        interactions@,
                    ).push(interaction@));
                }
                interactions.push(interaction);
            },
            None => {},
        }
    }

    /// Removes every interaction with `id` when the interactions are loaded;
    /// otherwise nothing changes.
    pub fn remove_interaction(&mut self, id: i64)
        ensures
            final(self)@ == old(self)@.removed(id),
    {
        let kept = match &self.interactions {
            Some(interactions) => {
                let n = interactions.len();
                let ghost all = interaction_views(interactions@);
                let ghost pred = other_id(id);
                let mut kept: Vec<Interaction> = Vec::new();
                let mut i: usize = 0;
                while i < n
                    invariant
                        n == interactions@.len(),
                        all == interaction_views(interactions@),
                        pred == other_id(id),
                        i <= n,
                        interaction_views(kept@) == keep(all.take(i as int), pred),
                    decreases n - i,
                {
                    proof {
                        lemma_keep_step(all, pred, i as int);
                    }
                    if interactions[i].id != id {
                        let x = interactions[i].duplicate();
                        proof {
                            assert(interaction_views(kept@.push(x)) =~= interaction_views(kept@).push(x@));
                        }
                        kept.push(x);
                    }
                    i += 1;
                }
                proof {
                    assert(all.take(n as int) =~= all);
                    assert(interaction_views(kept@) == without_interaction(all, id));
                }
                kept
            },
            None => {
                return;
            },
        };
        self.interactions = Some(kept);
    }

    /// Applies what the interaction form reported: a stored interaction is
    /// added, a deleted one removed.
    pub fn handle_interaction_event(&mut self, event: CreateInteractionViewEvent)
        ensures
            final(self)@ == match event {
                CreateInteractionViewEvent::CreatedNewInteraction(i) => old(self)@.added(i@),
                CreateInteractionViewEvent::DeletedInteraction(id) => old(self)@.removed(id),
            },
    {
        match event {
            CreateInteractionViewEvent::CreatedNewInteraction(interaction) => self.add_interaction(interaction),
            CreateInteractionViewEvent::DeletedInteraction(id) => self.remove_interaction(id),
        }
    }
}

/// After removing an id, no loaded interaction has it.
pub proof fn law_removed_is_gone(m: DetailModel, id: i64)
    ensures
        m.removed(id).interactions matches Some(v) ==> forall|k: int| 0 <= k < v.len() ==> (#[trigger] v[k]).id != id,
{
    if let Some(v) = m.interactions {
        let p = other_id(id);
        lemma_keep_members(v, p);
        let r = keep(v, p);
        assert forall|k: int| 0 <= k < r.len() implies (#[trigger] r[k]).id != id by {
            assert(p(r[k]));
        }
    }
}

/// Adding an interaction with an id no loaded interaction has, then removing
/// that id, gives back the loaded interactions.
pub proof fn law_remove_undoes_add(m: DetailModel, i: InteractionView<i64>)
    requires
        m.interactions matches Some(v) ==> forall|k: int| 0 <= k < v.len() ==> (#[trigger] v[k]).id != i.id,
    ensures
        m.added(i).removed(i.id) == m,
{
    if let Some(v) = m.interactions {
        let p = other_id(i.id);
        let w = v.push(i);
        assert(w.drop_last() =~= v);
        lemma_keep_all(v, p);
    }
}

} // verus!
