//! One stakeholder of a project as its list item shows it.
use vstd::prelude::*;

use crate::shared::customer::{role_text, Customer, CustomerView, Stakeholder, StakeholderRole, StakeholderView};
use crate::text::{concat2, concat3};

verus! {

/// What a stakeholder item tells its listeners.
pub enum StakeholderItemEvent {
    AddedStakeholder(Stakeholder),
    RemoveStakeholder(Stakeholder),
}

/// The line giving when a customer was created.
pub open spec fn created_line(c: CustomerView<i64>) -> Seq<char> {
    "Created at: "@ + c.created_at
}

/// The line giving a customer's email, shown only when it has one.
pub open spec fn email_line(c: CustomerView<i64>) -> Option<Seq<char>> {
    if c.email.len() == 0 {
        None
    } else {
        Some("email: "@ + c.email)
    }
}

/// How a customer that can be added to a project is shown.
pub struct CustomerCard {
    pub title: String,
    pub created: String,
    pub email: Option<String>,
}

/// The email line of a customer, when it has an email.
fn email_text(email: &String) -> (r: Option<String>)
    ensures
        r.deep_view() == if email@.len() == 0 {
            None
        } else {
            Some("email: "@ + email@)
        },
{
    if email.as_str().is_empty() {
        None
    } else {
        Some(concat2("email: ", email.as_str()))
    }
}

/// The card of a customer that can be added to a project: its name, when it
/// was created, and its email when it has one.
pub fn customer_item(customer: &Customer) -> (r: CustomerCard)
    ensures
        r.title@ == customer@.name,
        r.created@ == created_line(customer@),
        r.email.deep_view() == email_line(customer@),
{
    CustomerCard {
        title: customer.name.clone(),
        created: concat2("Created at: ", customer.created_at.as_str()),
        email: email_text(&customer.email),
    }
}

/// A stakeholder and the role texts its item offers.
pub struct StakeholderItemView {
    pub stakeholder: Stakeholder,
    pub options: Vec<String>,
}

/// The content of a stakeholder item: the stakeholder and the role texts
/// offered.
pub ghost struct StakeholderItemModel {
    pub stakeholder: StakeholderView,
    pub options: Seq<Seq<char>>,
}

/// The roles an item offers: owner, investor and partner, in that order.
pub open spec fn role_options() -> Seq<Seq<char>> {
    seq![
        role_text(StakeholderRole::Owner),
        role_text(StakeholderRole::Investor),
        role_text(StakeholderRole::Partner),
    ]
}

/// The item made for stakeholder `s`.
pub open spec fn item_of(s: StakeholderView) -> StakeholderItemModel {
    StakeholderItemModel { stakeholder: s, options: role_options() }
}

impl View for StakeholderItemView {
    type V = StakeholderItemModel;

    open spec fn view(&self) -> StakeholderItemModel {
        StakeholderItemModel {
            stakeholder: self.stakeholder@,
            options: self.options@.map_values(|t: String| t@),
        }
    }
}

impl StakeholderItemView {
    /// The item of `stakeholder`, offering the owner, investor and partner
    /// roles in that order.
    pub fn new(stakeholder: Stakeholder) -> (s: Self)
        ensures
            s@ == item_of(stakeholder@),
    {
        let mut options: Vec<String> = Vec::new();
        options.push(String::from_str(StakeholderRole::Owner.as_str()));
        options.push(String::from_str(StakeholderRole::Investor.as_str()));
        options.push(String::from_str(StakeholderRole::Partner.as_str()));
        let s = Self { stakeholder, options };
        assert(s.options@.map_values(|t: String| t@) =~= role_options());
        s
    }

    /// A copy of this item with the same content.
    pub fn duplicate(&self) -> (r: Self)
        ensures
            r@ == self@,
    {
        let n = self.options.len();
        let mut options: Vec<String> = Vec::new();
        let mut i: usize = 0;
        while i < n
            invariant
                n == self.options@.len(),
                i <= n,
                options@ == self.options@.take(i as int),
            decreases n - i,
        {
            let t = self.options[i].clone();
            proof {
                assert(self.options@.take(i + 1) =~= self.options@.take(i as int).push(t));
            }
            options.push(t);
            i += 1;
        }
        proof {
            assert(self.options@.take(n as int) =~= self.options@);
        }
        Self { stakeholder: self.stakeholder.duplicate(), options }
    }

    /// The role shown next to the name: the one chosen in the item, or the
    /// stakeholder's own role when none is chosen.
    pub fn role_label(&self, chosen: Option<&str>) -> (r: String)
        ensures
            r@ == match chosen {
                Some(c) => c@,
                None => role_text(self.stakeholder.role),
            },
    {
        match chosen {
            Some(c) => String::from_str(c),
            None => String::from_str(self.stakeholder.role.as_str()),
        }
    }

    /// How the item shows its stakeholder: the name with the role shown next
    /// to it (see `role_label`), when it was created, and its email when it
    /// has one.
    pub fn card(&self, chosen: Option<&str>) -> (r: CustomerCard)
        ensures
            r.title@ == self.stakeholder@.customer.name + " ["@ + match chosen {
                Some(c) => c@,
                None => role_text(self.stakeholder.role),
            } + "]"@,
            r.created@ == created_line(self.stakeholder@.customer),
            r.email.deep_view() == email_line(self.stakeholder@.customer),
    {
        let role = self.role_label(chosen);
        let mut title = concat3(self.stakeholder.name.as_str(), " [", role.as_str());
        title.append("]");
        CustomerCard {
            title,
            created: concat2("Created at: ", self.stakeholder.created_at.as_str()),
            email: email_text(&self.stakeholder.email),
        }
    }

    /// The event asking to remove this stakeholder from the project.
    pub fn remove_event(&self) -> (e: StakeholderItemEvent)
        ensures
            e matches StakeholderItemEvent::RemoveStakeholder(s) && s@ == self.stakeholder@,
    {
        StakeholderItemEvent::RemoveStakeholder(self.stakeholder.duplicate())
    }
}

} // verus!
