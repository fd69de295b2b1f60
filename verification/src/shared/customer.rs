//! Customers, the stakeholders of a project, and their roles.
use vstd::prelude::*;
use vstd::std_specs::convert::FromSpecImpl;

use crate::text::{str_equals, string_of};

verus! {

/// Marks a customer that has not been stored yet and so has no id.
#[derive(Debug, Clone, Copy, PartialEq, Eq)]
pub struct Draft;

/// The id of a stored record.
pub type Persisted = i64;

/// A customer record; `Id` is `Draft` before it is stored and its id after.
#[derive(Debug, Clone, PartialEq, Eq)]
pub struct Customer<Id = Persisted> {
    pub id: Id,
    pub name: String,
    pub email: String,
    pub phone_number: String,
    pub address: Option<String>,
    pub instagram_url: Option<String>,
    pub site_url: Option<String>,
    pub is_client: bool,
    pub contacted: bool,
    pub created_at: String,
}

/// The content of a customer record, with its text as character sequences.
pub ghost struct CustomerView<Id> {
    pub id: Id,
    pub name: Seq<char>,
    pub email: Seq<char>,
    pub phone_number: Seq<char>,
    pub address: Option<Seq<char>>,
    pub instagram_url: Option<Seq<char>>,
    pub site_url: Option<Seq<char>>,
    pub is_client: bool,
    pub contacted: bool,
    pub created_at: Seq<char>,
}

impl<Id> View for Customer<Id> {
    type V = CustomerView<Id>;

    open spec fn view(&self) -> CustomerView<Id> {
        CustomerView {
            id: self.id,
            name: self.name@,
            email: self.email@,
            phone_number: self.phone_number@,
            address: self.address.deep_view(),
            instagram_url: self.instagram_url.deep_view(),
            site_url: self.site_url.deep_view(),
            is_client: self.is_client,
            contacted: self.contacted,
            created_at: self.created_at@,
        }
    }
}

/// The same customer content under another id.
pub open spec fn with_id<A, B>(v: CustomerView<A>, id: B) -> CustomerView<B> {
    CustomerView {
        id,
        name: v.name,
        email: v.email,
        phone_number: v.phone_number,
        address: v.address,
        instagram_url: v.instagram_url,
        site_url: v.site_url,
        is_client: v.is_client,
        contacted: v.contacted,
        created_at: v.created_at,
    }
}

/// The content of a list of stored customers.
pub open spec fn customer_views(v: Seq<Customer>) -> Seq<CustomerView<Persisted>> {
    v.map_values(|c: Customer| c@)
}

/// A copy of an optional text.
pub fn copy_text(t: &Option<String>) -> (r: Option<String>)
    ensures
        r.deep_view() == t.deep_view(),
{
    match t {
        Some(s) => Some(s.clone()),
        None => None,
    }
}

/// Character-wise equality of two optional texts.
pub fn same_text(a: &Option<String>, b: &Option<String>) -> (r: bool)
    ensures
        r == (a.deep_view() == b.deep_view()),
{
    match a {
        Some(x) => match b {
            Some(y) => {
                let r = *x == *y;
                proof {
                    assert(a.deep_view() == Some(x@));
                    assert(b.deep_view() == Some(y@));
                }
                r
            },
            None => false,
        },
        None => match b {
            Some(_) => false,
            None => true,
        },
    }
}

impl Customer<Draft> {
    /// A customer that is not stored yet: the given name, email and phone
    /// number, no optional details, neither a client nor contacted, and an
    /// empty creation time.
    pub fn new(name: &str, email: &str, phone_number: &str) -> (c: Self)
        ensures
            c@ == (CustomerView::<Draft> {
                id: Draft,
                name: name@,
                email: email@,
                phone_number: phone_number@,
                address: None,
                instagram_url: None,
                site_url: None,
                is_client: false,
                contacted: false,
                created_at: Seq::empty(),
            }),
    {
        Self {
            id: Draft,
            name: string_of(name),
            email: string_of(email),
            phone_number: string_of(phone_number),
            address: None,
            instagram_url: None,
            site_url: None,
            is_client: false,
            contacted: false,
            created_at: String::new(),
        }
    }

    /// The same customer, now stored under `id`.
    pub fn into_persisted(self, id: Persisted) -> (c: Customer<Persisted>)
        ensures
            c@ == with_id(self@, id),
    {
        Customer {
            id,
            name: self.name,
            email: self.email,
            phone_number: self.phone_number,
            address: self.address,
            instagram_url: self.instagram_url,
            site_url: self.site_url,
            is_client: self.is_client,
            contacted: self.contacted,
            created_at: self.created_at,
        }
    }
}

impl Customer<Persisted> {
    /// A copy of this customer with the same content.
    pub fn duplicate(&self) -> (c: Self)
        ensures
            c@ == self@,
    {
        Customer {
            id: self.id,
            name: self.name.clone(),
            email: self.email.clone(),
            phone_number: self.phone_number.clone(),
            address: copy_text(&self.address),
            instagram_url: copy_text(&self.instagram_url),
            site_url: copy_text(&self.site_url),
            is_client: self.is_client,
            contacted: self.contacted,
            created_at: self.created_at.clone(),
        }
    }

    /// Whether two customers have the same content.
    pub fn same_as(&self, other: &Self) -> (r: bool)
        ensures
            r == (self@ == other@),
    {
        self.id == other.id && self.name == other.name && self.email == other.email
            && self.phone_number == other.phone_number && same_text(&self.address, &other.address)
            && same_text(&self.instagram_url, &other.instagram_url) && same_text(
            &self.site_url,
            &other.site_url,
        ) && self.is_client == other.is_client && self.contacted == other.contacted
            && self.created_at == other.created_at
    }
}

/// A copy of a list of stored customers.
pub fn copy_customers(list: &Vec<Customer>) -> (r: Vec<Customer>)
    ensures
        customer_views(r@) == customer_views(list@),
{
    let n = list.len();
    let mut r: Vec<Customer> = Vec::new();
    let mut i: usize = 0;
    while i < n
        invariant
            n == list@.len(),
            i <= n,
            customer_views(r@) == customer_views(list@).take(i as int),
        decreases n - i,
    {
        let c = list[i].duplicate();
        proof {
            assert(customer_views(list@)[i as int] == c@);
            assert(customer_views(r@.push(c)) =~= customer_views(r@).push(c@));
            assert(customer_views(list@).take(i + 1) =~= customer_views(list@).take(i as int).push(c@));
        }
        r.push(c);
        i += 1;
    }
    proof {
        assert(customer_views(list@).take(n as int) =~= customer_views(list@));
    }
    r
}

/// The part a customer plays in a project.
#[derive(Debug, Clone, Copy, PartialEq, Eq)]
pub enum StakeholderRole {
    Owner,
    Investor,
    Partner,
}

/// The stored text of a role.
pub open spec fn role_text(r: StakeholderRole) -> Seq<char> {
    match r {
        StakeholderRole::Investor => "investor"@,
        StakeholderRole::Owner => "owner"@,
        StakeholderRole::Partner => "partner"@,
    }
}

/// The role that a stored text names; any other text is read as a partner.
pub open spec fn role_from_text(s: Seq<char>) -> StakeholderRole {
    if s == "owner"@ {
        StakeholderRole::Owner
    } else if s == "investor"@ {
        StakeholderRole::Investor
    } else {
        StakeholderRole::Partner
    }
}

impl StakeholderRole {
    /// The stored text of this role.
    pub fn as_str(&self) -> (r: &'static str)
        ensures
            r@ == role_text(*self),
    {
        match self {
            Self::Investor => "investor",
            Self::Owner => "owner",
            Self::Partner => "partner",
        }
    }
}

impl From<String> for StakeholderRole {
    fn from(value: String) -> (r: Self) {
        let s = value.as_str();
        if str_equals(s, "owner") {
            Self::Owner
        } else if str_equals(s, "investor") {
            Self::Investor
        } else {
            Self::Partner
        }
    }
}

impl FromSpecImpl<String> for StakeholderRole {
    open spec fn obeys_from_spec() -> bool {
        true
    }

    open spec fn from_spec(v: String) -> Self {
        role_from_text(v@)
    }
}

/// A customer taking part in a project, with the role it plays there.
#[derive(Debug, Clone, PartialEq, Eq)]
pub struct Stakeholder {
    pub id: i64,
    pub name: String,
    pub email: String,
    pub phone_number: String,
    pub address: Option<String>,
    pub instagram_url: Option<String>,
    pub site_url: Option<String>,
    pub is_client: bool,
    pub contacted: bool,
    pub created_at: String,
    pub role: StakeholderRole,
}

/// The content of a stakeholder: the customer's content and the role.
pub ghost struct StakeholderView {
    pub customer: CustomerView<Persisted>,
    pub role: StakeholderRole,
}

impl View for Stakeholder {
    type V = StakeholderView;

    open spec fn view(&self) -> StakeholderView {
        StakeholderView {
            customer: CustomerView {
                id: self.id,
                name: self.name@,
                email: self.email@,
                phone_number: self.phone_number@,
                address: self.address.deep_view(),
                instagram_url: self.instagram_url.deep_view(),
                site_url: self.site_url.deep_view(),
                is_client: self.is_client,
                contacted: self.contacted,
                created_at: self.created_at@,
            },
            role: self.role,
        }
    }
}

/// The content of `customer` taking part with `role`, a partner when none
/// is given.
pub open spec fn stakeholder_of(customer: CustomerView<Persisted>, role: Option<StakeholderRole>) -> StakeholderView {
    StakeholderView {
        customer,
        role: match role {
            Some(r) => r,
            None => StakeholderRole::Partner,
        },
    }
}

impl Stakeholder {
    /// The customer behind this stakeholder, without the role.
    pub fn customer(self) -> (c: Customer)
        ensures
            c@ == self@.customer,
    {
        Customer {
            id: self.id,
            name: self.name,
            email: self.email,
            phone_number: self.phone_number,
            address: self.address,
            instagram_url: self.instagram_url,
            site_url: self.site_url,
            is_client: self.is_client,
            contacted: self.contacted,
            created_at: self.created_at,
        }
    }

    /// `customer` taking part with `role`, or as a partner when no role is
    /// given.
    pub fn new(customer: Customer, role: Option<StakeholderRole>) -> (s: Self)
        ensures
            s@ == stakeholder_of(customer@, role),
    {
        Self {
            id: customer.id,
            name: customer.name,
            email: customer.email,
            phone_number: customer.phone_number,
            address: customer.address,
            instagram_url: customer.instagram_url,
            site_url: customer.site_url,
            is_client: customer.is_client,
            contacted: customer.contacted,
            role: match role {
                Some(r) => r,
                None => StakeholderRole::Partner,
            },
            created_at: customer.created_at,
        }
    }

    /// A copy of this stakeholder with the same content.
    pub fn duplicate(&self) -> (s: Self)
        ensures
            s@ == self@,
    {
        Stakeholder {
            id: self.id,
            name: self.name.clone(),
            email: self.email.clone(),
            phone_number: self.phone_number.clone(),
            address: copy_text(&self.address),
            instagram_url: copy_text(&self.instagram_url),
            site_url: copy_text(&self.site_url),
            is_client: self.is_client,
            contacted: self.contacted,
            created_at: self.created_at.clone(),
            role: self.role,
        }
    }

    /// Whether two stakeholders have the same content, role included.
    pub fn same_as(&self, other: &Self) -> (r: bool)
        ensures
            r == (self@ == other@),
    {
        let same_role = match (self.role, other.role) {
            (StakeholderRole::Owner, StakeholderRole::Owner) => true,
            (StakeholderRole::Investor, StakeholderRole::Investor) => true,
            (StakeholderRole::Partner, StakeholderRole::Partner) => true,
            _ => false,
        };
        self.id == other.id && self.name == other.name && self.email == other.email
            && self.phone_number == other.phone_number && same_text(&self.address, &other.address)
            && same_text(&self.instagram_url, &other.instagram_url) && same_text(
            &self.site_url,
            &other.site_url,
        ) && self.is_client == other.is_client && self.contacted == other.contacted
            && self.created_at == other.created_at && same_role
    }
}

/// Making a stakeholder of a customer and taking the customer back gives the
/// customer unchanged, whatever the role.
pub proof fn law_stakeholder_customer_roundtrip(c: CustomerView<Persisted>, role: Option<StakeholderRole>)
    ensures
        stakeholder_of(c, role).customer == c,
{
}

/// Reading back the stored text of a role gives the same role.
pub proof fn law_role_text_roundtrip(r: StakeholderRole)
    ensures
        role_from_text(role_text(r)) == r,
{
    reveal_strlit("owner");
    reveal_strlit("investor");
    reveal_strlit("partner");
    assert("owner"@.len() == 5);
    assert("investor"@.len() == 8);
    assert("partner"@.len() == 7);
    assert("owner"@ != "investor"@);
    assert("partner"@ != "investor"@);
    assert("partner"@ != "owner"@);
}

} // verus!
