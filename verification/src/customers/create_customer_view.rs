//! The form that creates a customer.
use vstd::prelude::*;
use vstd::utf8::encode_utf8;

use crate::shared::customer::{Customer, CustomerView, Draft};
use crate::text::{concat3, first_word, first_word_of, trim_chars, trimmed};

verus! {

/// What the customer form tells its listeners.
pub enum CreateCustomerEvent {
    /// The customer was stored.
    Created(Customer),
    /// Storing the customer failed.
    FaileToCreate,
    /// The text of a field changed.
    InputChange,
}

/// The text fields of the customer form.
#[derive(Debug, Clone, Copy, PartialEq, Eq, Hash)]
pub enum CustomerFormFieldId {
    Name,
    Email,
    Address,
    InstagramUrl,
    SiteUrl,
    PhoneNumber,
}

/// A text field of the form and its label.
#[derive(Debug, Clone, Copy, PartialEq, Eq)]
pub struct FormFieldDescriptor {
    pub id: CustomerFormFieldId,
    pub label: &'static str,
}

/// The label of a field.
pub open spec fn field_label(id: CustomerFormFieldId) -> Seq<char> {
    match id {
        CustomerFormFieldId::Name => "Name"@,
        CustomerFormFieldId::Email => "Email"@,
        CustomerFormFieldId::Address => "Address"@,
        CustomerFormFieldId::InstagramUrl => "Instagram"@,
        CustomerFormFieldId::SiteUrl => "Site url"@,
        CustomerFormFieldId::PhoneNumber => "Phone number"@,
    }
}

/// The field shown at position `k` of the form.
pub open spec fn field_at(k: int) -> CustomerFormFieldId {
    if k == 0 {
        CustomerFormFieldId::Name
    } else if k == 1 {
        CustomerFormFieldId::Email
    } else if k == 2 {
        CustomerFormFieldId::Address
    } else if k == 3 {
        CustomerFormFieldId::InstagramUrl
    } else if k == 4 {
        CustomerFormFieldId::SiteUrl
    } else {
        CustomerFormFieldId::PhoneNumber
    }
}

fn descriptor(id: CustomerFormFieldId) -> (r: FormFieldDescriptor)
    ensures
        r.id == id,
        r.label@ == field_label(id),
{
    let label = match id {
        CustomerFormFieldId::Name => "Name",
        CustomerFormFieldId::Email => "Email",
        CustomerFormFieldId::Address => "Address",
        CustomerFormFieldId::InstagramUrl => "Instagram",
        CustomerFormFieldId::SiteUrl => "Site url",
        CustomerFormFieldId::PhoneNumber => "Phone number",
    };
    FormFieldDescriptor { id, label }
}

/// The text fields of the form, in the order they are shown.
pub fn text_fields() -> (r: Vec<FormFieldDescriptor>)
    ensures
        r@.len() == 6,
        forall|k: int| 0 <= k < 6 ==> (#[trigger] r@[k]).id == field_at(k) && r@[k].label@ == field_label(field_at(k)),
{
    let mut r: Vec<FormFieldDescriptor> = Vec::new();
    r.push(descriptor(CustomerFormFieldId::Name));
    r.push(descriptor(CustomerFormFieldId::Email));
    r.push(descriptor(CustomerFormFieldId::Address));
    r.push(descriptor(CustomerFormFieldId::InstagramUrl));
    r.push(descriptor(CustomerFormFieldId::SiteUrl));
    r.push(descriptor(CustomerFormFieldId::PhoneNumber));
    r
}

/// The content of the customer form.
pub ghost struct CustomerFormModel {
    pub name: Seq<char>,
    pub email: Seq<char>,
    pub address: Seq<char>,
    pub instagram_url: Seq<char>,
    pub site_url: Seq<char>,
    pub phone_number: Seq<char>,
    pub is_client: bool,
    pub contacted: bool,
    pub was_edited: bool,
}

impl CustomerFormModel {
    /// The text entered in a field.
    pub open spec fn value(self, id: CustomerFormFieldId) -> Seq<char> {
        match id {
            CustomerFormFieldId::Name => self.name,
            CustomerFormFieldId::Email => self.email,
            CustomerFormFieldId::Address => self.address,
            CustomerFormFieldId::InstagramUrl => self.instagram_url,
            CustomerFormFieldId::SiteUrl => self.site_url,
            CustomerFormFieldId::PhoneNumber => self.phone_number,
        }
    }

    /// After the text of a field changes: the field holds it and the form
    /// counts as edited.
    pub open spec fn with_value(self, id: CustomerFormFieldId, t: Seq<char>) -> CustomerFormModel {
        let m = match id {
            CustomerFormFieldId::Name => CustomerFormModel { name: t, ..self },
            CustomerFormFieldId::Email => CustomerFormModel { email: t, ..self },
            CustomerFormFieldId::Address => CustomerFormModel { address: t, ..self },
            CustomerFormFieldId::InstagramUrl => CustomerFormModel { instagram_url: t, ..self },
            CustomerFormFieldId::SiteUrl => CustomerFormModel { site_url: t, ..self },
            CustomerFormFieldId::PhoneNumber => CustomerFormModel { phone_number: t, ..self },
        };
        CustomerFormModel { was_edited: true, ..m }
    }

    /// An empty form: no text, not a client, not contacted, not edited.
    pub open spec fn blank() -> CustomerFormModel {
        CustomerFormModel {
            name: Seq::empty(),
            email: Seq::empty(),
            address: Seq::empty(),
            instagram_url: Seq::empty(),
            site_url: Seq::empty(),
            phone_number: Seq::empty(),
            is_client: false,
            contacted: false,
            was_edited: false,
        }
    }
}

/// An optional detail: absent when its text is blank, the text otherwise.
pub open spec fn optional_detail(t: Seq<char>) -> Option<Seq<char>> {
    if trimmed(t).len() == 0 {
        None
    } else {
        Some(t)
    }
}

/// The customer the form's values describe.
pub open spec fn drafted_customer(m: CustomerFormModel) -> CustomerView<Draft> {
    CustomerView {
        id: Draft,
        name: m.name,
        email: m.email,
        phone_number: m.phone_number,
        address: optional_detail(m.address),
        instagram_url: optional_detail(m.instagram_url),
        site_url: optional_detail(m.site_url),
        is_client: m.is_client,
        contacted: m.contacted,
        created_at: Seq::empty(),
    }
}

/// The heading of the form: the entered name once it is longer than three
/// bytes, a fixed invitation before.
pub open spec fn form_title(m: CustomerFormModel) -> Seq<char> {
    if (encode_utf8(m.name).len() as usize) > 3 {
        m.name
    } else {
        "Create a new Customer"@
    }
}

/// The values entered in the customer form.
pub struct CreateCustomerView {
    name: String,
    email: String,
    address: String,
    instagram_url: String,
    site_url: String,
    phone_number: String,
    pub is_client: bool,
    pub contacted: bool,
    pub was_edited: bool,
}

impl View for CreateCustomerView {
    type V = CustomerFormModel;

    closed spec fn view(&self) -> CustomerFormModel {
        CustomerFormModel {
            name: self.name@,
            email: self.email@,
            address: self.address@,
            instagram_url: self.instagram_url@,
            site_url: self.site_url@,
            phone_number: self.phone_number@,
            is_client: self.is_client,
            contacted: self.contacted,
            was_edited: self.was_edited,
        }
    }
}

/// The text of `t` when it is not blank.
fn optional_text(t: &String) -> (r: Option<String>)
    ensures
        r.deep_view() == optional_detail(t@),
{
    let trimmed_text = trim_chars(t.as_str());
    if trimmed_text.len() == 0 {
        None
    } else {
        Some(t.clone())
    }
}

impl CreateCustomerView {
    /// An empty form.
    pub fn new() -> (s: Self)
        ensures
            s@ == CustomerFormModel::blank(),
    {
        Self {
            name: String::new(),
            email: String::new(),
            address: String::new(),
            instagram_url: String::new(),
            site_url: String::new(),
            phone_number: String::new(),
            is_client: false,
            contacted: false,
            was_edited: false,
        }
    }

    /// The text entered in a field.
    pub fn get_value(&self, id: CustomerFormFieldId) -> (r: &str)
        ensures
            r@ == self@.value(id),
    {
        match id {
            CustomerFormFieldId::Name => self.name.as_str(),
            CustomerFormFieldId::Email => self.email.as_str(),
            CustomerFormFieldId::Address => self.address.as_str(),
            CustomerFormFieldId::InstagramUrl => self.instagram_url.as_str(),
            CustomerFormFieldId::SiteUrl => self.site_url.as_str(),
            CustomerFormFieldId::PhoneNumber => self.phone_number.as_str(),
        }
    }

    /// Records the text now entered in a field; the form counts as edited.
    pub fn set_value(&mut self, id: CustomerFormFieldId, text: &str)
        ensures
            final(self)@ == old(self)@.with_value(id, text@),
    {
        let v = String::from_str(text);
        match id {
            CustomerFormFieldId::Name => self.name = v,
            CustomerFormFieldId::Email => self.email = v,
            CustomerFormFieldId::Address => self.address = v,
            CustomerFormFieldId::InstagramUrl => self.instagram_url = v,
            CustomerFormFieldId::SiteUrl => self.site_url = v,
            CustomerFormFieldId::PhoneNumber => self.phone_number = v,
        }
        self.was_edited = true;
    }

    /// Marks the customer as a client or not; a client has been contacted
    /// too, so marking it a client marks it contacted.
    pub fn set_is_client(&mut self, value: bool)
        ensures
            final(self)@ == (CustomerFormModel {
                is_client: value,
                contacted: if value {
                    true
                } else {
                    old(self)@.contacted
                },
                ..old(self)@
            }),
            value ==> final(self)@.contacted,
    {
        self.is_client = value;
        if value {
            self.contacted = value
        }
    }

    /// Marks the customer as contacted or not.
    pub fn set_contacted(&mut self, value: bool)
        ensures
            final(self)@ == (CustomerFormModel { contacted: value, ..old(self)@ }),
    {
        self.contacted = value
    }

    /// Empties every field and clears the flags.
    pub fn reset_form(&mut self)
        ensures
            final(self)@ == CustomerFormModel::blank(),
    {
        self.name = String::new();
        self.email = String::new();
        self.address = String::new();
        self.instagram_url = String::new();
        self.site_url = String::new();
        self.phone_number = String::new();
        self.is_client = false;
        self.contacted = false;
        self.was_edited = false;
    }

    /// The customer to store for the form's values: name, email and phone
    /// number as entered, each other detail only when it is not blank.
    pub fn save_customer(&self) -> (c: Customer<Draft>)
        ensures
            c@ == drafted_customer(self@),
    {
        Customer::<Draft> {
            id: Draft,
            name: self.name.clone(),
            email: self.email.clone(),
            phone_number: self.phone_number.clone(),
            address: optional_text(&self.address),
            instagram_url: optional_text(&self.instagram_url),
            site_url: optional_text(&self.site_url),
            is_client: self.is_client,
            contacted: self.contacted,
            created_at: String::new(),
        }
    }

    /// The first word of the entered name, as the confirmation names it.
    pub fn first_name(&self) -> (r: String)
        ensures
            r@ == first_word(self@.name),
    {
        first_word_of(self.name.as_str())
    }

    /// The heading of the form.
    pub fn title(&self) -> (r: String)
        ensures
            r@ == form_title(self@),
    {
        if self.name.as_str().len() > 3 {
            self.name.clone()
        } else {
            String::from_str("Create a new Customer")
        }
    }

    /// Whether the form can be saved: once something was entered.
    pub fn can_save(&self) -> (r: bool)
        ensures
            r == self@.was_edited,
    {
        self.was_edited
    }

    /// Whether the form can be reset: only before anything was entered.
    pub fn can_reset(&self) -> (r: bool)
        ensures
            r == !self@.was_edited,
    {
        !self.was_edited
    }

    /// The notice confirming that the customer was created, naming it by the
    /// first word of the entered name.
    pub fn created_notice(&self) -> (r: String)
        ensures
            r@ == "Customer "@ + first_word(self@.name) + " created"@,
    {
        let first = self.first_name();
        concat3("Customer ", first.as_str(), " created")
    }

    /// The customer was stored: the form is emptied, and the event
    /// announcing the stored customer is given.
    pub fn on_saved(&mut self, customer: Customer) -> (e: CreateCustomerEvent)
        ensures
            final(self)@ == CustomerFormModel::blank(),
            e matches CreateCustomerEvent::Created(c) && c@ == customer@,
    {
        self.reset_form();
        CreateCustomerEvent::Created(customer)
    }
}

/// The customer drafted from a form takes each detail from its own field:
/// the name, email and phone number as entered, and the address, Instagram
/// address and site as entered when their text is not blank, absent when it
/// is; it is a client and contacted as marked, with no creation time yet.
pub proof fn law_draft_takes_each_detail_from_its_field(m: CustomerFormModel)
    ensures
        drafted_customer(m).name == m.name,
        drafted_customer(m).email == m.email,
        drafted_customer(m).phone_number == m.phone_number,
        trimmed(m.address).len() == 0 ==> drafted_customer(m).address is None,
        trimmed(m.address).len() > 0 ==> drafted_customer(m).address == Some(m.address),
        trimmed(m.instagram_url).len() == 0 ==> drafted_customer(m).instagram_url is None,
        trimmed(m.instagram_url).len() > 0 ==> drafted_customer(m).instagram_url == Some(m.instagram_url),
        trimmed(m.site_url).len() == 0 ==> drafted_customer(m).site_url is None,
        trimmed(m.site_url).len() > 0 ==> drafted_customer(m).site_url == Some(m.site_url),
        drafted_customer(m).is_client == m.is_client,
        drafted_customer(m).contacted == m.contacted,
        drafted_customer(m).created_at.len() == 0,
{
}

} // verus!
