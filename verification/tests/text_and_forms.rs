use targetz::customers::create_customer_view::{text_fields, CreateCustomerView, CustomerFormFieldId};
use targetz::customers::interactions::create_interaction_view::{
    date_fields, select_fields, CreateInteractionView, InteractionFormFieldId,
};
use targetz::shared::customer::Draft;
use targetz::shared::customer_interaction::InteractionStatus;
use targetz::text::{chars_of, first_word_of, occurs, str_equals, trim_chars};

#[test]
fn trimming_removes_unicode_whitespace() {
    assert_eq!(trim_chars("  ab c \t\n"), vec!['a', 'b', ' ', 'c']);
    assert_eq!(trim_chars("\u{a0}x\u{3000}"), vec!['x']);
    assert!(trim_chars("   ").is_empty());
    assert!(trim_chars("").is_empty());
}

#[test]
fn occurrence_search() {
    assert!(occurs(&chars_of("ab"), &chars_of("cabd")));
    assert!(!occurs(&chars_of("ba"), &chars_of("cabd")));
    assert!(occurs(&chars_of(""), &chars_of("")));
    assert!(!occurs(&chars_of("abc"), &chars_of("ab")));
}

#[test]
fn string_equality() {
    assert!(str_equals("héllo", "héllo"));
    assert!(!str_equals("hello", "hell"));
    assert!(!str_equals("a", "b"));
}

#[test]
fn first_word() {
    assert_eq!(first_word_of("  Ana Maria"), "Ana");
    assert_eq!(first_word_of("Bob"), "Bob");
    assert_eq!(first_word_of("   "), "");
}

#[test]
fn customer_form_fields_in_order() {
    let f = text_fields();
    let labels: Vec<&str> = f.iter().map(|d| d.label).collect();
    assert_eq!(labels, vec!["Name", "Email", "Address", "Instagram", "Site url", "Phone number"]);
    assert_eq!(f[5].id, CustomerFormFieldId::PhoneNumber);
}

#[test]
fn customer_form_drafts_without_blank_details() {
    let mut v = CreateCustomerView::new();
    assert!(!v.was_edited);
    v.set_value(CustomerFormFieldId::Name, "Ana Maria");
    v.set_value(CustomerFormFieldId::Email, "ana@x.io");
    v.set_value(CustomerFormFieldId::Address, "   ");
    v.set_value(CustomerFormFieldId::SiteUrl, " ana.io ");
    assert!(v.was_edited);
    assert_eq!(v.get_value(CustomerFormFieldId::Name), "Ana Maria");
    v.set_is_client(true);
    assert!(v.contacted);
    let d = v.save_customer();
    assert_eq!(d.id, Draft);
    assert_eq!(d.name, "Ana Maria");
    assert_eq!(d.address, None);
    assert_eq!(d.instagram_url, None);
    assert_eq!(d.site_url.as_deref(), Some(" ana.io "));
    assert!(d.is_client && d.contacted);
    assert_eq!(v.first_name(), "Ana");
    assert_eq!(v.title(), "Ana Maria");
}

#[test]
fn customer_form_flags_and_reset() {
    let mut v = CreateCustomerView::new();
    v.set_contacted(true);
    v.set_is_client(false);
    assert!(v.contacted && !v.is_client);
    v.set_contacted(false);
    assert!(!v.contacted);
    v.set_value(CustomerFormFieldId::Name, "Bob");
    assert_eq!(v.title(), "Create a new Customer");
    v.reset_form();
    assert_eq!(v.get_value(CustomerFormFieldId::Name), "");
    assert!(!v.was_edited && !v.is_client && !v.contacted);
}

#[test]
fn interaction_form_drafts_and_resets() {
    let mut f = CreateInteractionView::new(None);
    f.set_value(InteractionFormFieldId::InteractionDate, "2024-03-04");
    f.set_value(InteractionFormFieldId::Status, "Refused the contact or deal");
    let d = f.save_interaction();
    assert_eq!(d.note, None);
    assert_eq!(d.status, InteractionStatus::Refused);
    assert_eq!(d.interaction_date, "2024-03-04");
    f.set_value(InteractionFormFieldId::Note, "called twice");
    assert_eq!(f.save_interaction().note.as_deref(), Some("called twice"));
    f.reset_form();
    assert_eq!(f.value(InteractionFormFieldId::Note), "");
    assert_eq!(f.value(InteractionFormFieldId::InteractionDate), "2024-03-04");
    assert_eq!(f.save_interaction().status, InteractionStatus::Refused);
}

#[test]
fn interaction_form_descriptors() {
    assert_eq!(date_fields()[0].label, "Interaction date");
    let s = select_fields();
    assert_eq!(s[0].id, InteractionFormFieldId::Status);
    assert_eq!(s[0].options.len(), 4);
    assert_eq!(s[0].options[2], "No response from customer");
}
