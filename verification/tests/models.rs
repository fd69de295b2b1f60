use targetz::shared::customer::{Customer, Draft, Stakeholder, StakeholderRole};
use targetz::shared::customer_interaction::{Interaction, InteractionRow, InteractionStatus};
use targetz::shared::project::{Project, ProjectRow, ProjectStatus};
use targetz::shared::AppTab;

#[test]
fn new_customer_has_no_details() {
    let c = Customer::new("Ana", "ana@example.com", "555-1");
    assert_eq!(c.id, Draft);
    assert_eq!(c.name, "Ana");
    assert_eq!(c.email, "ana@example.com");
    assert_eq!(c.phone_number, "555-1");
    assert_eq!(c.address, None);
    assert_eq!(c.instagram_url, None);
    assert_eq!(c.site_url, None);
    assert!(!c.is_client);
    assert!(!c.contacted);
    assert_eq!(c.created_at, "");
}

#[test]
fn into_persisted_keeps_content() {
    let mut d = Customer::new("Ana", "a", "b");
    d.address = Some("Rua 1".to_string());
    d.is_client = true;
    let c = d.clone().into_persisted(12);
    assert_eq!(c.id, 12);
    assert_eq!(c.name, d.name);
    assert_eq!(c.address, d.address);
    assert!(c.is_client);
}

#[test]
fn stakeholder_roundtrip_gives_the_customer_back() {
    let c = Customer::new("Ana", "a", "b").into_persisted(3);
    let s = Stakeholder::new(c.clone(), Some(StakeholderRole::Owner));
    assert_eq!(s.role, StakeholderRole::Owner);
    assert_eq!(s.customer(), c);
}

#[test]
fn stakeholder_defaults_to_partner() {
    let c = Customer::new("Ana", "a", "b").into_persisted(3);
    assert_eq!(Stakeholder::new(c, None).role, StakeholderRole::Partner);
}

#[test]
fn role_texts_and_parsing() {
    assert_eq!(StakeholderRole::Owner.as_str(), "owner");
    assert_eq!(StakeholderRole::Investor.as_str(), "investor");
    assert_eq!(StakeholderRole::Partner.as_str(), "partner");
    for r in [StakeholderRole::Owner, StakeholderRole::Investor, StakeholderRole::Partner] {
        assert_eq!(StakeholderRole::from(r.as_str().to_string()), r);
    }
    assert_eq!(StakeholderRole::from("boss".to_string()), StakeholderRole::Partner);
    assert_eq!(StakeholderRole::from("Owner".to_string()), StakeholderRole::Partner);
}

#[test]
fn interaction_status_texts_and_parsing() {
    assert_eq!(InteractionStatus::Contacted.as_str(), "Contacted");
    assert_eq!(InteractionStatus::NewClient.as_str(), "New client");
    assert_eq!(InteractionStatus::NoResponse.as_str(), "No response from customer");
    assert_eq!(InteractionStatus::Refused.as_str(), "Refused the contact or deal");
    for s in [
        InteractionStatus::Contacted,
        InteractionStatus::NewClient,
        InteractionStatus::NoResponse,
        InteractionStatus::Refused,
    ] {
        assert_eq!(InteractionStatus::from_str(s.as_str()), s);
    }
    assert_eq!(InteractionStatus::from_str("whatever"), InteractionStatus::NoResponse);
    assert_eq!(InteractionStatus::from_str(""), InteractionStatus::NoResponse);
    assert_eq!(InteractionStatus::option_texts(), vec![
        "Contacted".to_string(),
        "New client".to_string(),
        "No response from customer".to_string(),
        "Refused the contact or deal".to_string(),
    ]);
}

#[test]
fn interaction_from_row_reads_the_status() {
    let row = InteractionRow {
        id: 4,
        interaction_date: "2024-01-02".to_string(),
        status: "New client".to_string(),
        note: Some("met".to_string()),
    };
    let i: Interaction = Interaction::from(row);
    assert_eq!(i.id, 4);
    assert_eq!(i.interaction_date, "2024-01-02");
    assert_eq!(i.status, InteractionStatus::NewClient);
    assert_eq!(i.note.as_deref(), Some("met"));
}

#[test]
fn project_status_texts_and_parsing() {
    let all = [
        ProjectStatus::Started,
        ProjectStatus::Finished,
        ProjectStatus::Prospecting,
        ProjectStatus::Propousing,
        ProjectStatus::Refactoring,
    ];
    for s in all {
        assert_eq!(ProjectStatus::from(s.as_str().to_string()), s);
    }
    assert_eq!(ProjectStatus::Propousing.as_str(), "Propousing");
    assert_eq!(ProjectStatus::from("unknown".to_string()), ProjectStatus::Started);
    assert!(ProjectStatus::Started.same_as(&ProjectStatus::Started));
    assert!(!ProjectStatus::Started.same_as(&ProjectStatus::Finished));
}

#[test]
fn project_from_row() {
    let row = ProjectRow {
        id: 8,
        name: "Alpha".to_string(),
        current_version: "2".to_string(),
        created_at: "now".to_string(),
        status: "Finished".to_string(),
        description: Some("d".to_string()),
        start_date: None,
        site_url: Some("s".to_string()),
        codename: None,
        target_deadline: None,
        updated_at: None,
        budget: Some(1.5f64.to_bits()),
    };
    let p: Project = Project::from(row);
    assert_eq!(p.id, 8);
    assert_eq!(p.status, ProjectStatus::Finished);
    assert_eq!(p.site_url.as_deref(), Some("s"));
    assert_eq!(f64::from_bits(p.budget.unwrap()), 1.5);
}

#[test]
fn app_tab_labels() {
    assert_eq!(AppTab::CreateCustomer.as_str(), "Create customer");
    assert_eq!(AppTab::Home.as_str(), "Homepage");
    assert_eq!(AppTab::Settings.as_str(), "Settings");
    assert_eq!(AppTab::Targetz.as_str(), "Targetz");
    assert_eq!(AppTab::Home.to_display_string(), "Homepage\n");
    assert_eq!(AppTab::CreateCustomer.to_display_string(), "Create Customer\n");
}
