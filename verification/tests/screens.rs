use targetz::app_shell::{AppShell, Screen};
use targetz::customers::create_customer_view::{CreateCustomerEvent, CustomerFormFieldId};
use targetz::customers::customer_detail_view::CustomerDetailView;
use targetz::customers::customers_list_view::{customer_item, CustomerListView, CustomerListViewEvent};
use targetz::customers::interactions::create_interaction_view::{
    CreateInteractionView, CreateInteractionViewEvent,
};
use targetz::customers::tab_customers_view::TabCustomerView;
use targetz::projects::project_detail_view::components::{customer_item as relation_item, StakeholderItemView};
use targetz::projects::project_detail_view::state::{ProjectDetailView, ProjectHistoryDelegate};
use targetz::projects::project_form::{CreateProjectView as ProjectForm, CreateProjectViewField};
use targetz::projects::project_form_view::ProjectFormValues;
use targetz::projects::projects_list_view::components::{ProjectItem, StatusTag};
use targetz::projects::projects_list_view::events::ProjectListEvents;
use targetz::projects::projects_list_view::state::ProjectsListView;
use targetz::projects::tab_projects_view::TabProjectsView;
use targetz::shared::customer::{Customer, Stakeholder, StakeholderRole};
use targetz::shared::customer_interaction::{Interaction, InteractionStatus};
use targetz::shared::events::AppEvent;
use targetz::shared::project::{Project, ProjectHistoryRow, ProjectStatus};
use targetz::shared::AppTab;
use targetz::sidebar::{SidebarView, ThemeMode};
use targetz::text::{count_text, decimal_of, text_or_else};

fn customer(id: i64, name: &str) -> Customer {
    let mut c = Customer::new(name, "a@b.c", "555").into_persisted(id);
    c.created_at = "2024-05-01".to_string();
    c
}

fn project(id: i64, name: &str, status: ProjectStatus) -> Project {
    Project {
        id,
        name: name.to_string(),
        current_version: "1.2".to_string(),
        created_at: String::new(),
        status,
        description: None,
        start_date: None,
        site_url: None,
        codename: None,
        target_deadline: None,
        updated_at: None,
        budget: None,
    }
}

fn record(id: Option<i64>) -> ProjectHistoryRow {
    ProjectHistoryRow {
        id,
        from_status: "Started".to_string(),
        to_status: "Finished".to_string(),
        project_id: 1,
        note: None,
        change_ask_by: Some("Ana".to_string()),
        reason: None,
        impact_on_target_deadline: None,
        created_at: "2024-06-01".to_string(),
    }
}

#[test]
fn decimal_texts() {
    assert_eq!(decimal_of(0), "0");
    assert_eq!(decimal_of(42), "42");
    assert_eq!(decimal_of(-7), "-7");
    assert_eq!(decimal_of(i64::MIN), "-9223372036854775808");
    assert_eq!(decimal_of(i64::MAX), "9223372036854775807");
    assert_eq!(count_text(1000), "1000");
    assert_eq!(text_or_else(&None, "N/A"), "N/A");
    assert_eq!(text_or_else(&Some("x".to_string()), "N/A"), "x");
}

#[test]
fn customer_profile_and_cards() {
    let mut c = customer(12, "Ana Lima");
    c.is_client = true;
    c.site_url = Some("ana.dev".to_string());
    let mut d = CustomerDetailView::new(None);
    assert!(d.profile().is_none());
    assert!(d.interaction_cards().is_none());
    d.set_customer(c);
    let p = d.profile().unwrap();
    assert_eq!(p.name, "Ana Lima");
    assert_eq!(p.id_label, "ID #12");
    assert_eq!(p.client_tag, "Active Client");
    assert_eq!(p.contact_tag, "Pending Contact");
    let rows: Vec<(&str, &str)> = p.rows.iter().map(|r| (r.label, r.value.as_str())).collect();
    assert_eq!(
        rows,
        vec![
            ("Email", "a@b.c"),
            ("Phone Number", "555"),
            ("Address", "N/A"),
            ("Website", "ana.dev"),
            ("Instagram", "N/A"),
        ]
    );
    d.set_interactions(vec![
        Interaction { id: 1, interaction_date: String::new(), status: InteractionStatus::NoResponse, note: None },
        Interaction {
            id: 2,
            interaction_date: "2024-01-02".to_string(),
            status: InteractionStatus::NewClient,
            note: Some("signed".to_string()),
        },
    ]);
    let cards = d.interaction_cards().unwrap();
    assert_eq!(cards.len(), 2);
    assert_eq!(cards[0].date, "Missing interaction date");
    assert_eq!(cards[0].note, "No note left");
    assert!(cards[0].alarming);
    assert_eq!(cards[1].date, "2024-01-02");
    assert_eq!(cards[1].status, "New client");
    assert_eq!(cards[1].note, "signed");
    assert!(!cards[1].alarming);
}

#[test]
fn single_interaction_card() {
    let i = Interaction { id: 3, interaction_date: "d".into(), status: InteractionStatus::Refused, note: None };
    let card = CustomerDetailView::new(None).interaction_item(&i);
    assert_eq!(card.status, "Refused the contact or deal");
    assert!(!card.alarming);
}

#[test]
fn customer_list_items_follow_the_listing() {
    let mut l = CustomerListView::new();
    let mut b = customer(2, "Bruno");
    b.instagram_url = Some("@bruno".to_string());
    let ev = l.set_customers(vec![customer(1, "Ana"), b]);
    assert!(matches!(&ev, AppEvent::LoadedCustomers(v) if v.len() == 2));
    l.set_query("Bru");
    let items = l.items();
    assert_eq!(items.len(), 2);
    assert_eq!(items[0].name, "Bruno");
    assert!(items[0].selected);
    assert_eq!(items[0].instagram, "@bruno");
    assert_eq!(items[0].site, "N/A");
    assert_eq!(items[1].name, "Ana");
    assert!(!items[1].selected);
    let single = customer_item(&customer(9, "Zed"), true);
    assert_eq!(single.address, "N/A");
    assert!(single.selected);
}

#[test]
fn viewing_a_customer_opens_it_in_a_tab() {
    let mut tabs = TabCustomerView::new();
    tabs.customer_list_view.set_customers(vec![customer(1, "Ana"), customer(2, "Bruno")]);
    let ev = tabs.customer_list_view.view_customer(customer(2, "Bruno"));
    assert!(matches!(&ev, CustomerListViewEvent::OPEN(c) if c.id == 2));
    tabs.handle_list_event(ev);
    assert_eq!(tabs.state.selected_index(), 1);
    assert_eq!(tabs.customer_detail_view.customer().unwrap().id, 2);
    assert_eq!(tabs.tab_labels(), vec!["All users".to_string(), "Bruno".to_string()]);
    tabs.select_tab(0);
    assert!(tabs.state.active_customer().is_none());
    tabs.close_tab(2);
    assert_eq!(tabs.tab_labels(), vec!["All users".to_string()]);
}

#[test]
fn created_customer_is_opened_and_shown() {
    let mut shell = AppShell::new();
    shell.create_customer_view.set_value(CustomerFormFieldId::Name, "Carla Souza");
    assert!(shell.create_customer_view.can_save());
    assert!(!shell.create_customer_view.can_reset());
    assert_eq!(shell.create_customer_view.created_notice(), "Customer Carla created");
    let ev = shell.create_customer_view.on_saved(customer(5, "Carla Souza"));
    assert!(!shell.create_customer_view.can_save());
    let load = shell.handle_create_customer_event(ev);
    assert_eq!(load.unwrap().id, 5);
    assert_eq!(shell.current_tab, AppTab::Targetz);
    assert_eq!(shell.sidebar.active_tab, AppTab::Targetz);
    assert_eq!(shell.screen(), Screen::Customers);
    assert_eq!(shell.customer_tab_view.state.tabs().len(), 1);
    assert_eq!(shell.customer_tab_view.customer_detail_view.customer().unwrap().id, 5);
    assert!(shell.handle_create_customer_event(CreateCustomerEvent::InputChange).is_none());
    assert!(!shell.handle_list_event(AppEvent::NewCustomer(customer(6, "X"))));
    assert!(shell.handle_list_event(AppEvent::DeletedCustomer(5)));
    assert_eq!(shell.customer_tab_view.state.tabs().len(), 0);
}

#[test]
fn interaction_form_title_and_saving() {
    let mut f = CreateInteractionView::new(None);
    assert_eq!(f.title(), "Register interaction with ");
    f.set_customer(customer(1, "Ana"));
    assert_eq!(f.title(), "Register interaction with Ana");
    let saved = Interaction { id: 9, interaction_date: "d".into(), status: InteractionStatus::Contacted, note: None };
    let ev = f.on_saved(saved);
    assert!(matches!(ev, CreateInteractionViewEvent::CreatedNewInteraction(i) if i.id == 9));
}

#[test]
fn project_card() {
    let mut p = project(4, "Atlas", ProjectStatus::Propousing);
    p.codename = Some("AT".to_string());
    p.description = Some("   ".to_string());
    p.start_date = Some("2024-01-01".to_string());
    let card = ProjectItem::new(p).card();
    assert_eq!(card.name, "Atlas");
    assert_eq!(card.status, "Propousing");
    assert_eq!(card.tag, StatusTag::Warning);
    assert_eq!(card.version, "v1.2");
    assert_eq!(card.codename.as_deref(), Some("\u{b7} #AT"));
    assert!(card.site.is_none());
    assert!(card.description.is_none());
    assert_eq!(card.period, "2024-01-01 \u{2192} \u{2014}");
    assert!(card.budget.is_none());
}

#[test]
fn project_header_and_history() {
    let mut d = ProjectDetailView::new(None);
    assert!(d.header().is_none());
    let mut p = project(1, "Atlas", ProjectStatus::Started);
    p.codename = Some("AT".to_string());
    d.set_project(p);
    assert_eq!(d.relations_view.project.as_ref().unwrap().id, 1);
    let h = d.header().unwrap();
    assert_eq!(h.subtitle, "1.2 \u{2022} AT");
    assert_eq!(h.description, "No description");
    assert_eq!(h.status_line, "Status : Started");
    let current: Vec<bool> = h.choices.iter().map(|c| c.current).collect();
    assert_eq!(current, vec![false, false, false, false, true]);
    assert_eq!(h.choices[0].status, ProjectStatus::Finished);
    assert_eq!(h.stakeholders_heading, "Stakeholders [0]");
    d.set_stakeholders(vec![Stakeholder::new(customer(3, "Caio"), Some(StakeholderRole::Owner))]);
    assert_eq!(d.header().unwrap().stakeholders_heading, "Stakeholders [1]");
    d.set_history(vec![record(Some(30)), record(None)]);
    assert_eq!(d.history_list.items_count(), 2);
    let e0 = d.history_list.entry(0).unwrap();
    assert_eq!(e0.key, "history-30");
    assert_eq!(e0.note, "N/A");
    assert_eq!(e0.change_ask_by, "Ana");
    let e1 = d.history_list.entry(1).unwrap();
    assert_eq!(e1.key, "history-row-1");
    assert!(d.history_list.entry(2).is_none());
    let base = d.history_base();
    d.apply_status_update(base, project(1, "Atlas", ProjectStatus::Finished), record(Some(31)));
    assert_eq!(d.history_list.items_count(), 3);
    assert_eq!(ProjectHistoryDelegate::empty_text(), "No history records yet.");
    let mut delegate = ProjectHistoryDelegate::new();
    delegate.set_selected_index(Some(1));
    assert_eq!(delegate.selected_index, Some(1));
}

#[test]
fn relation_cards() {
    let c = customer(3, "Caio");
    let card = relation_item(&c);
    assert_eq!(card.title, "Caio");
    assert_eq!(card.created, "Created at: 2024-05-01");
    assert_eq!(card.email.as_deref(), Some("email: a@b.c"));
    let mut silent = customer(4, "Dora");
    silent.email = String::new();
    assert!(relation_item(&silent).email.is_none());
    let item = StakeholderItemView::new(Stakeholder::new(c, Some(StakeholderRole::Investor)));
    assert_eq!(item.card(None).title, "Caio [investor]");
    assert_eq!(item.card(Some("owner")).title, "Caio [owner]");
}

#[test]
fn project_list_and_tabs() {
    let mut l = ProjectsListView::new();
    l.with_projects(vec![project(1, "A", ProjectStatus::Started), project(2, "B", ProjectStatus::Finished)]);
    assert_eq!(l.project_views.len(), 2);
    assert_eq!(l.heading(), "Project list view 2");
    assert!(matches!(l.open_create_project_dilaog(), ProjectListEvents::OpenFormView));
    assert_eq!(ProjectsListView::dialog_title(), "Create a new projet");

    let mut tabs = TabProjectsView::new();
    assert!(tabs.handle_list_event(ProjectListEvents::OpenFormView).is_none());
    let load = tabs.handle_list_event(ProjectListEvents::OpenProject(project(1, "A", ProjectStatus::Started)));
    assert_eq!(load.unwrap().id, 1);
    tabs.handle_list_event(ProjectListEvents::OpenProject(project(2, "B", ProjectStatus::Finished)));
    assert_eq!(tabs.project_detail_view.project.as_ref().unwrap().id, 2);
    assert_eq!(
        tabs.tab_labels(),
        vec!["All projects".to_string(), "A".to_string(), "B".to_string()]
    );
    let shown = tabs.close_tab(2);
    assert_eq!(shown.unwrap().id, 1);
    assert_eq!(tabs.project_detail_view.project.as_ref().unwrap().id, 1);
    assert!(tabs.select_tab(0).is_none());
    assert_eq!(tabs.project_detail_view.project.as_ref().unwrap().id, 1);
}

#[test]
fn project_form_fields() {
    let mut f = ProjectForm::new();
    assert_eq!(f.text(CreateProjectViewField::Name), Some(""));
    assert_eq!(f.title(), "Create a new project  []");
    f.set_text(CreateProjectViewField::Name, "Atlas");
    f.set_select(CreateProjectViewField::Status, "Started");
    assert_eq!(f.text(CreateProjectViewField::Name), Some("Atlas"));
    assert_eq!(f.text(CreateProjectViewField::Budget), Some(""));
    assert_eq!(f.text(CreateProjectViewField::CreatedAt), None);
    assert_eq!(f.title(), "Create a new project  [Atlas]");
    let values = ProjectFormValues {
        name: "Atlas".into(),
        version: String::new(),
        status: String::new(),
        description: String::new(),
        codename: String::new(),
        start_date: String::new(),
        target_deadline: String::new(),
        budget: 0,
    };
    assert_eq!(values.title(), "[Atlas]");
}

#[test]
fn theme_toggle() {
    assert_eq!(SidebarView::toggle_theme(ThemeMode::Dark), ThemeMode::Light);
    assert_eq!(SidebarView::toggle_theme(ThemeMode::Light), ThemeMode::Dark);
    assert_eq!(ThemeMode::Dark.label(), "Dark mode");
    assert!(!ThemeMode::Light.is_dark());
}

#[test]
fn adding_then_removing_a_stakeholder_restores_the_relations() {
    let mut r = targetz::projects::project_detail_view::project_relations::ProjectRelationView::new();
    r.set_initial_stakeholders(vec![Stakeholder::new(customer(2, "Bia"), Some(StakeholderRole::Owner))]);
    r.add_stakeholder(customer(5, "Caio"));
    assert_eq!(r.stakeholders.as_ref().unwrap().len(), 2);
    r.remove_stakeholder(&Stakeholder::new(customer(5, "Caio"), None));
    let ids: Vec<i64> = r.stakeholders.as_ref().unwrap().iter().map(|s| s.id).collect();
    assert_eq!(ids, vec![2]);
    assert_eq!(r.stakeholders.as_ref().unwrap()[0].role, StakeholderRole::Owner);
}

#[test]
fn settings_screen() {
    let shell = AppShell::new();
    assert!(!shell.settings_view.start_with_windows);
    assert_eq!(targetz::settings::SettingsView::title(), "Targetz Settings");
    assert_eq!(shell.screen(), Screen::Settings);
}

#[test]
fn chosen_history_row_survives_history_changes() {
    let mut d = ProjectDetailView::new(Some(project(1, "Atlas", ProjectStatus::Started)));
    d.history_list.set_selected_index(Some(0));
    d.set_history(vec![record(Some(1))]);
    assert_eq!(d.history_list.selected_index, Some(0));
    let base = d.history_base();
    d.apply_status_update(base, project(1, "Atlas", ProjectStatus::Finished), record(Some(2)));
    assert_eq!(d.history_list.selected_index, Some(0));
}

#[test]
fn stakeholder_items_offer_every_role() {
    let mut r = targetz::projects::project_detail_view::project_relations::ProjectRelationView::new();
    r.set_initial_stakeholders(vec![Stakeholder::new(customer(2, "Bia"), None)]);
    r.add_stakeholder(customer(3, "Caio"));
    for item in r.stakeholder_items.as_ref().unwrap() {
        assert_eq!(item.options, vec!["owner".to_string(), "investor".to_string(), "partner".to_string()]);
    }
    r.remove_stakeholder(&Stakeholder::new(customer(2, "Bia"), None));
    let items = r.stakeholder_items.as_ref().unwrap();
    assert_eq!(items.len(), 1);
    assert_eq!(items[0].options.len(), 3);
}

#[test]
fn detail_form_follows_the_shown_customer() {
    let mut d = CustomerDetailView::new(Some(customer(1, "Ana")));
    assert_eq!(d.create_interaction_view.customer.as_ref().unwrap().id, 1);
    d.set_customer(customer(2, "Bruno"));
    assert_eq!(d.create_interaction_view.customer.as_ref().unwrap().id, 2);
    assert_eq!(d.create_interaction_view.title(), "Register interaction with Bruno");
}
