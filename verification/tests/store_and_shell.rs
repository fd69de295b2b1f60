use targetz::app_shell::{AppShell, Screen};
use targetz::customers::customer_repository::CustomerRepositoryError;
use targetz::customers::interactions::interaction_repository::{
    creation_target, interactions_from_rows, listing_target, InteractionRepositoryError,
};
use targetz::projects::project_detail_view::project_relations::ProjectRelationView;
use targetz::projects::project_detail_view::state::ProjectDetailView;
use targetz::projects::project_form::{date_fields, select_fields, text_fields};
use targetz::projects::project_form_view::{status_options, CreateProjectView, ProjectFormValues};
use targetz::projects::project_repository::status_change;
use targetz::projects::projects_list_view::components::{ProjectItem, ProjectItemEvents};
use targetz::projects::projects_list_view::state::ProjectsListView;
use targetz::shared::app_errors::AppRepositoryError;
use targetz::shared::customer::{Customer, Stakeholder};
use targetz::shared::customer_interaction::{InteractionRow, InteractionStatus};
use targetz::shared::project::{Project, ProjectHistoryRow, ProjectStatus};
use targetz::shared::theme::AppColors;
use targetz::shared::AppTab;
use targetz::sidebar::{SidebarEvent, SidebarView};

fn customer(id: i64) -> Customer {
    Customer::new("C", "c@x", "1").into_persisted(id)
}

fn project(id: i64, status: ProjectStatus) -> Project {
    Project {
        id,
        name: "P".to_string(),
        current_version: "1".to_string(),
        created_at: String::new(),
        status,
        description: None,
        start_date: None,
        site_url: None,
        codename: None,
        target_deadline: None,
        updated_at: None,
        budget: None,
    }
}

fn record(from: &str, to: &str) -> ProjectHistoryRow {
    ProjectHistoryRow {
        id: Some(1),
        from_status: from.to_string(),
        to_status: to.to_string(),
        project_id: 1,
        note: None,
        change_ask_by: None,
        reason: None,
        impact_on_target_deadline: None,
        created_at: "t".to_string(),
    }
}

#[test]
fn error_messages() {
    assert_eq!(CustomerRepositoryError::CreateCustomerFailed("x".into()).message(), "Failed to create customer: x");
    assert_eq!(CustomerRepositoryError::FetchFailed("x".into()).message(), "Failed to fetch customer: x");
    assert_eq!(CustomerRepositoryError::DeleteFailed("x".into()).message(), "Failed to delete customer: x");
    assert_eq!(CustomerRepositoryError::PatchError("x".into()).message(), "Failed to patch customer: x");
    assert_eq!(InteractionRepositoryError::CreateError("y".into()).message(), "Failed to create interaction : y");
    assert_eq!(
        InteractionRepositoryError::PivotCreateError("y".into()).message(),
        "Failed to create the pivot record  : y"
    );
    assert_eq!(AppRepositoryError::FailedToCreate("z".into()).message(), "Failed to create entity z");
    assert_eq!(
        AppRepositoryError::FailedToCreatePivot("z".into()).message(),
        "Failed to create the record on the pivot table z"
    );
    assert_eq!(AppRepositoryError::FailedToDelete("1".into(), "e".into()).message(), "Failed to delete entity 1 : e");
    assert_eq!(AppRepositoryError::FailedToFetch("z".into()).message(), "Failed to fetch data entity:  z");
}

#[test]
fn interaction_targets() {
    assert_eq!(creation_target(&Some(customer(5))), Ok(5));
    assert_eq!(
        creation_target(&None),
        Err(InteractionRepositoryError::CreateError("Missing customer target".to_string()))
    );
    assert_eq!(listing_target(&Some(customer(6))), Ok(6));
    assert_eq!(listing_target(&None), Err(InteractionRepositoryError::CreateError("no customer target".to_string())));
}

#[test]
fn rows_become_interactions_in_order() {
    let rows = vec![
        InteractionRow { id: 1, interaction_date: "a".into(), status: "Contacted".into(), note: None },
        InteractionRow { id: 2, interaction_date: "b".into(), status: "odd".into(), note: Some("n".into()) },
    ];
    let v = interactions_from_rows(rows);
    assert_eq!(v.len(), 2);
    assert_eq!(v[0].status, InteractionStatus::Contacted);
    assert_eq!(v[1].id, 2);
    assert_eq!(v[1].status, InteractionStatus::NoResponse);
    assert_eq!(v[1].note.as_deref(), Some("n"));
}

#[test]
fn relations_add_remove_and_addable() {
    let mut r = ProjectRelationView::new();
    assert!(r.relations_empty());
    r.add_stakeholder(customer(1));
    assert!(r.stakeholders.is_none());
    assert_eq!(r.stakeholder_items.as_ref().unwrap().len(), 0);
    r.set_customers(vec![customer(1), customer(2), customer(3)]);
    r.set_initial_stakeholders(vec![Stakeholder::new(customer(2), None)]);
    assert_eq!(r.stakeholder_items.as_ref().unwrap().len(), 1);
    assert!(!r.relations_empty());
    assert_eq!(r.addable_customers().iter().map(|c| c.id).collect::<Vec<_>>(), vec![1, 3]);
    r.add_stakeholder(customer(1));
    r.add_stakeholder(customer(1));
    assert_eq!(r.stakeholders.as_ref().unwrap().len(), 2);
    assert_eq!(r.stakeholder_items.as_ref().unwrap().len(), 2);
    assert_eq!(r.addable_customers().iter().map(|c| c.id).collect::<Vec<_>>(), vec![3]);
    let s = Stakeholder::new(customer(2), None);
    r.remove_stakeholder(&s);
    assert_eq!(r.stakeholders.as_ref().unwrap().iter().map(|s| s.id).collect::<Vec<_>>(), vec![1]);
    assert_eq!(
        r.stakeholder_items.as_ref().unwrap().iter().map(|i| i.stakeholder.id).collect::<Vec<_>>(),
        vec![1]
    );
    assert_eq!(r.initial_stakeholders.as_ref().unwrap().len(), 1);
}

#[test]
fn status_change_decision_and_update() {
    let mut d = ProjectDetailView::new(None);
    assert!(d.toggle_status(ProjectStatus::Finished).is_none());
    assert_eq!(d.stakeholders.as_ref().unwrap().len(), 0);
    d.set_project(project(1, ProjectStatus::Started));
    assert!(d.toggle_status(ProjectStatus::Started).is_none());
    let p = d.toggle_status(ProjectStatus::Finished).unwrap();
    let change = status_change(&p, ProjectStatus::Finished);
    assert_eq!(change.project_id, 1);
    assert_eq!(change.from_status, "Started");
    assert_eq!(change.to_status, "Finished");
    let base = d.history_base();
    assert!(base.is_empty());
    d.apply_status_update(base, project(1, ProjectStatus::Finished), record("Started", "Finished"));
    assert_eq!(d.project.as_ref().unwrap().status, ProjectStatus::Finished);
    assert_eq!(d.history.as_ref().unwrap().len(), 1);
    let base = d.history_base();
    d.apply_status_update(base, project(1, ProjectStatus::Started), record("Finished", "Started"));
    assert_eq!(d.history.as_ref().unwrap()[1].to_status, "Started");
}

#[test]
fn toggle_history_twice() {
    let mut d = ProjectDetailView::new(None);
    d.toggle_history();
    assert!(d.show_history);
    d.toggle_history();
    assert!(!d.show_history);
}

#[test]
fn project_list_events() {
    let mut l = ProjectsListView::new();
    l.with_projects(vec![project(1, ProjectStatus::Started)]);
    let item = ProjectItem::new(project(2, ProjectStatus::Prospecting));
    let ev = item.open();
    assert!(matches!(&ev, ProjectItemEvents::OpenProject(p) if p.id == 2));
    l.handle_item_event(ev);
    assert_eq!(l.open_projects.len(), 1);
    assert_eq!(l.active_project.as_ref().unwrap().id, 2);
    l.handle_item_event(ProjectItemEvents::CloseProject(2));
    assert_eq!(l.open_projects.len(), 1);
    l.handle_form_event(targetz::projects::project_form_view::CreateProjectEvents::CreatedProject(project(3, ProjectStatus::Started)));
    assert_eq!(l.projects.iter().map(|p| p.id).collect::<Vec<_>>(), vec![1, 3]);
}

#[test]
fn project_form_draft_uses_name_as_site() {
    let values = ProjectFormValues {
        name: "Alpha".into(),
        version: "0.1".into(),
        status: "Prospecting".into(),
        description: "d".into(),
        codename: "A".into(),
        start_date: "2024-01-01".into(),
        target_deadline: "2024-12-31".into(),
        budget: 2.5f64.to_bits(),
    };
    let d = CreateProjectView::create_project(&values);
    assert_eq!(d.site_url.as_deref(), Some("Alpha"));
    assert_eq!(d.status, ProjectStatus::Prospecting);
    assert_eq!(d.budget, Some(2.5f64.to_bits()));
    assert_eq!(status_options(), vec!["Started", "Prospecting"]);
    let mut v = CreateProjectView::new();
    let opts = v.with_customers(vec![customer(7)]);
    assert_eq!(opts[0].value(), 7);
    assert_eq!(opts[0].title(), "C");
    assert!(v.customers.is_some());
}

#[test]
fn project_form_descriptors() {
    assert_eq!(text_fields().len(), 6);
    assert_eq!(text_fields()[3].label, "Project Codename");
    assert_eq!(select_fields()[0].options, &["Started", "Prospecting"]);
    assert_eq!(date_fields()[2].label, "Project due");
}

#[test]
fn colors() {
    assert_eq!(AppColors::Background.rgb(), 0x202122);
    assert_eq!(AppColors::Selection.rgb(), 0x0078a4);
    assert_eq!(AppColors::MatchSelection.rgb(), 0x16181C);
}

#[test]
fn sidebar_and_shell() {
    let mut s = SidebarView::new();
    assert_eq!(s.active_tab, AppTab::Home);
    let e = s.toggle_tab(AppTab::Targetz);
    assert_eq!(e, SidebarEvent::TabClick(AppTab::Targetz));
    assert!(s.is_active(AppTab::Targetz));
    assert!(!s.is_active(AppTab::Home));
    assert_eq!(SidebarView::entries().len(), 4);
    let mut shell = AppShell::new();
    assert_eq!(shell.screen(), Screen::Settings);
    shell.handle_sidebar_event(e);
    assert_eq!(shell.screen(), Screen::Customers);
    shell.handle_sidebar_event(SidebarEvent::TabClick(AppTab::CreateCustomer));
    assert_eq!(shell.screen(), Screen::CreateCustomer);
}
