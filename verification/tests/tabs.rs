use targetz::customers::tab_customers_view::TabState;
use targetz::projects::tab_projects_view::TabState as ProjectTabState;
use targetz::shared::customer::Customer;
use targetz::shared::project::{Project, ProjectStatus};

fn customer(id: i64, name: &str) -> Customer {
    Customer::new(name, "mail@example.com", "555").into_persisted(id)
}

fn project(id: i64, name: &str) -> Project {
    Project {
        id,
        name: name.to_string(),
        current_version: "1.0".to_string(),
        created_at: String::new(),
        status: ProjectStatus::Started,
        description: None,
        start_date: None,
        site_url: None,
        codename: None,
        target_deadline: None,
        updated_at: None,
        budget: None,
    }
}

fn ids(s: &TabState) -> Vec<i64> {
    s.tabs().iter().map(|c| c.id).collect()
}

#[test]
fn new_state_shows_all_users() {
    let s = TabState::new();
    assert!(s.tabs().is_empty());
    assert!(s.active_customer().is_none());
    assert_eq!(s.selected_index(), 0);
}

#[test]
fn open_adds_and_shows_the_customer() {
    let mut s = TabState::new();
    s.open(customer(7, "Ana"));
    s.open(customer(9, "Bia"));
    assert_eq!(ids(&s), vec![7, 9]);
    assert_eq!(s.active_customer().unwrap().id, 9);
    assert_eq!(s.selected_index(), 2);
}

#[test]
fn opening_twice_keeps_one_tab() {
    let mut s = TabState::new();
    s.open(customer(7, "Ana"));
    s.open(customer(9, "Bia"));
    s.open(customer(7, "Ana again"));
    assert_eq!(ids(&s), vec![7, 9]);
    assert_eq!(s.active_customer().unwrap().name, "Ana");
    assert_eq!(s.selected_index(), 1);
}

#[test]
fn closing_the_shown_tab_shows_its_left_neighbour() {
    let mut s = TabState::new();
    s.open(customer(1, "A"));
    s.open(customer(2, "B"));
    s.open(customer(3, "C"));
    s.close(3);
    assert_eq!(ids(&s), vec![1, 2]);
    assert_eq!(s.active_customer().unwrap().id, 2);
}

#[test]
fn closing_the_first_shown_tab_shows_the_next_one() {
    let mut s = TabState::new();
    s.open(customer(1, "A"));
    s.open(customer(2, "B"));
    s.select_by_index(1);
    s.close(1);
    assert_eq!(ids(&s), vec![2]);
    assert_eq!(s.active_customer().unwrap().id, 2);
    assert_eq!(s.selected_index(), 1);
}

#[test]
fn closing_the_last_tab_shows_all_users() {
    let mut s = TabState::new();
    s.open(customer(1, "A"));
    s.close(1);
    assert!(s.tabs().is_empty());
    assert!(s.active_customer().is_none());
    assert_eq!(s.selected_index(), 0);
}

#[test]
fn closing_another_tab_keeps_the_shown_one() {
    let mut s = TabState::new();
    s.open(customer(1, "A"));
    s.open(customer(2, "B"));
    s.open(customer(3, "C"));
    s.close(1);
    assert_eq!(ids(&s), vec![2, 3]);
    assert_eq!(s.active_customer().unwrap().id, 3);
    assert_eq!(s.selected_index(), 2);
}

#[test]
fn closing_an_unknown_id_changes_nothing() {
    let mut s = TabState::new();
    s.open(customer(1, "A"));
    s.close(42);
    assert_eq!(ids(&s), vec![1]);
    assert_eq!(s.active_customer().unwrap().id, 1);
}

#[test]
fn close_undoes_open_of_a_new_customer() {
    let mut s = TabState::new();
    s.open(customer(1, "A"));
    s.open(customer(2, "B"));
    s.open(customer(5, "E"));
    s.close(5);
    assert_eq!(ids(&s), vec![1, 2]);
}

#[test]
fn select_by_index_switches_and_ignores_out_of_range() {
    let mut s = TabState::new();
    s.open(customer(1, "A"));
    s.open(customer(2, "B"));
    s.select_by_index(1);
    assert_eq!(s.active_customer().unwrap().id, 1);
    s.select_by_index(0);
    assert!(s.active_customer().is_none());
    assert_eq!(s.selected_index(), 0);
    s.select_by_index(2);
    assert_eq!(s.selected_index(), 2);
    s.select_by_index(9);
    assert_eq!(s.selected_index(), 2);
}

#[test]
fn selecting_the_selected_index_changes_nothing() {
    let mut s = TabState::new();
    s.open(customer(1, "A"));
    s.open(customer(2, "B"));
    s.select_by_index(1);
    let before = s.selected_index();
    s.select_by_index(before);
    assert_eq!(s.selected_index(), before);
    assert_eq!(ids(&s), vec![1, 2]);
}

#[test]
fn project_tabs_follow_the_same_rules() {
    let mut s = ProjectTabState::new();
    assert!(s.active_project().is_none());
    s.open(project(10, "Alpha"));
    s.open(project(11, "Beta"));
    s.open(project(10, "Alpha"));
    let tab_ids: Vec<i64> = s.tabs().iter().map(|p| p.id).collect();
    assert_eq!(tab_ids, vec![10, 11]);
    assert_eq!(s.selected_index(), 1);
    s.close(10);
    assert_eq!(s.active_project().unwrap().id, 11);
    s.select_by_index(0);
    assert!(s.active_project().is_none());
    s.close(11);
    assert!(s.tabs().is_empty());
    assert_eq!(s.selected_index(), 0);
}
