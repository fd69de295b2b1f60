use targetz::customers::customer_detail_view::CustomerDetailView;
use targetz::customers::customers_list_view::CustomerListView;
use targetz::customers::interactions::create_interaction_view::CreateInteractionViewEvent;
use targetz::shared::customer::Customer;
use targetz::shared::customer_interaction::{Interaction, InteractionStatus};

fn customer(id: i64, name: &str, email: &str) -> Customer {
    Customer::new(name, email, "555").into_persisted(id)
}

fn sample() -> Vec<Customer> {
    let mut a = customer(1, "Ana Lima", "ana@mail.com");
    a.site_url = Some("  lima.dev ".to_string());
    let b = customer(2, "Bruno", "bruno@mail.com");
    let mut c = customer(3, "Carla", "carla@corp.io");
    c.address = Some("Rua Lima 9".to_string());
    vec![a, b, c]
}

fn found_ids(v: &CustomerListView) -> Vec<i64> {
    v.filtered_customers().iter().map(|c| c.id).collect()
}

#[test]
fn search_matches_name_email_and_details() {
    let mut v = CustomerListView::new();
    v.set_customers(sample());
    v.set_query("Lima");
    assert_eq!(found_ids(&v), vec![1, 3]);
    assert_eq!(v.query(), "Lima");
    v.set_query("  corp ");
    assert_eq!(found_ids(&v), vec![3]);
    v.set_query("lima.dev");
    assert_eq!(found_ids(&v), vec![1]);
}

#[test]
fn search_is_case_sensitive() {
    let mut v = CustomerListView::new();
    v.set_customers(sample());
    v.set_query("lima");
    assert_eq!(found_ids(&v), vec![1]);
}

#[test]
fn blank_search_finds_nothing() {
    let mut v = CustomerListView::new();
    v.set_customers(sample());
    v.set_query("Ana");
    assert_eq!(found_ids(&v), vec![1]);
    v.set_query("   ");
    assert!(found_ids(&v).is_empty());
    assert_eq!(v.query(), "   ");
}

#[test]
fn listing_puts_found_customers_first() {
    let mut v = CustomerListView::new();
    v.set_customers(sample());
    v.set_query("Carla");
    let order: Vec<(i64, bool)> = v.listing().iter().map(|(c, f)| (c.id, *f)).collect();
    assert_eq!(order, vec![(3, true), (1, false), (2, false)]);
    v.set_query("mail.com");
    let order: Vec<(i64, bool)> = v.listing().iter().map(|(c, f)| (c.id, *f)).collect();
    assert_eq!(order, vec![(1, true), (2, true), (3, false)]);
    assert_eq!(v.listing().len(), 3);
}

#[test]
fn toggle_customer_opens_then_keeps_the_others() {
    let mut v = CustomerListView::new();
    v.set_customers(sample());
    let b = sample()[1].clone();
    v.toggle_customer(b.clone());
    assert_eq!(v.open_customers.iter().map(|c| c.id).collect::<Vec<_>>(), vec![2]);
    v.toggle_customer(b);
    assert_eq!(v.open_customers.iter().map(|c| c.id).collect::<Vec<_>>(), vec![1, 3]);
}

fn interaction(id: i64) -> Interaction {
    Interaction { id, interaction_date: "2024-05-01".to_string(), status: InteractionStatus::Contacted, note: None }
}

#[test]
fn interactions_are_only_changed_once_loaded() {
    let mut d = CustomerDetailView::new(Some(customer(1, "Ana", "a")));
    d.add_interaction(interaction(1));
    assert!(d.interactions().is_none());
    d.remove_interaction(1);
    assert!(d.interactions().is_none());
    d.set_interactions(vec![interaction(1), interaction(2)]);
    d.add_interaction(interaction(3));
    assert_eq!(d.interactions().unwrap().iter().map(|i| i.id).collect::<Vec<_>>(), vec![1, 2, 3]);
    d.remove_interaction(2);
    assert_eq!(d.interactions().unwrap().iter().map(|i| i.id).collect::<Vec<_>>(), vec![1, 3]);
}

#[test]
fn remove_undoes_add_of_a_new_interaction() {
    let mut d = CustomerDetailView::new(None);
    d.set_interactions(vec![interaction(1)]);
    d.handle_interaction_event(CreateInteractionViewEvent::CreatedNewInteraction(interaction(9)));
    assert_eq!(d.interactions().unwrap().len(), 2);
    d.handle_interaction_event(CreateInteractionViewEvent::DeletedInteraction(9));
    assert_eq!(d.interactions().unwrap().iter().map(|i| i.id).collect::<Vec<_>>(), vec![1]);
}

#[test]
fn detail_set_customer() {
    let mut d = CustomerDetailView::new(None);
    assert!(d.customer().is_none());
    d.set_customer(customer(4, "Dora", "d"));
    assert_eq!(d.customer().unwrap().id, 4);
}
