//! What parts of the application tell each other about customers.
use vstd::prelude::*;

use crate::shared::customer::Customer;

verus! {

/// A change to the customers that other parts of the application react to.
pub enum AppEvent {
    NewCustomer(Customer),
    LoadedCustomers(Vec<Customer>),
    /// The customer with this id was deleted.
    DeletedCustomer(i64),
}

} // verus!
