//! Customer, interaction and project tracking: the data model, the tab and
//! list state machines, form state and the decisions taken around the store.
pub mod app_shell;
pub mod customers;
pub mod projects;
pub mod seqs;
pub mod settings;
pub mod shared;
pub mod sidebar;
pub mod text;
