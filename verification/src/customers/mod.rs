//! Customers: their tabs, list, detail, forms and interactions.
pub mod create_customer_view;
pub mod customer_detail_view;
pub mod customer_repository;
pub mod tab_customers_view;
pub mod customers_list_view;
pub mod interactions;
