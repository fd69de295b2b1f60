//! Interactions with a customer: recording them and reading them back.
pub mod create_interaction_view;
pub mod interaction_repository;
