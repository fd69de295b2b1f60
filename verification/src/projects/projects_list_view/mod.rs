//! The list of projects and its items.
pub mod components;
pub mod events;
pub mod state;
