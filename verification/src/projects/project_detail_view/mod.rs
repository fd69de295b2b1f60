//! The detail of one project: its status, history and relations.
pub mod components;
pub mod project_relations;
pub mod state;
