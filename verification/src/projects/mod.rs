//! Projects: their tabs, list, detail, relations and creation form.
pub mod tab_projects_view;
pub mod project_detail_view;
pub mod project_form;
pub mod project_form_view;
pub mod project_repository;
pub mod projects_list_view;
