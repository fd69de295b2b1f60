//! What the project store is asked when a project's status changes.
use vstd::prelude::*;

use crate::shared::project::{project_status_text, Project, ProjectStatus};

verus! {

/// A status change to record: which project, and the texts of the status it
/// leaves and the one it takes.
pub struct ProjectStatusChange {
    pub project_id: i64,
    pub from_status: String,
    pub to_status: String,
}

/// The change that moves `project` to `status`.
pub fn status_change(project: &Project, status: ProjectStatus) -> (r: ProjectStatusChange)
    ensures
        r.project_id == project.id,
        r.from_status@ == project_status_text(project.status),
        r.to_status@ == project_status_text(status),
{
    ProjectStatusChange {
        project_id: project.id,
        from_status: String::from_str(project.status.as_str()),
        to_status: String::from_str(status.as_str()),
    }
}

} // verus!
