//! What the project list tells its listeners.
use vstd::prelude::*;

use crate::shared::project::Project;

verus! {

/// What the project list tells its listeners.
pub enum ProjectListEvents {
    OpenFormView,
    CloseFormView,
    OpenProject(Project),
}

} // verus!
