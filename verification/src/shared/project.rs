//! Projects, their status and the history of status changes.
//!
//! A budget is carried as the IEEE-754 bit pattern of the amount, so that the
//! library can hold and pass it on without computing with it.
use vstd::prelude::*;
use vstd::std_specs::convert::FromSpecImpl;

use crate::shared::customer::{copy_text, Persisted};
use crate::text::str_equals;

verus! {

/// The stage a project is in.
#[derive(Debug, Clone, Copy, PartialEq, Eq)]
pub enum ProjectStatus {
    Started,
    Finished,
    Prospecting,
    Propousing,
    Refactoring,
}

/// The stored text of a status.
pub open spec fn project_status_text(s: ProjectStatus) -> Seq<char> {
    match s {
        ProjectStatus::Finished => "Finished"@,
        ProjectStatus::Propousing => "Propousing"@,
        ProjectStatus::Started => "Started"@,
        ProjectStatus::Refactoring => "Refactoring"@,
        ProjectStatus::Prospecting => "Prospecting"@,
    }
}

/// The status a stored text names; any other text is read as started.
pub open spec fn project_status_from_text(s: Seq<char>) -> ProjectStatus {
    if s == "Finished"@ {
        ProjectStatus::Finished
    } else if s == "Propousing"@ {
        ProjectStatus::Propousing
    } else if s == "Started"@ {
        ProjectStatus::Started
    } else if s == "Refactoring"@ {
        ProjectStatus::Refactoring
    } else if s == "Prospecting"@ {
        ProjectStatus::Prospecting
    } else {
        ProjectStatus::Started
    }
}

impl ProjectStatus {
    /// The stored text of this status.
    pub fn as_str(&self) -> (r: &'static str)
        ensures
            r@ == project_status_text(*self),
    {
        match self {
            ProjectStatus::Finished => "Finished",
            ProjectStatus::Propousing => "Propousing",
            ProjectStatus::Started => "Started",
            ProjectStatus::Refactoring => "Refactoring",
            ProjectStatus::Prospecting => "Prospecting",
        }
    }

    /// Whether two statuses are the same.
    pub fn same_as(&self, other: &Self) -> (r: bool)
        ensures
            r == (*self == *other),
    {
        match (self, other) {
            (ProjectStatus::Started, ProjectStatus::Started) => true,
            (ProjectStatus::Finished, ProjectStatus::Finished) => true,
            (ProjectStatus::Prospecting, ProjectStatus::Prospecting) => true,
            (ProjectStatus::Propousing, ProjectStatus::Propousing) => true,
            (ProjectStatus::Refactoring, ProjectStatus::Refactoring) => true,
            _ => false,
        }
    }
}

impl From<String> for ProjectStatus {
    fn from(value: String) -> (r: Self) {
        let s = value.as_str();
        if str_equals(s, "Finished") {
            ProjectStatus::Finished
        } else if str_equals(s, "Propousing") {
            ProjectStatus::Propousing
        } else if str_equals(s, "Started") {
            ProjectStatus::Started
        } else if str_equals(s, "Refactoring") {
            ProjectStatus::Refactoring
        } else if str_equals(s, "Prospecting") {
            ProjectStatus::Prospecting
        } else {
            ProjectStatus::Started
        }
    }
}

impl FromSpecImpl<String> for ProjectStatus {
    open spec fn obeys_from_spec() -> bool {
        true
    }

    open spec fn from_spec(v: String) -> Self {
        project_status_from_text(v@)
    }
}

/// A project; `State` is its id once stored.
#[derive(Debug, Clone)]
pub struct Project<State = i64> {
    pub id: State,
    pub name: String,
    pub current_version: String,
    pub created_at: String,
    pub status: ProjectStatus,
    pub description: Option<String>,
    pub start_date: Option<String>,
    pub site_url: Option<String>,
    pub codename: Option<String>,
    pub target_deadline: Option<String>,
    pub updated_at: Option<String>,
    /// The IEEE-754 bit pattern of the budget.
    pub budget: Option<u64>,
}

/// The content of a project.
pub ghost struct ProjectView<State> {
    pub id: State,
    pub name: Seq<char>,
    pub current_version: Seq<char>,
    pub created_at: Seq<char>,
    pub status: ProjectStatus,
    pub description: Option<Seq<char>>,
    pub start_date: Option<Seq<char>>,
    pub site_url: Option<Seq<char>>,
    pub codename: Option<Seq<char>>,
    pub target_deadline: Option<Seq<char>>,
    pub updated_at: Option<Seq<char>>,
    pub budget: Option<u64>,
}

impl<State> View for Project<State> {
    type V = ProjectView<State>;

    open spec fn view(&self) -> ProjectView<State> {
        ProjectView {
            id: self.id,
            name: self.name@,
            current_version: self.current_version@,
            created_at: self.created_at@,
            status: self.status,
            description: self.description.deep_view(),
            start_date: self.start_date.deep_view(),
            site_url: self.site_url.deep_view(),
            codename: self.codename.deep_view(),
            target_deadline: self.target_deadline.deep_view(),
            updated_at: self.updated_at.deep_view(),
            budget: self.budget,
        }
    }
}

impl Project<Persisted> {
    /// A copy of this project with the same content.
    pub fn duplicate(&self) -> (r: Self)
        ensures
            r@ == self@,
    {
        Project {
            id: self.id,
            name: self.name.clone(),
            current_version: self.current_version.clone(),
            created_at: self.created_at.clone(),
            status: self.status,
            description: copy_text(&self.description),
            start_date: copy_text(&self.start_date),
            site_url: copy_text(&self.site_url),
            codename: copy_text(&self.codename),
            target_deadline: copy_text(&self.target_deadline),
            updated_at: copy_text(&self.updated_at),
            budget: self.budget,
        }
    }
}

/// The content of a list of projects.
pub open spec fn project_views(v: Seq<Project>) -> Seq<ProjectView<i64>> {
    v.map_values(|p: Project| p@)
}

/// A project that is about to be created.
pub struct ProjectDraft {
    pub name: String,
    pub current_version: String,
    pub status: ProjectStatus,
    pub description: Option<String>,
    pub start_date: Option<String>,
    pub site_url: Option<String>,
    pub codename: Option<String>,
    pub target_deadline: Option<String>,
    /// The IEEE-754 bit pattern of the budget.
    pub budget: Option<u64>,
}

/// A project as the store returns it, its status still as text.
pub struct ProjectRow {
    pub id: i64,
    pub name: String,
    pub current_version: String,
    pub created_at: String,
    pub status: String,
    pub description: Option<String>,
    pub start_date: Option<String>,
    pub site_url: Option<String>,
    pub codename: Option<String>,
    pub target_deadline: Option<String>,
    pub updated_at: Option<String>,
    /// The IEEE-754 bit pattern of the budget.
    pub budget: Option<u64>,
}

/// One recorded change of a project's status.
#[derive(Debug, Clone)]
pub struct ProjectHistoryRow {
    pub id: Option<i64>,
    pub from_status: String,
    pub to_status: String,
    pub project_id: i64,
    pub note: Option<String>,
    pub change_ask_by: Option<String>,
    pub reason: Option<String>,
    pub impact_on_target_deadline: Option<String>,
    pub created_at: String,
}

/// The content of a recorded status change.
pub ghost struct ProjectHistoryView {
    pub id: Option<i64>,
    pub from_status: Seq<char>,
    pub to_status: Seq<char>,
    pub project_id: i64,
    pub note: Option<Seq<char>>,
    pub change_ask_by: Option<Seq<char>>,
    pub reason: Option<Seq<char>>,
    pub impact_on_target_deadline: Option<Seq<char>>,
    pub created_at: Seq<char>,
}

impl View for ProjectHistoryRow {
    type V = ProjectHistoryView;

    open spec fn view(&self) -> ProjectHistoryView {
        ProjectHistoryView {
            id: self.id,
            from_status: self.from_status@,
            to_status: self.to_status@,
            project_id: self.project_id,
            note: self.note.deep_view(),
            change_ask_by: self.change_ask_by.deep_view(),
            reason: self.reason.deep_view(),
            impact_on_target_deadline: self.impact_on_target_deadline.deep_view(),
            created_at: self.created_at@,
        }
    }
}

/// The content of a list of recorded status changes.
pub open spec fn history_views(v: Seq<ProjectHistoryRow>) -> Seq<ProjectHistoryView> {
    v.map_values(|h: ProjectHistoryRow| h@)
}

impl ProjectHistoryRow {
    /// A copy of this record with the same content.
    pub fn duplicate(&self) -> (r: Self)
        ensures
            r@ == self@,
    {
        ProjectHistoryRow {
            id: self.id,
            from_status: self.from_status.clone(),
            to_status: self.to_status.clone(),
            project_id: self.project_id,
            note: copy_text(&self.note),
            change_ask_by: copy_text(&self.change_ask_by),
            reason: copy_text(&self.reason),
            impact_on_target_deadline: copy_text(&self.impact_on_target_deadline),
            created_at: self.created_at.clone(),
        }
    }
}

/// A copy of a list of recorded status changes.
pub fn copy_history(list: &Vec<ProjectHistoryRow>) -> (r: Vec<ProjectHistoryRow>)
    ensures
        history_views(r@) == history_views(list@),
{
    let n = list.len();
    let mut r: Vec<ProjectHistoryRow> = Vec::new();
    let mut i: usize = 0;
    while i < n
        invariant
            n == list@.len(),
            i <= n,
            history_views(r@) == history_views(list@).take(i as int),
        decreases n - i,
    {
        let h = list[i].duplicate();
        proof {
            assert(history_views(list@)[i as int] == h@);
            assert(history_views(r@.push(h)) =~= history_views(r@).push(h@));
            assert(history_views(list@).take(i + 1) =~= history_views(list@).take(i as int).push(h@));
        }
        r.push(h);
        i += 1;
    }
    proof {
        assert(history_views(list@).take(n as int) =~= history_views(list@));
    }
    r
}

impl From<ProjectRow> for Project<Persisted> {
    fn from(value: ProjectRow) -> (r: Self) {
        Project {
            id: value.id,
            name: value.name,
            current_version: value.current_version,
            created_at: value.created_at,
            status: ProjectStatus::from(value.status),
            budget: value.budget,
            codename: value.codename,
            description: value.description,
            site_url: value.site_url,
            start_date: value.start_date,
            target_deadline: value.target_deadline,
            updated_at: value.updated_at,
        }
    }
}

impl FromSpecImpl<ProjectRow> for Project<Persisted> {
    open spec fn obeys_from_spec() -> bool {
        true
    }

    open spec fn from_spec(v: ProjectRow) -> Self {
        Project {
            id: v.id,
            name: v.name,
            current_version: v.current_version,
            created_at: v.created_at,
            status: project_status_from_text(v.status@),
            budget: v.budget,
            codename: v.codename,
            description: v.description,
            site_url: v.site_url,
            start_date: v.start_date,
            target_deadline: v.target_deadline,
            updated_at: v.updated_at,
        }
    }
}

/// Reading back the stored text of a status gives the same status.
pub proof fn law_project_status_text_roundtrip(s: ProjectStatus)
    ensures
        project_status_from_text(project_status_text(s)) == s,
{
    reveal_strlit("Finished");
    reveal_strlit("Propousing");
    reveal_strlit("Started");
    reveal_strlit("Refactoring");
    reveal_strlit("Prospecting");
    assert("Finished"@.len() == 8);
    assert("Propousing"@.len() == 10);
    assert("Started"@.len() == 7);
    assert("Refactoring"@.len() == 11);
    assert("Prospecting"@.len() == 11);
    assert("Refactoring"@[0] == 'R');
    assert("Prospecting"@[0] == 'P');
}

} // verus!
