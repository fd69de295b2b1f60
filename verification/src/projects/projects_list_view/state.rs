//! The state of the project list: the projects, those opened from it and the
//! one opened last.
use vstd::prelude::*;

use crate::projects::project_form_view::CreateProjectEvents;
use crate::projects::projects_list_view::components::{ProjectItem, ProjectItemEvents};
use crate::projects::projects_list_view::events::ProjectListEvents;
use crate::shared::project::{project_views, Project, ProjectView};
use crate::text::{concat2, count_text, decimal};

verus! {

/// The projects shown by a list of project items.
pub open spec fn item_projects(v: Seq<ProjectItem>) -> Seq<ProjectView<i64>> {
    v.map_values(|i: ProjectItem| i.project()@)
}

/// The content of the project list.
pub ghost struct ProjectsListModel {
    pub projects: Seq<ProjectView<i64>>,
    pub open_projects: Seq<ProjectView<i64>>,
    pub active_project: Option<ProjectView<i64>>,
    /// The projects that have an item in the list.
    pub items: Seq<ProjectView<i64>>,
}

impl ProjectsListModel {
    /// After opening `p` from its item: it is appended to the opened ones
    /// and becomes the active one.
    pub open spec fn opened(self, p: ProjectView<i64>) -> ProjectsListModel {
        ProjectsListModel { open_projects: self.open_projects.push(p), active_project: Some(p), ..self }
    }
}

/// The projects, those opened from the list and the one opened last.
pub struct ProjectsListView {
    pub projects: Vec<Project>,
    pub project_views: Vec<ProjectItem>,
    pub open_projects: Vec<Project>,
    pub active_project: Option<Project>,
}

impl View for ProjectsListView {
    type V = ProjectsListModel;

    open spec fn view(&self) -> ProjectsListModel {
        ProjectsListModel {
            projects: project_views(self.projects@),
            open_projects: project_views(self.open_projects@),
            active_project: match self.active_project {
                Some(p) => Some(p@),
                None => None,
            },
            items: item_projects(self.project_views@),
        }
    }
}

impl ProjectsListView {
    /// No projects, none opened.
    pub fn new() -> (s: Self)
        ensures
            s@.projects == Seq::<ProjectView<i64>>::empty(),
            s@.open_projects == Seq::<ProjectView<i64>>::empty(),
            s@.active_project is None,
            s@.items == Seq::<ProjectView<i64>>::empty(),
    {
        let s = Self { projects: Vec::new(), project_views: Vec::new(), open_projects: Vec::new(), active_project: None };
        proof {
            assert(project_views(s.projects@) =~= Seq::empty());
            assert(project_views(s.open_projects@) =~= Seq::empty());
            assert(item_projects(s.project_views@) =~= Seq::empty());
        }
        s
    }

    /// The projects loaded from the store, each with its item.
    pub fn with_projects(&mut self, projects: Vec<Project>)
        ensures
            final(self)@ == (ProjectsListModel {
                projects: project_views(projects@),
                items: project_views(projects@),
                ..old(self)@
            }),
    {
        let n = projects.len();
        let ghost all = project_views(projects@);
        let mut items: Vec<ProjectItem> = Vec::new();
        let mut i: usize = 0;
        while i < n
            invariant
                n == projects@.len(),
                all == project_views(projects@),
                i <= n,
                item_projects(items@) == all.take(i as int),
            decreases n - i,
        {
            let item = ProjectItem::new(projects[i].duplicate());
            proof {
                assert(all[i as int] == projects@[i as int]@);
                assert(item_projects(items@.push(item)) =~= item_projects(items@).push(item.project()@));
                assert(all.take(i + 1) =~= all.take(i as int).push(all[i as int]));
            }
            items.push(item);
            i += 1;
        }
        proof {
            assert(all.take(n as int) =~= all);
        }
        self.projects = projects;
        self.project_views = items;
    }

    /// The heading of the list, counting the projects.
    pub fn heading(&self) -> (r: String)
        ensures
            r@ == "Project list view "@ + decimal(self@.projects.len() as int),
    {
        let count = count_text(self.projects.len());
        concat2("Project list view ", count.as_str())
    }

    /// Asks for the creation form to be opened in a dialog: gives the event
    /// announcing it.
    pub fn open_create_project_dilaog(&self) -> (e: ProjectListEvents)
        ensures
            e is OpenFormView,
    {
        ProjectListEvents::OpenFormView
    }

    /// The title of the creation dialog.
    pub fn dialog_title() -> (r: &'static str)
        ensures
            r@ == "Create a new projet"@,
    {
        "Create a new projet"
    }

    /// Applies what the creation form reported: the created project is
    /// appended to the list.
    pub fn handle_form_event(&mut self, event: CreateProjectEvents)
        ensures
            match event {
                CreateProjectEvents::CreatedProject(p) => final(self)@ == (ProjectsListModel {
                    projects: old(self)@.projects.push(p@),
                    ..old(self)@
                }),
            },
    {
        match event {
            CreateProjectEvents::CreatedProject(project) => {
                proof {
                    assert(project_views(self.projects@.push(project)) =~= project_views(self.projects@).push(project@));
                }
                self.projects.push(project);
            },
        }
    }

    /// Applies what a project item reported: opening a project appends it to
    /// the opened ones and makes it the active one; closing changes nothing.
    pub fn handle_item_event(&mut self, event: ProjectItemEvents)
        ensures
            final(self)@ == match event {
                ProjectItemEvents::OpenProject(p) => old(self)@.opened(p@),
                ProjectItemEvents::CloseProject(_) => old(self)@,
            },
    {
        match event {
            ProjectItemEvents::OpenProject(project) => {
                let copy = project.duplicate();
                proof {
                    assert(project_views(self.open_projects@.push(copy)) =~= project_views(self.open_projects@).push(copy@));
                }
                self.open_projects.push(copy);
                self.active_project = Some(project);
            },
            ProjectItemEvents::CloseProject(_) => {},
        }
    }
}

} // verus!
