//! One project as its list item shows it.
use vstd::prelude::*;

use crate::shared::project::{project_status_text, Project, ProjectStatus, ProjectView};
use crate::text::{concat2, concat3, text_or, text_or_else, trim_chars, trimmed};

verus! {

/// What a project item tells its listeners.
pub enum ProjectItemEvents {
    OpenProject(Project),
    CloseProject(i64),
}

/// The look of a status tag.
#[derive(Debug, Clone, Copy, PartialEq, Eq)]
pub enum StatusTag {
    Success,
    Info,
    Secondary,
    Warning,
    Primary,
}

/// The tag look of each status: finished projects succeed, started ones
/// inform, prospects are secondary, proposals warn, refactorings stand out.
pub open spec fn status_tag(s: ProjectStatus) -> StatusTag {
    match s {
        ProjectStatus::Finished => StatusTag::Success,
        ProjectStatus::Started => StatusTag::Info,
        ProjectStatus::Prospecting => StatusTag::Secondary,
        ProjectStatus::Propousing => StatusTag::Warning,
        ProjectStatus::Refactoring => StatusTag::Primary,
    }
}

/// The period of a project: its start and its deadline, a dash for either
/// when it is not set.
pub open spec fn period_text(p: ProjectView<i64>) -> Seq<char> {
    text_or(p.start_date, "\u{2014}"@) + " \u{2192} "@ + text_or(p.target_deadline, "\u{2014}"@)
}

/// The description a card shows: only one that is not blank.
pub open spec fn shown_description(p: ProjectView<i64>) -> Option<Seq<char>> {
    match p.description {
        Some(d) => if trimmed(d).len() > 0 {
            Some(d)
        } else {
            None
        },
        None => None,
    }
}

/// How a project's list item shows it. The budget is left to the caller to
/// format, as the bit pattern of the amount, absent when none is set.
pub struct ProjectCard {
    pub name: String,
    pub status: &'static str,
    pub tag: StatusTag,
    /// "v" and the version.
    pub version: String,
    /// "· #" and the codename, when there is one.
    pub codename: Option<String>,
    /// "· " and the site, when there is one.
    pub site: Option<String>,
    pub description: Option<String>,
    pub period: String,
    pub budget: Option<u64>,
}

/// Whether `card` shows project `p`.
pub open spec fn shows_project(card: ProjectCard, p: ProjectView<i64>) -> bool {
    &&& card.name@ == p.name
    &&& card.status@ == project_status_text(p.status)
    &&& card.tag == status_tag(p.status)
    &&& card.version@ == "v"@ + p.current_version
    &&& card.codename.deep_view() == match p.codename {
        Some(c) => Some("\u{b7} #"@ + c),
        None => None,
    }
    &&& card.site.deep_view() == match p.site_url {
        Some(u) => Some("\u{b7} "@ + u),
        None => None,
    }
    &&& card.description.deep_view() == shown_description(p)
    &&& card.period@ == period_text(p)
    &&& card.budget == p.budget
}

/// `prefix` and the text of `o`, when it holds one.
fn prefixed_option(prefix: &str, o: &Option<String>) -> (r: Option<String>)
    ensures
        r.deep_view() == match o.deep_view() {
            Some(t) => Some(prefix@ + t),
            None => None,
        },
{
    match o {
        Some(t) => Some(concat2(prefix, t.as_str())),
        None => None,
    }
}

/// A project as its list item holds it.
pub struct ProjectItem {
    project: Project,
}

impl ProjectItem {
    /// The item of `project`.
    pub fn new(project: Project) -> (s: Self)
        ensures
            s.project()@ == project@,
    {
        Self { project }
    }

    /// The project of this item.
    pub closed spec fn project(&self) -> Project {
        self.project
    }

    /// The project of this item.
    pub fn get_project(&self) -> (r: &Project)
        ensures
            r@ == self.project()@,
    {
        &self.project
    }

    /// How this item shows its project.
    pub fn card(&self) -> (r: ProjectCard)
        ensures
            shows_project(r, self.project()@),
    {
        let p = &self.project;
        let tag = match p.status {
            ProjectStatus::Finished => StatusTag::Success,
            ProjectStatus::Started => StatusTag::Info,
            ProjectStatus::Prospecting => StatusTag::Secondary,
            ProjectStatus::Propousing => StatusTag::Warning,
            ProjectStatus::Refactoring => StatusTag::Primary,
        };
        let description = match &p.description {
            Some(d) => {
                let t = trim_chars(d.as_str());
                if t.len() > 0 {
                    Some(d.clone())
                } else {
                    None
                }
            },
            None => None,
        };
        let start = text_or_else(&p.start_date, "\u{2014}");
        let deadline = text_or_else(&p.target_deadline, "\u{2014}");
        ProjectCard {
            name: p.name.clone(),
            status: p.status.as_str(),
            tag,
            version: concat2("v", p.current_version.as_str()),
            codename: prefixed_option("\u{b7} #", &p.codename),
            site: prefixed_option("\u{b7} ", &p.site_url),
            description,
            period: concat3(start.as_str(), " \u{2192} ", deadline.as_str()),
            budget: p.budget,
        }
    }

    /// The event asking to open this item's project.
    pub fn open(&self) -> (e: ProjectItemEvents)
        ensures
            e matches ProjectItemEvents::OpenProject(p) && p@ == self.project()@,
    {
        ProjectItemEvents::OpenProject(self.project.duplicate())
    }
}

} // verus!
