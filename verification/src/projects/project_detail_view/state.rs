//! The state of the project detail: the project, its status history, its
//! stakeholders, and the decision to change its status.
use vstd::prelude::*;

use crate::projects::project_detail_view::project_relations::{stakeholder_views, ProjectRelationView, RelationModel};
use crate::shared::customer::{Stakeholder, StakeholderView};
use crate::shared::project::{
    copy_history, history_views, project_status_text, Project, ProjectHistoryRow, ProjectHistoryView,
    ProjectStatus, ProjectView,
};
use crate::text::{concat2, concat3, count_text, decimal, decimal_of, text_or, text_or_else};

verus! {

/// The key of the list row showing record `h` at position `row`: by the
/// record's id when it has one, by the position otherwise.
pub open spec fn history_key(h: ProjectHistoryView, row: int) -> Seq<char> {
    match h.id {
        Some(id) => "history-"@ + decimal(id as int),
        None => "history-row-"@ + decimal(row),
    }
}

/// How the history list shows one recorded status change; a missing detail
/// reads "N/A".
pub struct HistoryEntry {
    pub key: String,
    pub created_at: String,
    pub from_status: String,
    pub to_status: String,
    pub impact_on_target_deadline: String,
    pub note: String,
    pub change_ask_by: String,
    pub reason: String,
}

/// Whether `e` shows record `h` at position `row`.
pub open spec fn shows_record(e: HistoryEntry, h: ProjectHistoryView, row: int) -> bool {
    &&& e.key@ == history_key(h, row)
    &&& e.created_at@ == h.created_at
    &&& e.from_status@ == h.from_status
    &&& e.to_status@ == h.to_status
    &&& e.impact_on_target_deadline@ == text_or(h.impact_on_target_deadline, "N/A"@)
    &&& e.note@ == text_or(h.note, "N/A"@)
    &&& e.change_ask_by@ == text_or(h.change_ask_by, "N/A"@)
    &&& e.reason@ == text_or(h.reason, "N/A"@)
}

/// The recorded status changes that the history list shows, and the row
/// chosen in it.
pub struct ProjectHistoryDelegate {
    pub history: Vec<ProjectHistoryRow>,
    pub selected_index: Option<usize>,
}

impl ProjectHistoryDelegate {
    /// An empty history, no row chosen.
    pub fn new() -> (s: Self)
        ensures
            s.history@.len() == 0,
            s.selected_index is None,
    {
        Self { history: Vec::new(), selected_index: None }
    }

    /// Replaces the shown history; the chosen row stays.
    pub fn set_history(&mut self, history: Vec<ProjectHistoryRow>)
        ensures
            final(self).history@ == history@,
            final(self).selected_index == old(self).selected_index,
    {
        self.history = history;
    }

    /// The number of rows the list shows.
    pub fn items_count(&self) -> (r: usize)
        ensures
            r == self.history@.len(),
    {
        self.history.len()
    }

    /// Chooses a row, or none.
    pub fn set_selected_index(&mut self, index: Option<usize>)
        ensures
            final(self).selected_index == index,
            final(self).history@ == old(self).history@,
    {
        self.selected_index = index;
    }

    /// The entry the list shows at `row`; none past the last record.
    pub fn entry(&self, row: usize) -> (r: Option<HistoryEntry>)
        ensures
            row < self.history@.len() <==> r is Some,
            r matches Some(e) ==> shows_record(e, self.history@[row as int]@, row as int),
    {
        if row >= self.history.len() {
            return None;
        }
        let h = &self.history[row];
        let key = match h.id {
            Some(id) => {
                let t = decimal_of(id);
                concat2("history-", t.as_str())
            },
            None => {
                let t = count_text(row);
                concat2("history-row-", t.as_str())
            },
        };
        Some(
            HistoryEntry {
                key,
                created_at: h.created_at.clone(),
                from_status: h.from_status.clone(),
                to_status: h.to_status.clone(),
                impact_on_target_deadline: text_or_else(&h.impact_on_target_deadline, "N/A"),
                note: text_or_else(&h.note, "N/A"),
                change_ask_by: text_or_else(&h.change_ask_by, "N/A"),
                reason: text_or_else(&h.reason, "N/A"),
            },
        )
    }

    /// What the list shows when there is no record.
    pub fn empty_text() -> (r: &'static str)
        ensures
            r@ == "No history records yet."@,
    {
        "No history records yet."
    }
}

/// The statuses a project can be moved to, in the order they are offered.
pub open spec fn status_choice_at(k: int) -> ProjectStatus {
    if k == 0 {
        ProjectStatus::Finished
    } else if k == 1 {
        ProjectStatus::Propousing
    } else if k == 2 {
        ProjectStatus::Prospecting
    } else if k == 3 {
        ProjectStatus::Refactoring
    } else {
        ProjectStatus::Started
    }
}

/// A status offered for the project, and whether it is the current one.
pub struct StatusChoice {
    pub status: ProjectStatus,
    pub current: bool,
}

/// The heading of the project detail: name, version and codename,
/// description, status, the statuses offered, and the number of stakeholders.
pub struct ProjectHeader {
    pub name: String,
    /// The version, a bullet, and the codename (empty when there is none).
    pub subtitle: String,
    pub description: String,
    pub status_line: String,
    pub choices: Vec<StatusChoice>,
    pub stakeholders_heading: String,
}

/// The codename as shown, empty when there is none.
pub open spec fn codename_text(p: ProjectView<i64>) -> Seq<char> {
    text_or(p.codename, Seq::empty())
}

/// The number of stakeholders a heading counts: none until they are loaded.
pub open spec fn stakeholder_count(s: Option<Seq<StakeholderView>>) -> int {
    match s {
        Some(v) => v.len() as int,
        None => 0,
    }
}

/// The content of a project detail.
pub ghost struct ProjectDetailModel {
    pub project: Option<ProjectView<i64>>,
    /// `None` until the history is loaded.
    pub history: Option<Seq<ProjectHistoryView>>,
    pub show_history: bool,
    pub stakeholders: Option<Seq<StakeholderView>>,
    /// The records the history list shows.
    pub listed: Seq<ProjectHistoryView>,
    /// The row chosen in the history list.
    pub selected_row: Option<usize>,
    /// The customers related to the project.
    pub relations: RelationModel,
}

impl ProjectDetailModel {
    /// The status change to ask the store for when `status` is chosen: none
    /// when no project is shown or it already has that status.
    pub open spec fn change_for(self, status: ProjectStatus) -> Option<ProjectView<i64>> {
        match self.project {
            None => None,
            Some(p) => if p.status == status {
                None
            } else {
                Some(p)
            },
        }
    }

    /// After showing the history when hidden, or hiding it when shown.
    pub open spec fn history_toggled(self) -> ProjectDetailModel {
        ProjectDetailModel { show_history: !self.show_history, ..self }
    }

    /// The history a status change is appended to: the loaded one, or none.
    pub open spec fn history_base(self) -> Seq<ProjectHistoryView> {
        match self.history {
            Some(h) => h,
            None => Seq::empty(),
        }
    }
}

/// The project shown in detail, with its history and stakeholders.
pub struct ProjectDetailView {
    pub project: Option<Project>,
    pub history: Option<Vec<ProjectHistoryRow>>,
    pub history_list: ProjectHistoryDelegate,
    pub relations_view: ProjectRelationView,
    pub show_history: bool,
    pub stakeholders: Option<Vec<Stakeholder>>,
}

impl View for ProjectDetailView {
    type V = ProjectDetailModel;

    open spec fn view(&self) -> ProjectDetailModel {
        ProjectDetailModel {
            project: match self.project {
                Some(p) => Some(p@),
                None => None,
            },
            history: match self.history {
                Some(h) => Some(history_views(h@)),
                None => None,
            },
            show_history: self.show_history,
            stakeholders: match self.stakeholders {
                Some(s) => Some(stakeholder_views(s@)),
                None => None,
            },
            listed: history_views(self.history_list.history@),
            selected_row: self.history_list.selected_index,
            relations: self.relations_view@,
        }
    }
}

impl ProjectDetailView {
    /// The detail of `project`: history not loaded and hidden, no
    /// stakeholders yet.
    pub fn new(project: Option<Project>) -> (s: Self)
        ensures
            s@.project == match project {
                Some(p) => Some(p@),
                None => None::<ProjectView<i64>>,
            },
            s@.history is None,
            !s@.show_history,
            s@.stakeholders == Some(Seq::<StakeholderView>::empty()),
            s@.listed == Seq::<ProjectHistoryView>::empty(),
            s@.selected_row is None,
            s@.relations.project is None,
            s@.relations.customers is None,
            s@.relations.stakeholders is None,
            s@.relations.items is None,
    {
        let s = Self {
            project,
            history: None,
            history_list: ProjectHistoryDelegate::new(),
            relations_view: ProjectRelationView::new(),
            show_history: false,
            stakeholders: Some(Vec::new()),
        };
        proof {
            assert(stakeholder_views(s.stakeholders.unwrap()@) =~= Seq::empty());
            assert(history_views(s.history_list.history@) =~= Seq::empty());
        }
        s
    }

    /// Shows the history when hidden, hides it when shown.
    pub fn toggle_history(&mut self)
        ensures
            final(self)@ == old(self)@.history_toggled(),
    {
        self.show_history = !self.show_history;
    }

    /// Shows `project`, and its relations.
    pub fn set_project(&mut self, project: Project)
        ensures
            final(self)@ == (ProjectDetailModel {
                project: Some(project@),
                relations: RelationModel { project: Some(project@), ..old(self)@.relations },
                ..old(self)@
            }),
    {
        self.relations_view.set_project(project.duplicate());
        self.project = Some(project);
    }

    /// The stakeholders loaded from the store.
    pub fn set_stakeholders(&mut self, stakeholders: Vec<Stakeholder>)
        ensures
            final(self)@ == (ProjectDetailModel { stakeholders: Some(stakeholder_views(stakeholders@)), ..old(self)@ }),
    {
        self.stakeholders = Some(stakeholders);
    }

    /// The history loaded from the store; the history list shows it too.
    pub fn set_history(&mut self, history: Vec<ProjectHistoryRow>)
        ensures
            final(self)@ == (ProjectDetailModel {
                history: Some(history_views(history@)),
                listed: history_views(history@),
                ..old(self)@
            }),
    {
        let listed = copy_history(&history);
        self.history_list.set_history(listed);
        self.history = Some(history);
    }

    /// The project whose status the store is asked to change to `status`:
    /// none when no project is shown or it already has that status.
    pub fn toggle_status(&self, status: ProjectStatus) -> (r: Option<Project>)
        ensures
            match r {
                Some(p) => self@.change_for(status) == Some(p@),
                None => self@.change_for(status) is None,
            },
    {
        match &self.project {
            None => None,
            Some(p) => if p.status.same_as(&status) {
                None
            } else {
                Some(p.duplicate())
            },
        }
    }

    /// The history a status change is appended to: a copy of the loaded one,
    /// or an empty one.
    pub fn history_base(&self) -> (r: Vec<ProjectHistoryRow>)
        ensures
            history_views(r@) == self@.history_base(),
    {
        match &self.history {
            Some(h) => copy_history(h),
            None => {
                let r: Vec<ProjectHistoryRow> = Vec::new();
                proof {
                    assert(history_views(r@) =~= Seq::empty());
                }
                r
            },
        }
    }

    /// Takes in a status change the store made: the project as it now is,
    /// and `base` with the new record appended as the history, which the
    /// history list shows too.
    pub fn apply_status_update(&mut self, base: Vec<ProjectHistoryRow>, updated: Project, record: ProjectHistoryRow)
        ensures
            final(self)@ == (ProjectDetailModel {
                project: Some(updated@),
                history: Some(history_views(base@).push(record@)),
                listed: history_views(base@).push(record@),
                ..old(self)@
            }),
    {
        let mut history = base;
        proof {
            assert(history_views(history@.push(record)) =~= history_views(history@).push(record@));
        }
        history.push(record);
        let listed = copy_history(&history);
        self.history_list.set_history(listed);
        self.project = Some(updated);
        self.history = Some(history);
    }

    /// The heading of the detail, when a project is shown.
    pub fn header(&self) -> (r: Option<ProjectHeader>)
        ensures
            match self@.project {
                None => r is None,
                Some(p) => r matches Some(h) && {
                    &&& h.name@ == p.name
                    &&& h.subtitle@ == p.current_version + " \u{2022} "@ + codename_text(p)
                    &&& h.description@ == text_or(p.description, "No description"@)
                    &&& h.status_line@ == "Status : "@ + project_status_text(p.status)
                    &&& h.choices@.len() == 5
                    &&& forall|k: int|
                        0 <= k < 5 ==> (#[trigger] h.choices@[k]).status == status_choice_at(k)
                            && h.choices@[k].current == (status_choice_at(k) == p.status)
                    &&& h.stakeholders_heading@ == "Stakeholders ["@ + decimal(
                        stakeholder_count(self@.stakeholders),
                    ) + "]"@
                },
            },
    {
        match &self.project {
            None => None,
            Some(p) => {
                let codename = text_or_else(&p.codename, "");
                proof {
                    reveal_strlit("");
                    assert(""@ =~= Seq::<char>::empty());
                }
                let mut choices: Vec<StatusChoice> = Vec::new();
                choices.push(StatusChoice { status: ProjectStatus::Finished, current: p.status.same_as(&ProjectStatus::Finished) });
                choices.push(StatusChoice { status: ProjectStatus::Propousing, current: p.status.same_as(&ProjectStatus::Propousing) });
                choices.push(StatusChoice { status: ProjectStatus::Prospecting, current: p.status.same_as(&ProjectStatus::Prospecting) });
                choices.push(StatusChoice { status: ProjectStatus::Refactoring, current: p.status.same_as(&ProjectStatus::Refactoring) });
                choices.push(StatusChoice { status: ProjectStatus::Started, current: p.status.same_as(&ProjectStatus::Started) });
                let count = match &self.stakeholders {
                    Some(v) => v.len(),
                    None => 0,
                };
                let count_digits = count_text(count);
                let h = ProjectHeader {
                    name: p.name.clone(),
                    subtitle: concat3(p.current_version.as_str(), " \u{2022} ", codename.as_str()),
                    description: text_or_else(&p.description, "No description"),
                    status_line: concat2("Status : ", p.status.as_str()),
                    choices,
                    stakeholders_heading: concat3("Stakeholders [", count_digits.as_str(), "]"),
                };
                proof {
                    assert forall|k: int| 0 <= k < 5 implies (#[trigger] h.choices@[k]).status == status_choice_at(k)
                        && h.choices@[k].current == (status_choice_at(k) == p.status) by {
                        if k == 0 {
                        } else if k == 1 {
                        } else if k == 2 {
                        } else if k == 3 {
                        } else {
                        }
                    }
                    assert(stakeholder_count(self@.stakeholders) == count as int);
                }
                Some(h)
            },
        }
    }
}

/// Showing and hiding the history twice leaves it as it was.
pub proof fn law_toggle_history_twice(m: ProjectDetailModel)
    ensures
        m.history_toggled().history_toggled() == m,
{
}

/// Choosing the status the project already has asks the store for nothing.
pub proof fn law_same_status_no_change(m: ProjectDetailModel)
    requires
        m.project is Some,
    ensures
        m.change_for(m.project.unwrap().status) is None,
{
}

/// Choosing a status other than the shown project's current one asks the
/// store to change exactly that project, whatever its current status; with
/// no project shown nothing is asked.
pub proof fn law_other_status_asks_for_change(m: ProjectDetailModel, status: ProjectStatus)
    ensures
        m.project is Some && m.project.unwrap().status != status ==> m.change_for(status) == m.project,
        m.project is None ==> m.change_for(status) is None,
{
}

} // verus!
