//! The form that creates a project: the choices it offers and the project
//! it asks the store to create.
use vstd::prelude::*;

use crate::shared::customer::{customer_views, Customer};
use crate::shared::project::{project_status_from_text, project_status_text, Project, ProjectDraft, ProjectStatus};
use crate::text::concat3;

verus! {

/// What the project form tells its listeners.
pub enum CreateProjectEvents {
    /// The project was stored.
    CreatedProject(Project),
}

/// A customer offered as the owner of the project: its name and id.
pub struct OwnerOptions {
    title: String,
    value: i64,
}

impl OwnerOptions {
    /// The text the choice shows.
    pub closed spec fn spec_title(&self) -> Seq<char> {
        self.title@
    }

    /// The id the choice stands for.
    pub closed spec fn spec_value(&self) -> i64 {
        self.value
    }

    /// The text the choice shows.
    pub fn title(&self) -> (r: &str)
        ensures
            r@ == self.spec_title(),
    {
        self.title.as_str()
    }

    /// The id the choice stands for.
    pub fn value(&self) -> (r: i64)
        ensures
            r == self.spec_value(),
    {
        self.value
    }
}

/// The statuses a new project can start in, as the form offers them.
pub fn status_options() -> (r: Vec<&'static str>)
    ensures
        r@.len() == 2,
        r@[0]@ == project_status_text(ProjectStatus::Started),
        r@[1]@ == project_status_text(ProjectStatus::Prospecting),
{
    let mut r: Vec<&'static str> = Vec::new();
    r.push(ProjectStatus::Started.as_str());
    r.push(ProjectStatus::Prospecting.as_str());
    r
}

/// The values entered in the project form.
pub struct ProjectFormValues {
    pub name: String,
    pub version: String,
    /// The text of the chosen status.
    pub status: String,
    pub description: String,
    pub codename: String,
    pub start_date: String,
    pub target_deadline: String,
    /// The IEEE-754 bit pattern of the entered budget.
    pub budget: u64,
}

impl ProjectFormValues {
    /// The heading of the form: the entered name in brackets.
    pub fn title(&self) -> (r: String)
        ensures
            r@ == "["@ + self.name@ + "]"@,
    {
        concat3("[", self.name.as_str(), "]")
    }
}

/// The customers the project form may choose an owner from.
pub struct CreateProjectView {
    pub customers: Option<Vec<Customer>>,
}

impl CreateProjectView {
    /// A form with no customers to choose from yet.
    pub fn new() -> (s: Self)
        ensures
            s.customers is None,
    {
        Self { customers: None }
    }

    /// Takes the customers to choose an owner from; gives one choice per
    /// customer, its name and id, in the same order.
    pub fn with_customers(&mut self, customers: Vec<Customer>) -> (r: Vec<OwnerOptions>)
        ensures
            final(self).customers matches Some(v) && customer_views(v@) == customer_views(customers@),
            r@.len() == customers@.len(),
            forall|k: int|
                0 <= k < customers@.len() ==> (#[trigger] r@[k]).spec_title() == customers@[k].name@
                    && r@[k].spec_value() == customers@[k].id,
    {
        let n = customers.len();
        let mut options: Vec<OwnerOptions> = Vec::new();
        let mut i: usize = 0;
        while i < n
            invariant
                n == customers@.len(),
                i <= n,
                options@.len() == i,
                forall|k: int|
                    0 <= k < i ==> (#[trigger] options@[k]).spec_title() == customers@[k].name@
                        && options@[k].spec_value() == customers@[k].id,
            decreases n - i,
        {
            options.push(OwnerOptions { title: customers[i].name.clone(), value: customers[i].id });
            i += 1;
        }
        self.customers = Some(customers);
        options
    }

    /// The project to create for the entered values. The form fills the site
    /// from the name field; every optional text is set.
    pub fn create_project(values: &ProjectFormValues) -> (d: ProjectDraft)
        ensures
            d.name@ == values.name@,
            d.current_version@ == values.version@,
            d.status == project_status_from_text(values.status@),
            d.description.deep_view() == Some(values.description@),
            d.start_date.deep_view() == Some(values.start_date@),
            d.site_url.deep_view() == Some(values.name@),
            d.codename.deep_view() == Some(values.codename@),
            d.target_deadline.deep_view() == Some(values.target_deadline@),
            d.budget == Some(values.budget),
    {
        ProjectDraft {
            name: values.name.clone(),
            current_version: values.version.clone(),
            status: ProjectStatus::from(values.status.clone()),
            description: Some(values.description.clone()),
            start_date: Some(values.start_date.clone()),
            site_url: Some(values.name.clone()),
            codename: Some(values.codename.clone()),
            target_deadline: Some(values.target_deadline.clone()),
            budget: Some(values.budget),
        }
    }
}

} // verus!
