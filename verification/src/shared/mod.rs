//! The data shared by every part of the application.
use vstd::prelude::*;

pub mod app_errors;
pub mod app_form;
pub mod customer;
pub mod customer_interaction;
pub mod events;
pub mod project;
pub mod theme;

verus! {

/// The sections of the application that the sidebar switches between.
#[derive(Clone, Copy, Debug, PartialEq, Eq)]
pub enum AppTab {
    Targetz,
    Home,
    Settings,
    CreateCustomer,
}

/// The label of a section.
pub open spec fn tab_label(t: AppTab) -> Seq<char> {
    match t {
        AppTab::CreateCustomer => "Create customer"@,
        AppTab::Home => "Homepage"@,
        AppTab::Settings => "Settings"@,
        AppTab::Targetz => "Targetz"@,
    }
}

/// The text a section is displayed as: its title and a line break.
pub open spec fn tab_display_text(t: AppTab) -> Seq<char> {
    match t {
        AppTab::Home => "Homepage\n"@,
        AppTab::Settings => "Settings\n"@,
        AppTab::Targetz => "Targetz\n"@,
        AppTab::CreateCustomer => "Create Customer\n"@,
    }
}

impl AppTab {
    /// The label of this section.
    pub fn as_str(&self) -> (r: &'static str)
        ensures
            r@ == tab_label(*self),
    {
        match self {
            AppTab::CreateCustomer => "Create customer",
            AppTab::Home => "Homepage",
            AppTab::Settings => "Settings",
            AppTab::Targetz => "Targetz",
        }
    }

    /// The text this section is displayed as.
    pub fn to_display_string(&self) -> (r: String)
        ensures
            r@ == tab_display_text(*self),
    {
        let s = match self {
            AppTab::Home => "Homepage\n",
            AppTab::Settings => "Settings\n",
            AppTab::Targetz => "Targetz\n",
            AppTab::CreateCustomer => "Create Customer\n",
        };
        String::from_str(s)
    }
}

/// Each section has its own label.
pub proof fn law_tab_labels_distinct(a: AppTab, b: AppTab)
    ensures
        tab_label(a) == tab_label(b) ==> a == b,
{
    reveal_strlit("Create customer");
    reveal_strlit("Homepage");
    reveal_strlit("Settings");
    reveal_strlit("Targetz");
    assert("Create customer"@.len() == 15);
    assert("Homepage"@.len() == 8);
    assert("Settings"@.len() == 8);
    assert("Targetz"@.len() == 7);
    assert("Homepage"@[0] == 'H');
    assert("Settings"@[0] == 'S');
    assert("Create customer"@ != "Homepage"@);
    assert("Create customer"@ != "Settings"@);
    assert("Create customer"@ != "Targetz"@);
    assert("Homepage"@ != "Settings"@);
    assert("Homepage"@ != "Targetz"@);
    assert("Settings"@ != "Targetz"@);
}

} // verus!
