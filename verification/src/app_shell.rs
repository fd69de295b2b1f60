//! The application shell: the section shown beside the sidebar, and how the
//! sections follow each other's events.
use vstd::prelude::*;

use crate::customers::create_customer_view::{CreateCustomerEvent, CreateCustomerView, CustomerFormModel};
use crate::customers::tab_customers_view::{TabCustomerView, TabsView};
use crate::shared::customer::Customer;
use crate::shared::events::AppEvent;
use crate::settings::SettingsView;
use crate::shared::AppTab;
use crate::sidebar::{SidebarEvent, SidebarView};

verus! {

/// What the shell shows beside the sidebar.
#[derive(Debug, Clone, Copy, PartialEq, Eq)]
pub enum Screen {
    Settings,
    CreateCustomer,
    Customers,
}

/// The screen a section shows; the home section shows the settings.
pub open spec fn screen_of(tab: AppTab) -> Screen {
    match tab {
        AppTab::Settings => Screen::Settings,
        AppTab::CreateCustomer => Screen::CreateCustomer,
        AppTab::Targetz => Screen::Customers,
        AppTab::Home => Screen::Settings,
    }
}

/// The current section, the sidebar, the settings, the customer form and
/// the customer screen.
pub struct AppShell {
    pub current_tab: AppTab,
    pub sidebar: SidebarView,
    pub settings_view: SettingsView,
    pub create_customer_view: CreateCustomerView,
    pub customer_tab_view: TabCustomerView,
}

impl AppShell {
    /// The home section current and chosen, an empty form, no customer open.
    pub fn new() -> (s: Self)
        ensures
            s.current_tab == AppTab::Home,
            s.sidebar.active_tab == AppTab::Home,
            !s.settings_view.start_with_windows,
            s.create_customer_view@ == CustomerFormModel::blank(),
            s.customer_tab_view.state@ == TabsView::empty(),
            s.customer_tab_view.customer_list_view@.customers.len() == 0,
            s.customer_tab_view.customer_detail_view@.customer is None,
            s.customer_tab_view.customer_detail_view@.interactions is None,
            s.customer_tab_view.customer_detail_view@.form.customer is None,
    {
        Self {
            current_tab: AppTab::Home,
            sidebar: SidebarView::new(),
            settings_view: SettingsView::new(),
            create_customer_view: CreateCustomerView::new(),
            customer_tab_view: TabCustomerView::new(),
        }
    }

    /// Follows the sidebar: the chosen section becomes current.
    pub fn handle_sidebar_event(&mut self, event: SidebarEvent)
        ensures
            match event {
                SidebarEvent::TabClick(t) => final(self).current_tab == t,
            },
            final(self).sidebar == old(self).sidebar,
            final(self).settings_view == old(self).settings_view,
            final(self).create_customer_view@ == old(self).create_customer_view@,
            final(self).customer_tab_view.state@ == old(self).customer_tab_view.state@,
            final(self).customer_tab_view.customer_list_view@ == old(self).customer_tab_view.customer_list_view@,
            final(self).customer_tab_view.customer_detail_view@ == old(self).customer_tab_view.customer_detail_view@,
    {
        match event {
            SidebarEvent::TabClick(tab) => self.current_tab = tab,
        }
    }

    /// The screen to show for the current section.
    pub fn screen(&self) -> (r: Screen)
        ensures
            r == screen_of(self.current_tab),
    {
        match self.current_tab {
            AppTab::Settings => Screen::Settings,
            AppTab::CreateCustomer => Screen::CreateCustomer,
            AppTab::Targetz => Screen::Customers,
            _ => Screen::Settings,
        }
    }

    /// Follows the customer form: a stored customer gets its tab and is shown
    /// there, the customer section is chosen in the sidebar and becomes
    /// current, and the detail shows the customer. Gives the customer whose
    /// interactions are then to be loaded (the customer list is to be loaded
    /// anew as well); other events change nothing.
    pub fn handle_create_customer_event(&mut self, event: CreateCustomerEvent) -> (load: Option<Customer>)
        ensures
            final(self).settings_view == old(self).settings_view,
            final(self).create_customer_view@ == old(self).create_customer_view@,
            final(self).customer_tab_view.customer_list_view@ == old(self).customer_tab_view.customer_list_view@,
            match event {
                CreateCustomerEvent::Created(c) => {
                    &&& final(self).customer_tab_view.state@ == old(self).customer_tab_view.state@.opened(c@)
                    &&& final(self).sidebar.active_tab == AppTab::Targetz
                    &&& final(self).current_tab == AppTab::Targetz
                    &&& final(self).customer_tab_view.customer_detail_view@ == old(self).customer_tab_view.customer_detail_view@.showing(c@)
                    &&& load matches Some(q) && q@ == c@
                },
                _ => {
                    &&& final(self).customer_tab_view.state@ == old(self).customer_tab_view.state@
                    &&& final(self).sidebar == old(self).sidebar
                    &&& final(self).current_tab == old(self).current_tab
                    &&& final(self).customer_tab_view.customer_detail_view@
                        == old(self).customer_tab_view.customer_detail_view@
                    &&& load is None
                },
            },
    {
        match event {
            CreateCustomerEvent::Created(customer) => {
                let shown = customer.duplicate();
                let loaded = customer.duplicate();
                self.customer_tab_view.state.open(customer);
                let click = self.sidebar.toggle_tab(AppTab::Targetz);
                self.handle_sidebar_event(click);
                self.customer_tab_view.customer_detail_view.set_customer(shown);
                Some(loaded)
            },
            _ => None,
        }
    }

    /// Follows the customer list: the tab of a deleted customer is closed.
    /// Tells whether the customer list is to be loaded anew.
    pub fn handle_list_event(&mut self, event: AppEvent) -> (reload: bool)
        ensures
            final(self).current_tab == old(self).current_tab,
            final(self).sidebar == old(self).sidebar,
            final(self).settings_view == old(self).settings_view,
            final(self).create_customer_view@ == old(self).create_customer_view@,
            final(self).customer_tab_view.customer_list_view@ == old(self).customer_tab_view.customer_list_view@,
            final(self).customer_tab_view.customer_detail_view@ == old(self).customer_tab_view.customer_detail_view@,
            match event {
                AppEvent::DeletedCustomer(id) => {
                    &&& final(self).customer_tab_view.state@ == old(self).customer_tab_view.state@.closed(id)
                    &&& reload
                },
                _ => {
                    &&& final(self).customer_tab_view.state@ == old(self).customer_tab_view.state@
                    &&& !reload
                },
            },
    {
        match event {
            AppEvent::DeletedCustomer(id) => {
                self.customer_tab_view.close_tab(id);
                true
            },
            _ => false,
        }
    }
}

} // verus!
