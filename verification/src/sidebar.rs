//! The sidebar: which section is chosen.
use vstd::prelude::*;

use crate::shared::AppTab;

verus! {

/// What the sidebar tells its listeners.
#[derive(Debug, Clone, Copy, PartialEq, Eq)]
pub enum SidebarEvent {
    /// The section was chosen.
    TabClick(AppTab),
}

/// The colour scheme of the interface.
#[derive(Debug, Clone, Copy, PartialEq, Eq)]
pub enum ThemeMode {
    Light,
    Dark,
}

/// The scheme the theme toggle switches to from `m`: light from dark, dark
/// from light.
pub open spec fn other_mode(m: ThemeMode) -> ThemeMode {
    match m {
        ThemeMode::Dark => ThemeMode::Light,
        ThemeMode::Light => ThemeMode::Dark,
    }
}

impl ThemeMode {
    /// Whether this is the dark scheme.
    pub fn is_dark(&self) -> (r: bool)
        ensures
            r == (*self == ThemeMode::Dark),
    {
        match self {
            ThemeMode::Dark => true,
            ThemeMode::Light => false,
        }
    }

    /// The label of the theme toggle, naming the current scheme.
    pub fn label(&self) -> (r: &'static str)
        ensures
            r@ == (if *self == ThemeMode::Dark {
                "Dark mode"@
            } else {
                "Light mode"@
            }),
    {
        match self {
            ThemeMode::Dark => "Dark mode",
            ThemeMode::Light => "Light mode",
        }
    }
}

/// The section the sidebar shows as chosen.
pub struct SidebarView {
    pub active_tab: AppTab,
}

impl SidebarView {
    /// The home section chosen.
    pub fn new() -> (s: Self)
        ensures
            s.active_tab == AppTab::Home,
    {
        Self { active_tab: AppTab::Home }
    }

    /// Chooses `tab`; gives the event that announces it.
    pub fn toggle_tab(&mut self, tab: AppTab) -> (e: SidebarEvent)
        ensures
            final(self).active_tab == tab,
            e == SidebarEvent::TabClick(tab),
    {
        self.active_tab = tab;
        SidebarEvent::TabClick(tab)
    }

    /// Whether `tab` is the chosen section.
    pub fn is_active(&self, tab: AppTab) -> (r: bool)
        ensures
            r == (self.active_tab == tab),
    {
        match (self.active_tab, tab) {
            (AppTab::Targetz, AppTab::Targetz) => true,
            (AppTab::Home, AppTab::Home) => true,
            (AppTab::Settings, AppTab::Settings) => true,
            (AppTab::CreateCustomer, AppTab::CreateCustomer) => true,
            _ => false,
        }
    }

    /// The scheme the theme toggle switches to from `mode`.
    pub fn toggle_theme(mode: ThemeMode) -> (r: ThemeMode)
        ensures
            r == other_mode(mode),
    {
        match mode {
            ThemeMode::Dark => ThemeMode::Light,
            ThemeMode::Light => ThemeMode::Dark,
        }
    }

    /// The sections the sidebar lists, in order.
    pub fn entries() -> (r: Vec<AppTab>)
        ensures
            r@ == seq![AppTab::Home, AppTab::Targetz, AppTab::CreateCustomer, AppTab::Settings],
    {
        let mut r: Vec<AppTab> = Vec::new();
        r.push(AppTab::Home);
        r.push(AppTab::Targetz);
        r.push(AppTab::CreateCustomer);
        r.push(AppTab::Settings);
        r
    }
}

/// Toggling the theme twice gives back the scheme it started from, and a
/// toggle always changes the scheme.
pub proof fn law_theme_toggle_twice(m: ThemeMode)
    ensures
        other_mode(other_mode(m)) == m,
        other_mode(m) != m,
{
}

} // verus!
