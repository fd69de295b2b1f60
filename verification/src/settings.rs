//! The settings screen.
use vstd::prelude::*;

verus! {

/// The settings: whether the application starts with the system.
pub struct SettingsView {
    pub start_with_windows: bool,
}

impl SettingsView {
    /// Settings with starting with the system turned off.
    pub fn new() -> (s: Self)
        ensures
            !s.start_with_windows,
    {
        Self { start_with_windows: false }
    }

    /// The heading of the screen.
    pub fn title() -> (r: &'static str)
        ensures
            r@ == "Targetz Settings"@,
    {
        "Targetz Settings"
    }
}

} // verus!
