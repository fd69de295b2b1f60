//! The colors of the application's theme.
use vstd::prelude::*;

verus! {

/// The named colors of the theme.
#[derive(Debug, Clone, Copy, PartialEq, Eq)]
pub enum AppColors {
    Clear,
    Caption,
    Background,
    Surface,
    Foreground,
    Inner,
    Border,
    Outline,
    Separator,
    AlternatingRow,
    IconTint,
    Text,
    Secondary,
    Group,
    File,
    Folder,
    Warning,
    Progress,
    Selection,
    RectSelection,
    Match,
    Hidden,
    Hover,
    Disabled,
    ContentHover,
    ContentSelection,
    ContentDisabledSelection,
    OutlineHover,
    OutlineSelection,
    OutlineDisabledSelection,
    MatchHover,
    MatchSelection,
    MatchDisabledSelection,
}

/// The 24-bit RGB value (`0xRRGGBB`) of a named color.
pub open spec fn color_rgb(c: AppColors) -> u32 {
    match c {
        AppColors::Clear => 0x111215,
        AppColors::Caption => 0x111215,
        AppColors::Background => 0x202122,
        AppColors::Surface => 0x1E2227,
        AppColors::Foreground => 0x282B2C,
        AppColors::Inner => 0x111215,
        AppColors::Border => 0x2D3139,
        AppColors::Outline => 0x3E4451,
        AppColors::Separator => 0x242830,
        AppColors::AlternatingRow => 0x1A1D22,
        AppColors::IconTint => 0xDE5D35,
        AppColors::Text => 0xE6E6E6,
        AppColors::Secondary => 0x98A0A6,
        AppColors::Group => 0xB0B6BD,
        AppColors::File => 0xE6E6E6,
        AppColors::Folder => 0xDE5D35,
        AppColors::Warning => 0xE06C75,
        AppColors::Progress => 0xDE5D35,
        AppColors::Selection => 0x0078A4,
        AppColors::RectSelection => 0xDE5D35,
        AppColors::Match => 0xE5C07B,
        AppColors::Hidden => 0x4B5263,
        AppColors::Hover => 0x173E4B,
        AppColors::Disabled => 0x3E4451,
        AppColors::ContentHover => 0xFFFFFF,
        AppColors::ContentSelection => 0xFFFFFF,
        AppColors::ContentDisabledSelection => 0x98A0A6,
        AppColors::OutlineHover => 0xDE5D35,
        AppColors::OutlineSelection => 0xDE5D35,
        AppColors::OutlineDisabledSelection => 0x4B5263,
        AppColors::MatchHover => 0xE5C07B,
        AppColors::MatchSelection => 0x16181C,
        AppColors::MatchDisabledSelection => 0x5C6370,
    }
}

impl AppColors {
    /// The 24-bit RGB value (`0xRRGGBB`) of this color.
    pub fn rgb(&self) -> (r: u32)
        ensures
            r == color_rgb(*self),
            r <= 0xFFFFFF,
    {
        match self {
            AppColors::Clear => 0x111215,
            AppColors::Caption => 0x111215,
            AppColors::Background => 0x202122,
            AppColors::Surface => 0x1E2227,
            AppColors::Foreground => 0x282B2C,
            AppColors::Inner => 0x111215,
            AppColors::Border => 0x2D3139,
            AppColors::Outline => 0x3E4451,
            AppColors::Separator => 0x242830,
            AppColors::AlternatingRow => 0x1A1D22,
            AppColors::IconTint => 0xDE5D35,
            AppColors::Text => 0xE6E6E6,
            AppColors::Secondary => 0x98A0A6,
            AppColors::Group => 0xB0B6BD,
            AppColors::File => 0xE6E6E6,
            AppColors::Folder => 0xDE5D35,
            AppColors::Warning => 0xE06C75,
            AppColors::Progress => 0xDE5D35,
            AppColors::Selection => 0x0078A4,
            AppColors::RectSelection => 0xDE5D35,
            AppColors::Match => 0xE5C07B,
            AppColors::Hidden => 0x4B5263,
            AppColors::Hover => 0x173E4B,
            AppColors::Disabled => 0x3E4451,
            AppColors::ContentHover => 0xFFFFFF,
            AppColors::ContentSelection => 0xFFFFFF,
            AppColors::ContentDisabledSelection => 0x98A0A6,
            AppColors::OutlineHover => 0xDE5D35,
            AppColors::OutlineSelection => 0xDE5D35,
            AppColors::OutlineDisabledSelection => 0x4B5263,
            AppColors::MatchHover => 0xE5C07B,
            AppColors::MatchSelection => 0x16181C,
            AppColors::MatchDisabledSelection => 0x5C6370,
        }
    }
}

} // verus!
