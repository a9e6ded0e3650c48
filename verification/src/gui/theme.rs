//! The colour themes and their names.
use vstd::prelude::*;
use crate::text::str_eq;

verus! {

#[derive(Debug, Clone, Copy, PartialEq, Eq, Structural)]
pub enum AppTheme {
    Light,
    Dark,
    Transparent,
}

pub open spec fn theme_name(t: AppTheme) -> Seq<char> {
    match t {
        AppTheme::Light => "light"@,
        AppTheme::Dark => "dark"@,
        AppTheme::Transparent => "transparent"@,
    }
}

pub open spec fn theme_label(t: AppTheme) -> Seq<char> {
    match t {
        AppTheme::Light => "浅色"@,
        AppTheme::Dark => "深色"@,
        AppTheme::Transparent => "透明"@,
    }
}

/// The next theme in the cycle light, dark, transparent.
pub open spec fn next_theme(t: AppTheme) -> AppTheme {
    match t {
        AppTheme::Light => AppTheme::Dark,
        AppTheme::Dark => AppTheme::Transparent,
        AppTheme::Transparent => AppTheme::Light,
    }
}

impl AppTheme {
    pub fn toggle(self) -> (r: AppTheme)
        ensures
            r == next_theme(self),
    {
        match self {
            AppTheme::Light => AppTheme::Dark,
            AppTheme::Dark => AppTheme::Transparent,
            AppTheme::Transparent => AppTheme::Light,
        }
    }

    /// The name shown to the user.
    pub fn display(&self) -> (r: &'static str)
        ensures
            r@ == theme_label(*self),
    {
        match self {
            AppTheme::Light => "浅色",
            AppTheme::Dark => "深色",
            AppTheme::Transparent => "透明",
        }
    }

    /// The theme used where none is configured.
    pub fn default() -> (r: AppTheme)
        ensures
            r == AppTheme::Transparent,
    {
        AppTheme::Transparent
    }

    /// The theme of a configured name; an unknown name gives the default.
    pub fn from_str(s: &str) -> (r: AppTheme)
        ensures
            r == (if s@ == "light"@ {
                AppTheme::Light
            } else if s@ == "dark"@ {
                AppTheme::Dark
            } else {
                AppTheme::Transparent
            }),
    {
        if str_eq(s, "light") {
            AppTheme::Light
        } else if str_eq(s, "dark") {
            AppTheme::Dark
        } else if str_eq(s, "transparent") {
            AppTheme::Transparent
        } else {
            AppTheme::default()
        }
    }

    /// The name stored in the configuration.
    pub fn as_str(&self) -> (r: &'static str)
        ensures
            r@ == theme_name(*self),
    {
        match self {
            AppTheme::Light => "light",
            AppTheme::Dark => "dark",
            AppTheme::Transparent => "transparent",
        }
    }
}

} // verus!
