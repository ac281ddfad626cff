//! The desktop's reported colour-scheme preference.

use vstd::prelude::*;

verus! {

/// The system's preferred color scheme
#[derive(Debug, Clone, Copy, PartialEq, Eq, PartialOrd, Ord, Structural)]
pub enum ColorScheme {
    NoPreference,
    PreferDark,
    PreferLight,
}

impl ColorScheme {
    /// Decodes the value carried by the desktop portal's `color-scheme`
    /// setting: `1` asks for dark, `2` asks for light, and every other
    /// value expresses no preference.
    pub fn from_portal_value(value: u32) -> (scheme: ColorScheme)
        ensures
            scheme == (if value == 1 {
                ColorScheme::PreferDark
            } else if value == 2 {
                ColorScheme::PreferLight
            } else {
                ColorScheme::NoPreference
            }),
    {
        match value {
            1 => ColorScheme::PreferDark,
            2 => ColorScheme::PreferLight,
            _ => ColorScheme::NoPreference,
        }
    }
}

} // verus!
