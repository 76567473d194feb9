//! The colour themes that can be chosen.

use vstd::prelude::*;

verus! {

/// A colour theme of the user interface.
#[derive(Debug, Clone, Copy, PartialEq, Eq, Structural)]
pub enum ThemeType {
    Light,
    Dark,
    Custom,
}

impl ThemeType {
    /// Every theme, in the order in which they are offered.
    pub const ALL: [ThemeType; 3] = [ThemeType::Light, ThemeType::Dark, ThemeType::Custom];
}

} // verus!
