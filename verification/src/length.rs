//! How much room a widget asks for along one axis.

use vstd::prelude::*;

verus! {

/// The strategy used to fill space in one dimension.
#[derive(Debug, Clone, Copy, PartialEq, Eq, Structural)]
pub enum Length {
    /// Fill all the remaining space.
    Fill,
    /// Fill a share of the remaining space, relative to the other elements.
    FillPortion(u16),
    /// Take as little space as possible.
    Shrink,
    /// Take a fixed number of units.
    Units(u16),
}

} // verus!
