//! Order and alignment aspect types.

use vstd::prelude::*;

verus! {

/// The order of elements in the container relative to the container area.
#[derive(Debug, Clone, Copy, PartialEq, Eq, Structural)]
pub enum Order {
    /// Top to bottom (a column).
    TopToBottom,
    /// Bottom to top (a reversed column).
    BottomToTop,
    /// Left to right (a row).
    LeftToRight,
    /// Right to left (a reversed row).
    RightToLeft,
}

impl Default for Order {
    fn default() -> (r: Self)
        ensures
            r == Order::TopToBottom,
    {
        Order::TopToBottom
    }
}

/// Arrangement of the content inside its container.
#[derive(Debug, Clone, Copy, PartialEq, Eq, Structural)]
pub enum Align {
    /// Align to the start.
    Left,
    /// Center.
    Center,
    /// Align to the end.
    Right,
    /// Distribute the remaining space between the items.
    SpaceBetween,
}

impl Default for Align {
    fn default() -> (r: Self)
        ensures
            r == Align::Left,
    {
        Align::Left
    }
}

} // verus!
