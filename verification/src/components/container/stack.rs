//! Stack shorthands: containers preset with a flow direction.

use crate::aspects::Align;
use crate::aspects::Order;
use crate::components::container::container;
use crate::components::container::Container;
use crate::components::Components;
use vstd::prelude::*;

verus! {

/// Whether every aspect of `c` except the flow direction holds its
/// default value.
pub open spec fn is_default_but_direction(c: Container) -> bool {
    &&& c.components@ == Seq::<Components>::empty()
    &&& c.background_color == (0u8, 0u8, 0u8, 0u8)
    &&& c.width == 0u64
    &&& !c.is_width_full
    &&& c.height == 0u64
    &&& !c.is_height_full
    &&& c.border == ((0u64, 0u64, 0u64, 0u64), (0u8, 0u8, 0u8, 0u8), 0u64)
    &&& c.gap == 0u64
    &&& c.padding == 0u64
    &&& !c.is_flex
    &&& c.align_content == Align::Left
    &&& c.align_items == Align::Left
}

/// A default container flowing left to right.
pub fn hstack() -> (r: Container)
    ensures
        r.direction == Order::LeftToRight,
        is_default_but_direction(r),
{
    container().direction(Order::LeftToRight)
}

/// A default container flowing top to bottom.
pub fn vstack() -> (r: Container)
    ensures
        r.direction == Order::TopToBottom,
        is_default_but_direction(r),
{
    container().direction(Order::TopToBottom)
}

} // verus!
