//! Line and border aspect types.

use vstd::prelude::*;

verus! {

/// Border settings: the four edge widths, the border color, and the corner
/// radius.
pub type BorderStyle = (BorderPart, crate::aspects::Color, Radius);

/// Corner radius, in pixels.
pub type Radius = crate::aspects::Size;

/// The four edge widths of a border, as `(left, top, bottom, right)`.
///
/// A zero-valued edge still renders as a zero-width border segment: the
/// compiler always emits all four edges.
pub type BorderPart = (
    crate::aspects::Size,
    crate::aspects::Size,
    crate::aspects::Size,
    crate::aspects::Size,
);

} // verus!
