//! Spacing aspect types.

use vstd::prelude::*;

verus! {

/// Space between components.
pub type Gap = crate::aspects::Size;

/// Space between content and edge.
pub type Padding = crate::aspects::Size;

} // verus!
