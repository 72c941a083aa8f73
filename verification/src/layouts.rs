//! Available layouts.
//!
//! HTML with inline CSS is the one layout implemented; the component tree
//! is designed so that further renderers could consume it through the same
//! interface.

pub mod html;

