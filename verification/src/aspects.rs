//! Base types of aspects.
//!
//! This module defines the styling value types attached to components and
//! re-exports them under one roof.

pub mod border;
pub mod color;
pub mod font;
pub mod order;
pub mod spaceing;
pub mod svg;

pub use border::BorderPart;
pub use border::BorderStyle;
pub use border::Radius;
pub use color::Alpha;
pub use color::BackgroundColor;
pub use color::Blue;
pub use color::Color;
pub use color::ForegroundColor;
pub use color::Green;
pub use color::Red;
pub use color::SvgColor;
pub use font::ApplyableFont;
pub use font::DefaultFontFamily;
pub use font::FontFamily;
pub use font::FontStyle;
pub use font::IsItalic;
pub use font::IsStrikethrough;
pub use font::IsUnderline;
pub use font::Weight;
pub use order::Align;
pub use order::Order;
pub use spaceing::Gap;
pub use spaceing::Padding;
pub use svg::StrokeLinecap;
pub use svg::StrokeLinejoin;

use vstd::prelude::*;

verus! {

/// Indicates whether an element should be displayed.
///
/// A helper alias that serves as a replacement for `Option` in certain cases.
pub type Show = bool;

/// Represents a path to a destination.
pub type Path = String;

/// Represents a size value.
///
/// By default a size is assumed to be in pixels, but specific layouts may
/// interpret it differently.
pub type Size = u64;

/// Represents a hyperlink target, for example an HTML `href` attribute.
pub type Link = Option<Path>;

/// Represents the width of an element, presumably in pixels.
pub type Width = Size;

/// Represents the height of an element, presumably in pixels.
pub type Height = Size;

} // verus!
