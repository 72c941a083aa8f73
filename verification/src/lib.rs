//! Components for generating non-interactive pages, cards and snippets.
//!
//! A component tree of containers, text and icons, configured through
//! builder-style calls, is compiled into HTML markup with inline CSS.
//! The compiler is a pure function of the tree: every rendering function
//! carries a contract equating its output with a specification-level
//! description of the markup, so the exact bytes produced are pinned down.
//!
//! * [`aspects`] holds the styling value types: colors, borders, fonts,
//!   spacing, alignment and SVG stroke attributes.
//! * [`components`] holds the tree: [`components::Container`] (recursive),
//!   [`components::Text`] and [`components::Icon`] leaves, united under the
//!   [`components::Components`] sum type.
//! * [`layouts`] holds the HTML compiler and the document assembler.

pub mod aspects;
pub mod components;
pub mod layouts;
