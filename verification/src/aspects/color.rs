//! Color aspect types.

use vstd::prelude::*;

verus! {

/// Red channel, 0 to 255.
pub type Red = u8;

/// Green channel, 0 to 255.
pub type Green = u8;

/// Blue channel, 0 to 255.
pub type Blue = u8;

/// Alpha channel. Treated as an opaque integer by the compiler: it is
/// emitted as given, not normalized.
pub type Alpha = u8;

/// A color as `(red, green, blue, alpha)`.
pub type Color = (Red, Green, Blue, Alpha);

/// Color of text and similar foreground content.
///
/// A border carries its own color.
pub type ForegroundColor = Color;

/// Color of a background.
pub type BackgroundColor = Color;

/// A color choice for SVG fill and stroke attributes.
///
/// SVG needs literal tokens such as `currentColor`, so this is distinct from
/// the numeric [`Color`] quadruple.
#[derive(Debug, PartialEq, Eq)]
pub enum SvgColor {
    /// No color; renders as the literal string `None`.
    NoColor,
    /// The literal token `currentColor`.
    CurrentColor,
    /// A literal color string, for example a hex value or a color name.
    Color(String),
}

/// The mathematical model of an [`SvgColor`]: the color string as a
/// character sequence.
pub ghost enum SvgColorModel {
    /// No color.
    NoColor,
    /// The literal token `currentColor`.
    CurrentColor,
    /// A literal color string.
    Color(Seq<char>),
}

impl View for SvgColor {
    type V = SvgColorModel;

    open spec fn view(&self) -> SvgColorModel {
        match self {
            SvgColor::NoColor => SvgColorModel::NoColor,
            SvgColor::CurrentColor => SvgColorModel::CurrentColor,
            SvgColor::Color(color) => SvgColorModel::Color(color@),
        }
    }
}

/// The text an [`SvgColor`] contributes to the markup.
pub open spec fn svg_color_text(c: SvgColorModel) -> Seq<char> {
    match c {
        SvgColorModel::NoColor => "None"@,
        SvgColorModel::CurrentColor => "currentColor"@,
        SvgColorModel::Color(color) => color,
    }
}

impl SvgColor {
    /// The attribute value this color renders as: the variant's literal
    /// token, or the color string verbatim.
    pub fn as_str(&self) -> (r: &str)
        ensures
            r@ == svg_color_text(self@),
    {
        match self {
            SvgColor::NoColor => "None",
            SvgColor::CurrentColor => "currentColor",
            SvgColor::Color(color) => color.as_str(),
        }
    }
}

impl Clone for SvgColor {
    fn clone(&self) -> (res: Self)
        ensures
            res@ == self@,
    {
        match self {
            SvgColor::NoColor => SvgColor::NoColor,
            SvgColor::CurrentColor => SvgColor::CurrentColor,
            SvgColor::Color(color) => SvgColor::Color(color.clone()),
        }
    }
}

impl Default for SvgColor {
    fn default() -> (r: Self)
        ensures
            r == SvgColor::NoColor,
    {
        SvgColor::NoColor
    }
}

} // verus!
