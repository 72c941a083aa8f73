//! Text constructors with fixed sizes, following the common font-size scale
//! from `xs` up to `9xl`.

use crate::aspects::DefaultFontFamily;
use crate::aspects::Weight;
use crate::components::text::text;
use crate::components::text::Text;
use vstd::prelude::*;

verus! {

/// Whether `t` is a text component with the given content and size, a dark
/// opaque foreground, the given fallback family, and every other aspect at
/// its default.
pub open spec fn is_sized_text(
    t: Text,
    content: Seq<char>,
    size: u64,
    family: DefaultFontFamily,
) -> bool {
    &&& t.content@ == content
    &&& t.font_style.0 == size
    &&& t.foreground_color == (0u8, 0u8, 0u8, 100u8)
    &&& t.background_color == (0u8, 0u8, 0u8, 0u8)
    &&& t.font_style.1 == Weight::Normal
    &&& !t.font_style.2
    &&& !t.font_style.3
    &&& !t.font_style.4
    &&& t.font_style.5.0@ == Seq::<char>::empty()
    &&& t.font_style.5.1 == family
    &&& t.link is None
}

/// Text with a 128 px size and a dark color font.
pub fn text_9xl(content: &str) -> (r: Text)
    ensures
        is_sized_text(r, content@, 128, DefaultFontFamily::SansSerif),
{
    text().content(content).size(128).foreground_color((0, 0, 0, 100))
}

/// Text with a 96 px size and a dark color font.
pub fn text_8xl(content: &str) -> (r: Text)
    ensures
        is_sized_text(r, content@, 96, DefaultFontFamily::SansSerif),
{
    text().content(content).size(96).foreground_color((0, 0, 0, 100))
}

/// Text with a 72 px size and a dark color font.
pub fn text_7xl(content: &str) -> (r: Text)
    ensures
        is_sized_text(r, content@, 72, DefaultFontFamily::SansSerif),
{
    text().content(content).size(72).foreground_color((0, 0, 0, 100))
}

/// Text with a 60 px size and a dark color font.
pub fn text_6xl(content: &str) -> (r: Text)
    ensures
        is_sized_text(r, content@, 60, DefaultFontFamily::SansSerif),
{
    text().content(content).size(60).foreground_color((0, 0, 0, 100))
}

/// Text with a 48 px size and a dark color font.
pub fn text_5xl(content: &str) -> (r: Text)
    ensures
        is_sized_text(r, content@, 48, DefaultFontFamily::SansSerif),
{
    text().content(content).size(48).foreground_color((0, 0, 0, 100))
}

/// Text with a 36 px size and a dark color font.
pub fn text_4xl(content: &str) -> (r: Text)
    ensures
        is_sized_text(r, content@, 36, DefaultFontFamily::SansSerif),
{
    text().content(content).size(36).foreground_color((0, 0, 0, 100))
}

/// Text with a 30 px size and a dark color font.
pub fn text_3xl(content: &str) -> (r: Text)
    ensures
        is_sized_text(r, content@, 30, DefaultFontFamily::SansSerif),
{
    text().content(content).size(30).foreground_color((0, 0, 0, 100))
}

/// Text with a 24 px size and a dark color font.
pub fn text_2xl(content: &str) -> (r: Text)
    ensures
        is_sized_text(r, content@, 24, DefaultFontFamily::SansSerif),
{
    text().content(content).size(24).foreground_color((0, 0, 0, 100))
}

/// Text with a 20 px size and a dark color font.
pub fn text_xl(content: &str) -> (r: Text)
    ensures
        is_sized_text(r, content@, 20, DefaultFontFamily::SansSerif),
{
    text().content(content).size(20).foreground_color((0, 0, 0, 100))
}

/// Text with an 18 px size and a dark color font.
pub fn text_lg(content: &str) -> (r: Text)
    ensures
        is_sized_text(r, content@, 18, DefaultFontFamily::SansSerif),
{
    text().content(content).size(18).foreground_color((0, 0, 0, 100))
}

/// Text with a 16 px size and a dark color font.
pub fn text_base(content: &str) -> (r: Text)
    ensures
        is_sized_text(r, content@, 16, DefaultFontFamily::SansSerif),
{
    text().content(content).size(16).foreground_color((0, 0, 0, 100))
}

/// Text with a 14 px size and a dark color font.
pub fn text_sm(content: &str) -> (r: Text)
    ensures
        is_sized_text(r, content@, 14, DefaultFontFamily::SansSerif),
{
    text().content(content).size(14).foreground_color((0, 0, 0, 100))
}

/// Text with a 12 px size and a dark color font.
pub fn text_xs(content: &str) -> (r: Text)
    ensures
        is_sized_text(r, content@, 12, DefaultFontFamily::SansSerif),
{
    text().content(content).size(12).foreground_color((0, 0, 0, 100))
}

/// Monospace text with a 128 px size and a dark color font.
pub fn mono_text_9xl(content: &str) -> (r: Text)
    ensures
        is_sized_text(r, content@, 128, DefaultFontFamily::Monospace),
{
    text_9xl(content).font_default(DefaultFontFamily::Monospace)
}

/// Monospace text with a 96 px size and a dark color font.
pub fn mono_text_8xl(content: &str) -> (r: Text)
    ensures
        is_sized_text(r, content@, 96, DefaultFontFamily::Monospace),
{
    text_8xl(content).font_default(DefaultFontFamily::Monospace)
}

/// Monospace text with a 72 px size and a dark color font.
pub fn mono_text_7xl(content: &str) -> (r: Text)
    ensures
        is_sized_text(r, content@, 72, DefaultFontFamily::Monospace),
{
    text_7xl(content).font_default(DefaultFontFamily::Monospace)
}

/// Monospace text with a 60 px size and a dark color font.
pub fn mono_text_6xl(content: &str) -> (r: Text)
    ensures
        is_sized_text(r, content@, 60, DefaultFontFamily::Monospace),
{
    text_6xl(content).font_default(DefaultFontFamily::Monospace)
}

/// Monospace text with a 48 px size and a dark color font.
pub fn mono_text_5xl(content: &str) -> (r: Text)
    ensures
        is_sized_text(r, content@, 48, DefaultFontFamily::Monospace),
{
    text_5xl(content).font_default(DefaultFontFamily::Monospace)
}

/// Monospace text with a 36 px size and a dark color font.
pub fn mono_text_4xl(content: &str) -> (r: Text)
    ensures
        is_sized_text(r, content@, 36, DefaultFontFamily::Monospace),
{
    text_4xl(content).font_default(DefaultFontFamily::Monospace)
}

/// Monospace text with a 30 px size and a dark color font.
pub fn mono_text_3xl(content: &str) -> (r: Text)
    ensures
        is_sized_text(r, content@, 30, DefaultFontFamily::Monospace),
{
    text_3xl(content).font_default(DefaultFontFamily::Monospace)
}

/// Monospace text with a 24 px size and a dark color font.
pub fn mono_text_2xl(content: &str) -> (r: Text)
    ensures
        is_sized_text(r, content@, 24, DefaultFontFamily::Monospace),
{
    text_2xl(content).font_default(DefaultFontFamily::Monospace)
}

/// Monospace text with a 20 px size and a dark color font.
pub fn mono_text_xl(content: &str) -> (r: Text)
    ensures
        is_sized_text(r, content@, 20, DefaultFontFamily::Monospace),
{
    text_xl(content).font_default(DefaultFontFamily::Monospace)
}

/// Monospace text with an 18 px size and a dark color font.
pub fn mono_text_lg(content: &str) -> (r: Text)
    ensures
        is_sized_text(r, content@, 18, DefaultFontFamily::Monospace),
{
    text_lg(content).font_default(DefaultFontFamily::Monospace)
}

/// Monospace text with a 16 px size and a dark color font.
pub fn mono_text_base(content: &str) -> (r: Text)
    ensures
        is_sized_text(r, content@, 16, DefaultFontFamily::Monospace),
{
    text_base(content).font_default(DefaultFontFamily::Monospace)
}

/// Monospace text with a 14 px size and a dark color font.
pub fn mono_text_sm(content: &str) -> (r: Text)
    ensures
        is_sized_text(r, content@, 14, DefaultFontFamily::Monospace),
{
    text_sm(content).font_default(DefaultFontFamily::Monospace)
}

/// Monospace text with a 12 px size and a dark color font.
pub fn mono_text_xs(content: &str) -> (r: Text)
    ensures
        is_sized_text(r, content@, 12, DefaultFontFamily::Monospace),
{
    text_xs(content).font_default(DefaultFontFamily::Monospace)
}

} // verus!
