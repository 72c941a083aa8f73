//! Text component.
//!
//! Provides text content with foreground and background colors, a font
//! style, and an optional hyperlink target (used by the HTML layout only).

pub mod h;

use crate::aspects::BackgroundColor;
use crate::aspects::DefaultFontFamily;
use crate::aspects::FontStyle;
use crate::aspects::ForegroundColor;
use crate::aspects::Link;
use crate::aspects::Size;
use crate::aspects::Weight;
use vstd::prelude::*;

verus! {

/// Text representation.
#[derive(Debug, PartialEq)]
pub struct Text {
    /// Content of the text component.
    pub content: String,
    /// Foreground color of the text.
    pub foreground_color: ForegroundColor,
    /// Background color of the text.
    pub background_color: BackgroundColor,
    /// Font style of the text: size, weight, style flags and family.
    pub font_style: FontStyle,
    /// Optional link associated with the text.
    pub link: Link,
}

/// The mathematical model of a [`Text`]: its strings as character
/// sequences, its font style flattened into named fields.
pub ghost struct TextModel {
    /// Content of the text.
    pub content: Seq<char>,
    /// Foreground color.
    pub foreground_color: ForegroundColor,
    /// Background color.
    pub background_color: BackgroundColor,
    /// Font size.
    pub size: Size,
    /// Font weight.
    pub weight: Weight,
    /// Strikethrough flag.
    pub strikethrough: bool,
    /// Underline flag.
    pub underline: bool,
    /// Italic flag.
    pub italic: bool,
    /// Custom font name.
    pub font_custom: Seq<char>,
    /// Default font family fallback.
    pub font_default: DefaultFontFamily,
    /// Optional link target.
    pub link: Option<Seq<char>>,
}

impl View for Text {
    type V = TextModel;

    open spec fn view(&self) -> TextModel {
        TextModel {
            content: self.content@,
            foreground_color: self.foreground_color,
            background_color: self.background_color,
            size: self.font_style.0,
            weight: self.font_style.1,
            strikethrough: self.font_style.2,
            underline: self.font_style.3,
            italic: self.font_style.4,
            font_custom: self.font_style.5.0@,
            font_default: self.font_style.5.1,
            link: match self.link {
                Some(l) => Some(l@),
                None => None,
            },
        }
    }
}

impl Clone for Text {
    fn clone(&self) -> (res: Self)
        ensures
            res@ == self@,
    {
        Text {
            content: self.content.clone(),
            foreground_color: self.foreground_color,
            background_color: self.background_color,
            font_style: (
                self.font_style.0,
                self.font_style.1,
                self.font_style.2,
                self.font_style.3,
                self.font_style.4,
                (self.font_style.5.0.clone(), self.font_style.5.1),
            ),
            link: match &self.link {
                Some(l) => Some(l.clone()),
                None => None,
            },
        }
    }
}

/// Whether a [`Text`] holds exactly the default values: empty content,
/// fully transparent black colors, size 0, normal weight, no style flags,
/// no custom font over the sans-serif family, and no link.
pub open spec fn is_default_text(t: Text) -> bool {
    &&& t.content@ == Seq::<char>::empty()
    &&& t.foreground_color == (0u8, 0u8, 0u8, 0u8)
    &&& t.background_color == (0u8, 0u8, 0u8, 0u8)
    &&& t.font_style.0 == 0u64
    &&& t.font_style.1 == Weight::Normal
    &&& !t.font_style.2
    &&& !t.font_style.3
    &&& !t.font_style.4
    &&& t.font_style.5.0@ == Seq::<char>::empty()
    &&& t.font_style.5.1 == DefaultFontFamily::SansSerif
    &&& t.link is None
}

/// Return a default [`Text`] instance.
pub fn text() -> (r: Text)
    ensures
        is_default_text(r),
{
    Text::default()
}

impl Default for Text {
    fn default() -> (r: Self)
        ensures
            is_default_text(r),
    {
        Text {
            content: String::new(),
            foreground_color: (0, 0, 0, 0),
            background_color: (0, 0, 0, 0),
            font_style: (0, Weight::Normal, false, false, false, (String::new(), DefaultFontFamily::SansSerif)),
            link: None,
        }
    }
}

impl Text {
    /// Set a link for the text component.
    pub fn link(self, link: &str) -> (r: Self)
        ensures
            r.link matches Some(l) && l@ == link@,
            r.content == self.content,
            r.foreground_color == self.foreground_color,
            r.background_color == self.background_color,
            r.font_style == self.font_style,
    {
        let mut s = self;
        s.link = Some(link.to_owned());
        s
    }

    /// Set the content of the text component.
    pub fn content(self, content: &str) -> (r: Self)
        ensures
            r.content@ == content@,
            r.foreground_color == self.foreground_color,
            r.background_color == self.background_color,
            r.font_style == self.font_style,
            r.link == self.link,
    {
        let mut s = self;
        s.content = content.to_owned();
        s
    }

    /// Set the foreground color of the text.
    pub fn foreground_color(self, foreground_color: ForegroundColor) -> (r: Self)
        ensures
            r.foreground_color == foreground_color,
            r.content == self.content,
            r.background_color == self.background_color,
            r.font_style == self.font_style,
            r.link == self.link,
    {
        let mut s = self;
        s.foreground_color = foreground_color;
        s
    }

    /// Set the background color of the text.
    pub fn background_color(self, background_color: BackgroundColor) -> (r: Self)
        ensures
            r.background_color == background_color,
            r.content == self.content,
            r.foreground_color == self.foreground_color,
            r.font_style == self.font_style,
            r.link == self.link,
    {
        let mut s = self;
        s.background_color = background_color;
        s
    }

    /// Set the font size of the text.
    pub fn size(self, size: Size) -> (r: Self)
        ensures
            r.font_style.0 == size,
            r.font_style.1 == self.font_style.1,
            r.font_style.2 == self.font_style.2,
            r.font_style.3 == self.font_style.3,
            r.font_style.4 == self.font_style.4,
            r.font_style.5 == self.font_style.5,
            r.content == self.content,
            r.foreground_color == self.foreground_color,
            r.background_color == self.background_color,
            r.link == self.link,
    {
        let mut s = self;
        let (_, weight, strikethrough, underline, italic, family) = s.font_style;
        s.font_style = (size, weight, strikethrough, underline, italic, family);
        s
    }

    /// Toggle the strikeout style of the text.
    pub fn is_strikeout(self) -> (r: Self)
        ensures
            r.font_style.2 == !self.font_style.2,
            r.font_style.0 == self.font_style.0,
            r.font_style.1 == self.font_style.1,
            r.font_style.3 == self.font_style.3,
            r.font_style.4 == self.font_style.4,
            r.font_style.5 == self.font_style.5,
            r.content == self.content,
            r.foreground_color == self.foreground_color,
            r.background_color == self.background_color,
            r.link == self.link,
    {
        let mut s = self;
        let (size, weight, strikethrough, underline, italic, family) = s.font_style;
        s.font_style = (size, weight, !strikethrough, underline, italic, family);
        s
    }

    /// Toggle the underline style of the text.
    pub fn is_underline(self) -> (r: Self)
        ensures
            r.font_style.3 == !self.font_style.3,
            r.font_style.0 == self.font_style.0,
            r.font_style.1 == self.font_style.1,
            r.font_style.2 == self.font_style.2,
            r.font_style.4 == self.font_style.4,
            r.font_style.5 == self.font_style.5,
            r.content == self.content,
            r.foreground_color == self.foreground_color,
            r.background_color == self.background_color,
            r.link == self.link,
    {
        let mut s = self;
        let (size, weight, strikethrough, underline, italic, family) = s.font_style;
        s.font_style = (size, weight, strikethrough, !underline, italic, family);
        s
    }

    /// Toggle the italic style of the text.
    pub fn is_italic(self) -> (r: Self)
        ensures
            r.font_style.4 == !self.font_style.4,
            r.font_style.0 == self.font_style.0,
            r.font_style.1 == self.font_style.1,
            r.font_style.2 == self.font_style.2,
            r.font_style.3 == self.font_style.3,
            r.font_style.5 == self.font_style.5,
            r.content == self.content,
            r.foreground_color == self.foreground_color,
            r.background_color == self.background_color,
            r.link == self.link,
    {
        let mut s = self;
        let (size, weight, strikethrough, underline, italic, family) = s.font_style;
        s.font_style = (size, weight, strikethrough, underline, !italic, family);
        s
    }

    /// Set the weight of the font.
    pub fn font_weight(self, weight: Weight) -> (r: Self)
        ensures
            r.font_style.1 == weight,
            r.font_style.0 == self.font_style.0,
            r.font_style.2 == self.font_style.2,
            r.font_style.3 == self.font_style.3,
            r.font_style.4 == self.font_style.4,
            r.font_style.5 == self.font_style.5,
            r.content == self.content,
            r.foreground_color == self.foreground_color,
            r.background_color == self.background_color,
            r.link == self.link,
    {
        let mut s = self;
        let (size, _, strikethrough, underline, italic, family) = s.font_style;
        s.font_style = (size, weight, strikethrough, underline, italic, family);
        s
    }

    /// Set a custom font name, attempted before the default family.
    pub fn font_custom(self, name: &str) -> (r: Self)
        ensures
            r.font_style.5.0@ == name@,
            r.font_style.5.1 == self.font_style.5.1,
            r.font_style.0 == self.font_style.0,
            r.font_style.1 == self.font_style.1,
            r.font_style.2 == self.font_style.2,
            r.font_style.3 == self.font_style.3,
            r.font_style.4 == self.font_style.4,
            r.content == self.content,
            r.foreground_color == self.foreground_color,
            r.background_color == self.background_color,
            r.link == self.link,
    {
        let mut s = self;
        let (size, weight, strikethrough, underline, italic, (_, default)) = s.font_style;
        s.font_style = (size, weight, strikethrough, underline, italic, (name.to_owned(), default));
        s
    }

    /// Set the default font family used as the fallback.
    pub fn font_default(self, def: DefaultFontFamily) -> (r: Self)
        ensures
            r.font_style.5.1 == def,
            r.font_style.5.0 == self.font_style.5.0,
            r.font_style.0 == self.font_style.0,
            r.font_style.1 == self.font_style.1,
            r.font_style.2 == self.font_style.2,
            r.font_style.3 == self.font_style.3,
            r.font_style.4 == self.font_style.4,
            r.content == self.content,
            r.foreground_color == self.foreground_color,
            r.background_color == self.background_color,
            r.link == self.link,
    {
        let mut s = self;
        let (size, weight, strikethrough, underline, italic, (custom, _)) = s.font_style;
        s.font_style = (size, weight, strikethrough, underline, italic, (custom, def));
        s
    }

    /// Set the complete [`FontStyle`] directly.
    pub fn font_style(self, font: FontStyle) -> (r: Self)
        ensures
            r.font_style == font,
            r.content == self.content,
            r.foreground_color == self.foreground_color,
            r.background_color == self.background_color,
            r.link == self.link,
    {
        let mut s = self;
        s.font_style = font;
        s
    }

    /// Get the text content.
    pub fn get_content(&self) -> (r: &str)
        ensures
            r@ == self.content@,
    {
        self.content.as_str()
    }

    /// Get the foreground color.
    pub fn get_foreground_color(&self) -> (r: ForegroundColor)
        ensures
            r == self.foreground_color,
    {
        self.foreground_color
    }

    /// Get the background color.
    pub fn get_background_color(&self) -> (r: BackgroundColor)
        ensures
            r == self.background_color,
    {
        self.background_color
    }

    /// Get the font size.
    pub fn get_size(&self) -> (r: Size)
        ensures
            r == self.font_style.0,
    {
        self.font_style.0
    }

    /// Get the complete font style.
    pub fn get_font(&self) -> (r: &FontStyle)
        ensures
            *r == self.font_style,
    {
        &self.font_style
    }

    /// Get the link associated with the text, if any.
    pub fn get_link(&self) -> (r: &Link)
        ensures
            *r == self.link,
    {
        &self.link
    }
}

} // verus!
