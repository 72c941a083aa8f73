//! Icon component.
//!
//! An icon is a set of SVG path-data strings plus the attributes of the
//! surrounding `<svg>` tag: colors, dimensions, viewBox and optional
//! stroke settings.

pub mod github;

use crate::aspects::Height;
use crate::aspects::Path;
use crate::aspects::Size;
use crate::aspects::StrokeLinecap;
use crate::aspects::StrokeLinejoin;
use crate::aspects::SvgColor;
use crate::aspects::Width;
use vstd::prelude::*;

verus! {

/// Represents SVG settings: content paths, colors, dimensions, and the
/// optional stroke attributes.
#[derive(Debug, PartialEq)]
pub struct Icon {
    /// Content paths of the SVG.
    pub content: Vec<Path>,
    /// Foreground (stroke) color of the SVG.
    pub foreground_color: SvgColor,
    /// Background (fill) color of the SVG.
    pub background_color: SvgColor,
    /// Width of the SVG.
    pub width: Width,
    /// Height of the SVG.
    pub height: Height,
    /// Line cap style for strokes; emitted only when set.
    pub stroke_linecap: Option<StrokeLinecap>,
    /// Line join style for strokes; emitted only when set.
    pub stroke_linejoin: Option<StrokeLinejoin>,
    /// Width of the stroke lines, as the literal attribute token;
    /// emitted only when set.
    pub stroke_width: Option<String>,
    /// ViewBox dimensions of the SVG.
    pub view_box: (u8, u8, u8, u8),
}

/// The mathematical model of an [`Icon`]: its path strings as character
/// sequences.
pub ghost struct IconModel {
    /// Content paths.
    pub content: Seq<Seq<char>>,
    /// Foreground (stroke) color.
    pub foreground_color: crate::aspects::color::SvgColorModel,
    /// Background (fill) color.
    pub background_color: crate::aspects::color::SvgColorModel,
    /// Width.
    pub width: Width,
    /// Height.
    pub height: Height,
    /// Optional line cap style.
    pub stroke_linecap: Option<StrokeLinecap>,
    /// Optional line join style.
    pub stroke_linejoin: Option<StrokeLinejoin>,
    /// Optional stroke width token.
    pub stroke_width: Option<Seq<char>>,
    /// ViewBox dimensions.
    pub view_box: (u8, u8, u8, u8),
}

impl View for Icon {
    type V = IconModel;

    open spec fn view(&self) -> IconModel {
        IconModel {
            content: self.content@.map_values(|p: Path| p@),
            foreground_color: self.foreground_color@,
            background_color: self.background_color@,
            width: self.width,
            height: self.height,
            stroke_linecap: self.stroke_linecap,
            stroke_linejoin: self.stroke_linejoin,
            stroke_width: match self.stroke_width {
                Some(w) => Some(w@),
                None => None,
            },
            view_box: self.view_box,
        }
    }
}

impl Clone for Icon {
    fn clone(&self) -> (res: Self)
        ensures
            res@ == self@,
    {
        let content = self.content.clone();
        proof {
            assert(content@ =~= self.content@);
            assert(content@.map_values(|p: Path| p@) =~= self.content@.map_values(|p: Path| p@));
        }
        Icon {
            content,
            foreground_color: self.foreground_color.clone(),
            background_color: self.background_color.clone(),
            width: self.width,
            height: self.height,
            stroke_linecap: self.stroke_linecap,
            stroke_linejoin: self.stroke_linejoin,
            stroke_width: match &self.stroke_width {
                Some(w) => Some(w.clone()),
                None => None,
            },
            view_box: self.view_box,
        }
    }
}

/// Whether an [`Icon`] holds exactly the default values: no paths, no
/// colors, zero dimensions, no stroke attributes, and an all-zero viewBox.
pub open spec fn is_default_icon(i: Icon) -> bool {
    &&& i.content@ == Seq::<Path>::empty()
    &&& i.foreground_color == SvgColor::NoColor
    &&& i.background_color == SvgColor::NoColor
    &&& i.width == 0u64
    &&& i.height == 0u64
    &&& i.stroke_linecap is None
    &&& i.stroke_linejoin is None
    &&& i.stroke_width is None
    &&& i.view_box == (0u8, 0u8, 0u8, 0u8)
}

/// Return a default [`Icon`] instance.
pub fn icon() -> (r: Icon)
    ensures
        is_default_icon(r),
{
    Icon::default()
}

impl Default for Icon {
    fn default() -> (r: Self)
        ensures
            is_default_icon(r),
    {
        Icon {
            content: Vec::new(),
            foreground_color: SvgColor::NoColor,
            background_color: SvgColor::NoColor,
            width: 0,
            height: 0,
            stroke_linecap: None,
            stroke_linejoin: None,
            stroke_width: None,
            view_box: (0, 0, 0, 0),
        }
    }
}

impl Icon {
    /// Retrieves the content paths of the SVG.
    pub fn get_content(&self) -> (r: &[Path])
        ensures
            r@ == self.content@,
    {
        self.content.as_slice()
    }

    /// Retrieves the foreground color of the SVG.
    pub fn get_foreground_color(&self) -> (r: &SvgColor)
        ensures
            *r == self.foreground_color,
    {
        &self.foreground_color
    }

    /// Retrieves the background color of the SVG.
    pub fn get_background_color(&self) -> (r: &SvgColor)
        ensures
            *r == self.background_color,
    {
        &self.background_color
    }

    /// Retrieves the width of the SVG.
    pub fn get_width(&self) -> (r: Width)
        ensures
            r == self.width,
    {
        self.width
    }

    /// Retrieves the height of the SVG.
    pub fn get_height(&self) -> (r: Height)
        ensures
            r == self.height,
    {
        self.height
    }

    /// Adds a new content path to the SVG.
    pub fn content(self, content: &str) -> (r: Self)
        ensures
            r.content@.len() == self.content@.len() + 1,
            forall|i: int| 0 <= i < self.content@.len() ==> r.content@[i] == self.content@[i],
            r.content@[self.content@.len() as int]@ == content@,
            r.foreground_color == self.foreground_color,
            r.background_color == self.background_color,
            r.width == self.width,
            r.height == self.height,
            r.stroke_linecap == self.stroke_linecap,
            r.stroke_linejoin == self.stroke_linejoin,
            r.stroke_width == self.stroke_width,
            r.view_box == self.view_box,
    {
        let mut s = self;
        s.content.push(content.to_owned());
        s
    }

    /// Adds multiple content paths to the SVG.
    pub fn contents(self, content: Vec<&str>) -> (r: Self)
        ensures
            r.content@.len() == self.content@.len() + content@.len(),
            forall|i: int| 0 <= i < self.content@.len() ==> r.content@[i] == self.content@[i],
            forall|i: int|
                0 <= i < content@.len() ==> r.content@[self.content@.len() + i]@ == content@[i]@,
            r.foreground_color == self.foreground_color,
            r.background_color == self.background_color,
            r.width == self.width,
            r.height == self.height,
            r.stroke_linecap == self.stroke_linecap,
            r.stroke_linejoin == self.stroke_linejoin,
            r.stroke_width == self.stroke_width,
            r.view_box == self.view_box,
    {
        let mut s = self;
        let ghost orig = s;
        let mut k: usize = 0;
        while k < content.len()
            invariant
                k <= content@.len(),
                s.content@.len() == orig.content@.len() + k,
                forall|i: int| 0 <= i < orig.content@.len() ==> s.content@[i] == orig.content@[i],
                forall|i: int| 0 <= i < k ==> s.content@[orig.content@.len() + i]@ == content@[i]@,
                s.foreground_color == orig.foreground_color,
                s.background_color == orig.background_color,
                s.width == orig.width,
                s.height == orig.height,
                s.stroke_linecap == orig.stroke_linecap,
                s.stroke_linejoin == orig.stroke_linejoin,
                s.stroke_width == orig.stroke_width,
                s.view_box == orig.view_box,
            decreases content@.len() - k,
        {
            s.content.push(content[k].to_owned());
            k = k + 1;
        }
        s
    }

    /// Sets the foreground color of the SVG to a literal color string.
    pub fn foreground_color(self, foreground_color: &str) -> (r: Self)
        ensures
            r.foreground_color matches SvgColor::Color(c) && c@ == foreground_color@,
            r.content == self.content,
            r.background_color == self.background_color,
            r.width == self.width,
            r.height == self.height,
            r.stroke_linecap == self.stroke_linecap,
            r.stroke_linejoin == self.stroke_linejoin,
            r.stroke_width == self.stroke_width,
            r.view_box == self.view_box,
    {
        let mut s = self;
        s.foreground_color = SvgColor::Color(foreground_color.to_owned());
        s
    }

    /// Removes the foreground color of the SVG.
    pub fn foreground_color_none(self) -> (r: Self)
        ensures
            r.foreground_color == SvgColor::NoColor,
            r.content == self.content,
            r.background_color == self.background_color,
            r.width == self.width,
            r.height == self.height,
            r.stroke_linecap == self.stroke_linecap,
            r.stroke_linejoin == self.stroke_linejoin,
            r.stroke_width == self.stroke_width,
            r.view_box == self.view_box,
    {
        let mut s = self;
        s.foreground_color = SvgColor::NoColor;
        s
    }

    /// Sets the foreground color to `currentColor`.
    pub fn foreground_color_current_color(self) -> (r: Self)
        ensures
            r.foreground_color == SvgColor::CurrentColor,
            r.content == self.content,
            r.background_color == self.background_color,
            r.width == self.width,
            r.height == self.height,
            r.stroke_linecap == self.stroke_linecap,
            r.stroke_linejoin == self.stroke_linejoin,
            r.stroke_width == self.stroke_width,
            r.view_box == self.view_box,
    {
        let mut s = self;
        s.foreground_color = SvgColor::CurrentColor;
        s
    }

    /// Sets the background color of the SVG to a literal color string.
    pub fn background_color(self, background_color: &str) -> (r: Self)
        ensures
            r.background_color matches SvgColor::Color(c) && c@ == background_color@,
            r.content == self.content,
            r.foreground_color == self.foreground_color,
            r.width == self.width,
            r.height == self.height,
            r.stroke_linecap == self.stroke_linecap,
            r.stroke_linejoin == self.stroke_linejoin,
            r.stroke_width == self.stroke_width,
            r.view_box == self.view_box,
    {
        let mut s = self;
        s.background_color = SvgColor::Color(background_color.to_owned());
        s
    }

    /// Removes the background color of the SVG.
    pub fn background_color_none(self) -> (r: Self)
        ensures
            r.background_color == SvgColor::NoColor,
            r.content == self.content,
            r.foreground_color == self.foreground_color,
            r.width == self.width,
            r.height == self.height,
            r.stroke_linecap == self.stroke_linecap,
            r.stroke_linejoin == self.stroke_linejoin,
            r.stroke_width == self.stroke_width,
            r.view_box == self.view_box,
    {
        let mut s = self;
        s.background_color = SvgColor::NoColor;
        s
    }

    /// Sets the background color to `currentColor`.
    pub fn background_color_current_color(self) -> (r: Self)
        ensures
            r.background_color == SvgColor::CurrentColor,
            r.content == self.content,
            r.foreground_color == self.foreground_color,
            r.width == self.width,
            r.height == self.height,
            r.stroke_linecap == self.stroke_linecap,
            r.stroke_linejoin == self.stroke_linejoin,
            r.stroke_width == self.stroke_width,
            r.view_box == self.view_box,
    {
        let mut s = self;
        s.background_color = SvgColor::CurrentColor;
        s
    }

    /// Sets the width of the SVG.
    pub fn width(self, width: Width) -> (r: Self)
        ensures
            r.width == width,
            r.content == self.content,
            r.foreground_color == self.foreground_color,
            r.background_color == self.background_color,
            r.height == self.height,
            r.stroke_linecap == self.stroke_linecap,
            r.stroke_linejoin == self.stroke_linejoin,
            r.stroke_width == self.stroke_width,
            r.view_box == self.view_box,
    {
        let mut s = self;
        s.width = width;
        s
    }

    /// Sets the height of the SVG.
    pub fn height(self, height: Height) -> (r: Self)
        ensures
            r.height == height,
            r.content == self.content,
            r.foreground_color == self.foreground_color,
            r.background_color == self.background_color,
            r.width == self.width,
            r.stroke_linecap == self.stroke_linecap,
            r.stroke_linejoin == self.stroke_linejoin,
            r.stroke_width == self.stroke_width,
            r.view_box == self.view_box,
    {
        let mut s = self;
        s.height = height;
        s
    }

    /// Sets both width and height of the SVG.
    pub fn size(self, size: Size) -> (r: Self)
        ensures
            r.width == size,
            r.height == size,
            r.content == self.content,
            r.foreground_color == self.foreground_color,
            r.background_color == self.background_color,
            r.stroke_linecap == self.stroke_linecap,
            r.stroke_linejoin == self.stroke_linejoin,
            r.stroke_width == self.stroke_width,
            r.view_box == self.view_box,
    {
        let mut s = self;
        s.width = size;
        s.height = size;
        s
    }

    /// Retrieves the stroke line join style of the SVG.
    pub fn get_stroke_linejoin(&self) -> (r: Option<StrokeLinejoin>)
        ensures
            r == self.stroke_linejoin,
    {
        self.stroke_linejoin
    }

    /// Retrieves the stroke width token of the SVG.
    pub fn get_stroke_width(&self) -> (r: &Option<String>)
        ensures
            *r == self.stroke_width,
    {
        &self.stroke_width
    }

    /// Retrieves the viewBox dimensions of the SVG.
    pub fn get_view_box(&self) -> (r: (u8, u8, u8, u8))
        ensures
            r == self.view_box,
    {
        self.view_box
    }

    /// Retrieves the stroke line cap style of the SVG.
    pub fn get_stroke_linecap(&self) -> (r: Option<StrokeLinecap>)
        ensures
            r == self.stroke_linecap,
    {
        self.stroke_linecap
    }

    /// Sets the stroke line join style of the SVG.
    pub fn stroke_linejoin(self, stroke_linejoin: StrokeLinejoin) -> (r: Self)
        ensures
            r.stroke_linejoin == Some(stroke_linejoin),
            r.content == self.content,
            r.foreground_color == self.foreground_color,
            r.background_color == self.background_color,
            r.width == self.width,
            r.height == self.height,
            r.stroke_linecap == self.stroke_linecap,
            r.stroke_width == self.stroke_width,
            r.view_box == self.view_box,
    {
        let mut s = self;
        s.stroke_linejoin = Some(stroke_linejoin);
        s
    }

    /// Sets the stroke width of the SVG, as the literal attribute token.
    pub fn stroke_width(self, stroke_width: &str) -> (r: Self)
        ensures
            r.stroke_width matches Some(w) && w@ == stroke_width@,
            r.content == self.content,
            r.foreground_color == self.foreground_color,
            r.background_color == self.background_color,
            r.width == self.width,
            r.height == self.height,
            r.stroke_linecap == self.stroke_linecap,
            r.stroke_linejoin == self.stroke_linejoin,
            r.view_box == self.view_box,
    {
        let mut s = self;
        s.stroke_width = Some(stroke_width.to_owned());
        s
    }

    /// Sets the viewBox dimensions of the SVG.
    pub fn view_box(self, view_box: (u8, u8, u8, u8)) -> (r: Self)
        ensures
            r.view_box == view_box,
            r.content == self.content,
            r.foreground_color == self.foreground_color,
            r.background_color == self.background_color,
            r.width == self.width,
            r.height == self.height,
            r.stroke_linecap == self.stroke_linecap,
            r.stroke_linejoin == self.stroke_linejoin,
            r.stroke_width == self.stroke_width,
    {
        let mut s = self;
        s.view_box = view_box;
        s
    }

    /// Sets the stroke line cap style of the SVG.
    pub fn stroke_linecap(self, stroke_linecap: StrokeLinecap) -> (r: Self)
        ensures
            r.stroke_linecap == Some(stroke_linecap),
            r.content == self.content,
            r.foreground_color == self.foreground_color,
            r.background_color == self.background_color,
            r.width == self.width,
            r.height == self.height,
            r.stroke_linejoin == self.stroke_linejoin,
            r.stroke_width == self.stroke_width,
            r.view_box == self.view_box,
    {
        let mut s = self;
        s.stroke_linecap = Some(stroke_linecap);
        s
    }
}

} // verus!
