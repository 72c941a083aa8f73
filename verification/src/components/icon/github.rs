//! A ready-made icon taken from the Tabler icon set.

use crate::aspects::StrokeLinecap;
use crate::aspects::StrokeLinejoin;
use crate::aspects::SvgColor;
use crate::components::icon::icon;
use crate::components::icon::Icon;
use vstd::prelude::*;

verus! {

/// Return an [`Icon`] with the outlined GitHub mark: a backdrop path and
/// the mark itself, stroked in the current color at width 2, with round
/// caps and joins, a `0 0 24 24` viewBox and a 60 by 60 size.
pub fn github_outlined() -> (r: Icon)
    ensures
        r.content@.len() == 2,
        r.content@[0]@ == "M0 0h24v24H0z"@,
        r.content@[1]@ == "M9 19c-4.3 1.4 -4.3 -2.5 -6 -3m12 5v-3.5c0 -1 .1 -1.4 -.5 -2c2.8 -.3 5.5 -1.4 5.5 -6a4.6 4.6 0 0 0 -1.3 -3.2a4.2 4.2 0 0 0 -.1 -3.2s-1.1 -.3 -3.5 1.3a12.3 12.3 0 0 0 -6.2 0c-2.4 -1.6 -3.5 -1.3 -3.5 -1.3a4.2 4.2 0 0 0 -.1 3.2a4.6 4.6 0 0 0 -1.3 3.2c0 4.6 2.7 5.7 5.5 6c-.6 .6 -.6 1.2 -.5 2v3.5"@,
        r.foreground_color == SvgColor::CurrentColor,
        r.background_color == SvgColor::NoColor,
        r.width == 60u64,
        r.height == 60u64,
        r.stroke_linecap == Some(StrokeLinecap::Round),
        r.stroke_linejoin == Some(StrokeLinejoin::Round),
        r.stroke_width matches Some(w) && w@ == "2"@,
        r.view_box == (0u8, 0u8, 24u8, 24u8),
{
    icon().contents(
        vec![
            "M0 0h24v24H0z",
            "M9 19c-4.3 1.4 -4.3 -2.5 -6 -3m12 5v-3.5c0 -1 .1 -1.4 -.5 -2c2.8 -.3 5.5 -1.4 5.5 -6a4.6 4.6 0 0 0 -1.3 -3.2a4.2 4.2 0 0 0 -.1 -3.2s-1.1 -.3 -3.5 1.3a12.3 12.3 0 0 0 -6.2 0c-2.4 -1.6 -3.5 -1.3 -3.5 -1.3a4.2 4.2 0 0 0 -.1 3.2a4.6 4.6 0 0 0 -1.3 3.2c0 4.6 2.7 5.7 5.5 6c-.6 .6 -.6 1.2 -.5 2v3.5",
        ],
    ).stroke_width("2").stroke_linecap(StrokeLinecap::Round).stroke_linejoin(
        StrokeLinejoin::Round,
    ).view_box((0, 0, 24, 24)).size(60).foreground_color_current_color().background_color_none()
}

} // verus!
