//! SVG stroke aspect types.

use vstd::prelude::*;

verus! {

/// The shape used at the corners of stroked paths, as the SVG
/// `stroke-linejoin` attribute names them.
#[derive(Debug, Clone, Copy, PartialEq, Eq, Structural)]
pub enum StrokeLinejoin {
    /// The `arcs` join.
    Arcs,
    /// The `bevel` join.
    Bevel,
    /// The `miter` join.
    Miter,
    /// The `miterClip` join.
    MiterClip,
    /// The `round` join.
    Round,
}

/// The attribute value a [`StrokeLinejoin`] renders as.
pub open spec fn stroke_linejoin_keyword(j: StrokeLinejoin) -> Seq<char> {
    match j {
        StrokeLinejoin::Arcs => "arcs"@,
        StrokeLinejoin::Bevel => "bevel"@,
        StrokeLinejoin::Miter => "miter"@,
        StrokeLinejoin::MiterClip => "miterClip"@,
        StrokeLinejoin::Round => "round"@,
    }
}

impl StrokeLinejoin {
    /// The attribute value this join renders as.
    pub fn as_str(&self) -> (r: &str)
        ensures
            r@ == stroke_linejoin_keyword(*self),
    {
        match self {
            StrokeLinejoin::Arcs => "arcs",
            StrokeLinejoin::Bevel => "bevel",
            StrokeLinejoin::Miter => "miter",
            StrokeLinejoin::MiterClip => "miterClip",
            StrokeLinejoin::Round => "round",
        }
    }
}

impl Default for StrokeLinejoin {
    fn default() -> (r: Self)
        ensures
            r == StrokeLinejoin::Miter,
    {
        StrokeLinejoin::Miter
    }
}

/// The shape used at the ends of open stroked subpaths, as the SVG
/// `stroke-linecap` attribute names them.
#[derive(Debug, Clone, Copy, PartialEq, Eq, Structural)]
pub enum StrokeLinecap {
    /// The `butt` cap.
    Butt,
    /// The `round` cap.
    Round,
    /// The `square` cap.
    Square,
}

/// The attribute value a [`StrokeLinecap`] renders as.
pub open spec fn stroke_linecap_keyword(c: StrokeLinecap) -> Seq<char> {
    match c {
        StrokeLinecap::Butt => "butt"@,
        StrokeLinecap::Round => "round"@,
        StrokeLinecap::Square => "square"@,
    }
}

impl StrokeLinecap {
    /// The attribute value this cap renders as.
    pub fn as_str(&self) -> (r: &str)
        ensures
            r@ == stroke_linecap_keyword(*self),
    {
        match self {
            StrokeLinecap::Butt => "butt",
            StrokeLinecap::Round => "round",
            StrokeLinecap::Square => "square",
        }
    }
}

impl Default for StrokeLinecap {
    fn default() -> (r: Self)
        ensures
            r == StrokeLinecap::Butt,
    {
        StrokeLinecap::Butt
    }
}

} // verus!
