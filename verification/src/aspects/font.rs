//! Font aspect types.

use vstd::prelude::*;

verus! {

/// Font settings of a text component: size, weight, the three style flags
/// (strikethrough, underline, italic), and the font family.
pub type FontStyle = (
    crate::aspects::Size,
    Weight,
    IsStrikethrough,
    IsUnderline,
    IsItalic,
    FontFamily,
);

/// A custom font name, attempted before the default family.
pub type ApplyableFont = String;

/// A font family: the custom name first, the default family as fallback.
pub type FontFamily = (ApplyableFont, DefaultFontFamily);

/// Is the text struck through.
pub type IsStrikethrough = crate::aspects::Show;

/// Is the text underlined.
pub type IsUnderline = crate::aspects::Show;

/// Is the text italic.
pub type IsItalic = crate::aspects::Show;

/// The generic font families of CSS.
#[derive(Debug, Clone, Copy, PartialEq, Eq, Structural)]
pub enum DefaultFontFamily {
    /// The `serif` family.
    Serif,
    /// The `sans-serif` family.
    SansSerif,
    /// The `monospace` family.
    Monospace,
    /// The `cursive` family.
    Cursive,
    /// The `fantasy` family.
    Fantasy,
    /// The `system-ui` family.
    SystemUi,
}

/// The CSS keyword a [`DefaultFontFamily`] renders as.
pub open spec fn font_family_keyword(f: DefaultFontFamily) -> Seq<char> {
    match f {
        DefaultFontFamily::Serif => "serif"@,
        DefaultFontFamily::SansSerif => "sans-serif"@,
        DefaultFontFamily::Monospace => "monospace"@,
        DefaultFontFamily::Cursive => "cursive"@,
        DefaultFontFamily::Fantasy => "fantasy"@,
        DefaultFontFamily::SystemUi => "system-ui"@,
    }
}

impl DefaultFontFamily {
    /// The CSS keyword this family renders as.
    pub fn as_str(&self) -> (r: &str)
        ensures
            r@ == font_family_keyword(*self),
    {
        match self {
            DefaultFontFamily::Serif => "serif",
            DefaultFontFamily::SansSerif => "sans-serif",
            DefaultFontFamily::Monospace => "monospace",
            DefaultFontFamily::Cursive => "cursive",
            DefaultFontFamily::Fantasy => "fantasy",
            DefaultFontFamily::SystemUi => "system-ui",
        }
    }
}

impl Default for DefaultFontFamily {
    fn default() -> (r: Self)
        ensures
            r == DefaultFontFamily::SansSerif,
    {
        DefaultFontFamily::SansSerif
    }
}

/// A font weight, one of the nine named steps of the numeric scale
/// 100 to 900.
#[derive(Debug, Clone, Copy, PartialEq, Eq, Structural)]
pub enum Weight {
    /// 900.
    Heavy,
    /// 800.
    ExtraBold,
    /// 700.
    Bold,
    /// 600.
    SemiBold,
    /// 500.
    Medium,
    /// 400.
    Normal,
    /// 300.
    Light,
    /// 200.
    ExtraLight,
    /// 100.
    Thin,
}

/// The numeric value of a [`Weight`].
pub open spec fn weight_value(w: Weight) -> u64 {
    match w {
        Weight::Heavy => 900,
        Weight::ExtraBold => 800,
        Weight::Bold => 700,
        Weight::SemiBold => 600,
        Weight::Medium => 500,
        Weight::Normal => 400,
        Weight::Light => 300,
        Weight::ExtraLight => 200,
        Weight::Thin => 100,
    }
}

/// The [`Weight`] a numeric value names, if any: the nine multiples of 100
/// from 100 to 900 name a weight, every other value names none.
pub open spec fn weight_of_value(value: u64) -> Option<Weight> {
    if value == 900 {
        Some(Weight::Heavy)
    } else if value == 800 {
        Some(Weight::ExtraBold)
    } else if value == 700 {
        Some(Weight::Bold)
    } else if value == 600 {
        Some(Weight::SemiBold)
    } else if value == 500 {
        Some(Weight::Medium)
    } else if value == 400 {
        Some(Weight::Normal)
    } else if value == 300 {
        Some(Weight::Light)
    } else if value == 200 {
        Some(Weight::ExtraLight)
    } else if value == 100 {
        Some(Weight::Thin)
    } else {
        None
    }
}

impl Weight {
    /// The numeric value of this weight on the 100 to 900 scale.
    pub fn value(&self) -> (r: u64)
        ensures
            r == weight_value(*self),
    {
        match self {
            Weight::Heavy => 900,
            Weight::ExtraBold => 800,
            Weight::Bold => 700,
            Weight::SemiBold => 600,
            Weight::Medium => 500,
            Weight::Normal => 400,
            Weight::Light => 300,
            Weight::ExtraLight => 200,
            Weight::Thin => 100,
        }
    }

    /// The weight a numeric value names: `Some` exactly for the nine
    /// multiples of 100 from 100 to 900, `None` for every other value.
    pub fn try_from_value(value: u64) -> (r: Option<Weight>)
        ensures
            r == weight_of_value(value),
            r is Some <==> weight_of_value(value) is Some,
    {
        if value == 900 {
            Some(Weight::Heavy)
        } else if value == 800 {
            Some(Weight::ExtraBold)
        } else if value == 700 {
            Some(Weight::Bold)
        } else if value == 600 {
            Some(Weight::SemiBold)
        } else if value == 500 {
            Some(Weight::Medium)
        } else if value == 400 {
            Some(Weight::Normal)
        } else if value == 300 {
            Some(Weight::Light)
        } else if value == 200 {
            Some(Weight::ExtraLight)
        } else if value == 100 {
            Some(Weight::Thin)
        } else {
            None
        }
    }

    /// The weight a valid numeric value names.
    ///
    /// A value outside the scale is rejected by the precondition; a caller
    /// holding an arbitrary integer goes through [`Weight::try_from_value`].
    pub fn from_value(value: u64) -> (r: Weight)
        requires
            weight_of_value(value) is Some,
        ensures
            Some(r) == weight_of_value(value),
    {
        match Weight::try_from_value(value) {
            Some(w) => w,
            None => Weight::Normal,
        }
    }
}

impl Default for Weight {
    fn default() -> (r: Self)
        ensures
            r == Weight::Normal,
    {
        Weight::Normal
    }
}

/// The named weights and the numeric scale are in bijection: converting a
/// weight to its numeric value and back yields the original weight, and
/// converting a valid numeric value to its weight and back yields the
/// original value.
pub proof fn lemma_weight_value_round_trip(w: Weight, value: u64)
    ensures
        weight_of_value(weight_value(w)) == Some(w),
        weight_of_value(value) matches Some(back) ==> weight_value(back) == value,
{
}

} // verus!
