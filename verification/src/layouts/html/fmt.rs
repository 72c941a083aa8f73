//! Verified numeric formatting for the markup output.

use crate::aspects::Color;
use vstd::prelude::*;
use vstd::string::StringExecFns;

verus! {

/// The digit character of a value from 0 to 9.
pub open spec fn dec_digit(d: int) -> Seq<char> {
    if d == 0 {
        "0"@
    } else if d == 1 {
        "1"@
    } else if d == 2 {
        "2"@
    } else if d == 3 {
        "3"@
    } else if d == 4 {
        "4"@
    } else if d == 5 {
        "5"@
    } else if d == 6 {
        "6"@
    } else if d == 7 {
        "7"@
    } else if d == 8 {
        "8"@
    } else {
        "9"@
    }
}

/// The decimal digits of `v`, as ordinary base-10 formatting writes them:
/// most significant first, without leading zeros, a single `0` for zero.
pub open spec fn dec_str(v: int) -> Seq<char>
    decreases v,
{
    if v < 10 {
        dec_digit(v)
    } else {
        dec_str(v / 10) + dec_digit(v % 10)
    }
}

/// A decimal rendering is never empty: every value has at least one
/// digit.
pub proof fn lemma_dec_str_len(v: int)
    ensures
        dec_str(v).len() > 0,
    decreases v,
{
    reveal_strlit("0");
    reveal_strlit("1");
    reveal_strlit("2");
    reveal_strlit("3");
    reveal_strlit("4");
    reveal_strlit("5");
    reveal_strlit("6");
    reveal_strlit("7");
    reveal_strlit("8");
    reveal_strlit("9");
    if v >= 10 {
        lemma_dec_str_len(v / 10);
    }
}

/// Appends the decimal digits of `v` to `out`.
pub fn push_u64(out: &mut String, v: u64)
    ensures
        final(out)@ == old(out)@ + dec_str(v as int),
    decreases v,
{
    if v >= 10 {
        push_u64(out, v / 10);
    }
    let d: u64 = v % 10;
    if d == 0 {
        out.append("0");
    } else if d == 1 {
        out.append("1");
    } else if d == 2 {
        out.append("2");
    } else if d == 3 {
        out.append("3");
    } else if d == 4 {
        out.append("4");
    } else if d == 5 {
        out.append("5");
    } else if d == 6 {
        out.append("6");
    } else if d == 7 {
        out.append("7");
    } else if d == 8 {
        out.append("8");
    } else {
        out.append("9");
    }
    proof {
        assert(out@ =~= old(out)@ + dec_str(v as int));
    }
}

/// The CSS `rgba(r, g, b, a)` notation of a color, with the raw channel
/// values and the alpha channel emitted as given.
pub open spec fn rgba_text(c: Color) -> Seq<char> {
    "rgba("@ + dec_str(c.0 as int) + ", "@ + dec_str(c.1 as int) + ", "@ + dec_str(c.2 as int)
        + ", "@ + dec_str(c.3 as int) + ")"@
}

/// The CSS `background-color` declaration of a color.
pub open spec fn background_color_decl(c: Color) -> Seq<char> {
    "background-color: "@ + rgba_text(c) + ";"@
}

/// Appends the `background-color` declaration of `c` to `out`.
pub fn push_background_color_decl(out: &mut String, c: &Color)
    ensures
        final(out)@ == old(out)@ + background_color_decl(*c),
{
    out.append("background-color: ");
    push_rgba(out, c);
    out.append(";");
    proof {
        assert(out@ =~= old(out)@ + background_color_decl(*c));
    }
}

/// Appends the `rgba(...)` notation of `c` to `out`.
pub fn push_rgba(out: &mut String, c: &Color)
    ensures
        final(out)@ == old(out)@ + rgba_text(*c),
{
    out.append("rgba(");
    push_u64(out, c.0 as u64);
    out.append(", ");
    push_u64(out, c.1 as u64);
    out.append(", ");
    push_u64(out, c.2 as u64);
    out.append(", ");
    push_u64(out, c.3 as u64);
    out.append(")");
    proof {
        assert(out@ =~= old(out)@ + rgba_text(*c));
    }
}

} // verus!
