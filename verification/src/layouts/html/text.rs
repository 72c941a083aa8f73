//! The HTML compiler for the [`Text`] component.

use crate::aspects::font::font_family_keyword;
use crate::aspects::font::weight_value;
use crate::aspects::Color;
use crate::aspects::DefaultFontFamily;
use crate::aspects::Weight;
use crate::components::text::Text;
use crate::components::text::TextModel;
use crate::layouts::html::fmt::background_color_decl;
use crate::layouts::html::fmt::dec_str;
use crate::layouts::html::fmt::push_background_color_decl;
use crate::layouts::html::fmt::push_rgba;
use crate::layouts::html::fmt::push_u64;
use crate::layouts::html::fmt::rgba_text;
use vstd::prelude::*;
use vstd::string::StringExecFns;

verus! {

/// The tag a text renders as: an anchor when a link is present, a plain
/// division otherwise.
pub open spec fn text_tag(t: TextModel) -> Seq<char> {
    if t.link is Some {
        "a"@
    } else {
        "div"@
    }
}

/// The `href` attribute of a text: the link target verbatim when present,
/// nothing otherwise.
pub open spec fn text_href(t: TextModel) -> Seq<char> {
    match t.link {
        Some(h) => "href=\""@ + h + "\""@,
        None => Seq::<char>::empty(),
    }
}

/// The CSS `color` declaration of a foreground color.
pub open spec fn foreground_color_decl(c: Color) -> Seq<char> {
    "color: "@ + rgba_text(c) + ";"@
}

/// Appends the `color` declaration of `c` to `out`.
fn push_foreground_color_decl(out: &mut String, c: &Color)
    ensures
        final(out)@ == old(out)@ + foreground_color_decl(*c),
{
    out.append("color: ");
    push_rgba(out, c);
    out.append(";");
    proof {
        assert(out@ =~= old(out)@ + foreground_color_decl(*c));
    }
}

/// The CSS `font-size` declaration of a size in pixels.
pub open spec fn font_size_decl(size: u64) -> Seq<char> {
    "font-size: "@ + dec_str(size as int) + "px;"@
}

/// Appends the `font-size` declaration of `size` to `out`.
fn push_font_size_decl(out: &mut String, size: u64)
    ensures
        final(out)@ == old(out)@ + font_size_decl(size),
{
    out.append("font-size: ");
    push_u64(out, size);
    out.append("px;");
    proof {
        assert(out@ =~= old(out)@ + font_size_decl(size));
    }
}

/// The style-flag declarations of a text, in italic, underline,
/// strikethrough order; a cleared flag contributes nothing.
pub open spec fn font_flags_text(strikethrough: bool, underline: bool, italic: bool) -> Seq<char> {
    (if italic {
        "font-style: italic;"@
    } else {
        Seq::<char>::empty()
    }) + (if underline {
        "text-decoration-line: underline;"@
    } else {
        Seq::<char>::empty()
    }) + (if strikethrough {
        "text-decoration-line: line-through;"@
    } else {
        Seq::<char>::empty()
    })
}

/// Appends the style-flag declarations to `out`.
fn push_font_flags(out: &mut String, strikethrough: bool, underline: bool, italic: bool)
    ensures
        final(out)@ == old(out)@ + font_flags_text(strikethrough, underline, italic),
{
    if italic {
        out.append("font-style: italic;");
    }
    if underline {
        out.append("text-decoration-line: underline;");
    }
    if strikethrough {
        out.append("text-decoration-line: line-through;");
    }
    proof {
        assert(out@ =~= old(out)@ + font_flags_text(strikethrough, underline, italic));
    }
}

/// The CSS `font-weight` declaration of a weight: always its numeric
/// value, whichever named variant was chosen.
pub open spec fn font_weight_decl(w: Weight) -> Seq<char> {
    "font-weight: "@ + dec_str(weight_value(w) as int) + ";"@
}

/// Appends the `font-weight` declaration of `w` to `out`.
fn push_font_weight_decl(out: &mut String, w: &Weight)
    ensures
        final(out)@ == old(out)@ + font_weight_decl(*w),
{
    out.append("font-weight: ");
    push_u64(out, w.value());
    out.append(";");
    proof {
        assert(out@ =~= old(out)@ + font_weight_decl(*w));
    }
}

/// The CSS `font-family` declaration: the custom name first, the default
/// family keyword as the literal fallback.
pub open spec fn font_family_decl(custom: Seq<char>, def: DefaultFontFamily) -> Seq<char> {
    "font-family: '"@ + custom + "', "@ + font_family_keyword(def) + ";"@
}

/// Appends the `font-family` declaration to `out`.
fn push_font_family_decl(out: &mut String, custom: &String, def: &DefaultFontFamily)
    ensures
        final(out)@ == old(out)@ + font_family_decl(custom@, *def),
{
    out.append("font-family: '");
    out.append(custom.as_str());
    out.append("', ");
    out.append(def.as_str());
    out.append(";");
    proof {
        assert(out@ =~= old(out)@ + font_family_decl(custom@, *def));
    }
}

/// The whole `style` attribute of a text, with the declarations in this
/// fixed order: background color, foreground color, font size, style
/// flags, font weight, font family.
pub open spec fn text_style_attr(t: TextModel) -> Seq<char> {
    "style=\""@ + background_color_decl(t.background_color) + " "@ + foreground_color_decl(
        t.foreground_color,
    ) + " "@ + font_size_decl(t.size) + " "@ + font_flags_text(
        t.strikethrough,
        t.underline,
        t.italic,
    ) + " "@ + font_weight_decl(t.weight) + " "@ + font_family_decl(t.font_custom, t.font_default)
        + "\""@
}

/// Builds the `style` attribute of a text.
fn text_style_attr_html(component: &Text) -> (r: String)
    ensures
        r@ == text_style_attr(component@),
{
    let mut out = String::new();
    out.append("style=\"");
    push_background_color_decl(&mut out, &component.background_color);
    out.append(" ");
    push_foreground_color_decl(&mut out, &component.foreground_color);
    out.append(" ");
    push_font_size_decl(&mut out, component.font_style.0);
    out.append(" ");
    push_font_flags(&mut out, component.font_style.2, component.font_style.3, component.font_style.4);
    out.append(" ");
    push_font_weight_decl(&mut out, &component.font_style.1);
    out.append(" ");
    push_font_family_decl(&mut out, &component.font_style.5.0, &component.font_style.5.1);
    out.append("\"");
    proof {
        assert(out@ =~= text_style_attr(component@));
    }
    out
}

/// The markup of a text component: one tag whose style attribute carries
/// the text's aspects, whose `href` carries the link when present, and
/// whose body is the content verbatim.
pub open spec fn text_markup(t: TextModel) -> Seq<char> {
    "<"@ + text_tag(t) + " "@ + text_style_attr(t) + " "@ + text_href(t) + ">"@ + t.content + "</"@
        + text_tag(t) + ">"@
}

/// Renders a [`Text`] component into its HTML tag with inline styles.
pub fn text_html(component: &Text) -> (r: String)
    ensures
        r@ == text_markup(component@),
{
    let style = text_style_attr_html(component);
    let tag: &str = if component.link.is_some() {
        "a"
    } else {
        "div"
    };
    let mut out = String::new();
    out.append("<");
    out.append(tag);
    out.append(" ");
    out.append(style.as_str());
    out.append(" ");
    match &component.link {
        Some(h) => {
            out.append("href=\"");
            out.append(h.as_str());
            out.append("\"");
        },
        None => {},
    }
    out.append(">");
    out.append(component.content.as_str());
    out.append("</");
    out.append(tag);
    out.append(">");
    proof {
        assert(out@ =~= text_markup(component@));
    }
    out
}

} // verus!
