//! The HTML compiler for the [`Icon`] component: an inline `<svg>`
//! fragment.

use crate::aspects::color::svg_color_text;
use crate::aspects::svg::stroke_linecap_keyword;
use crate::aspects::svg::stroke_linejoin_keyword;
use crate::aspects::StrokeLinecap;
use crate::aspects::StrokeLinejoin;
use crate::components::icon::Icon;
use crate::components::icon::IconModel;
use crate::layouts::html::fmt::dec_str;
use crate::layouts::html::fmt::push_u64;
use vstd::prelude::*;
use vstd::string::StringExecFns;

verus! {

/// The `viewBox` attribute of an icon: the four dimensions separated by
/// spaces.
pub open spec fn view_box_attr(vb: (u8, u8, u8, u8)) -> Seq<char> {
    "viewBox=\""@ + dec_str(vb.0 as int) + " "@ + dec_str(vb.1 as int) + " "@ + dec_str(
        vb.2 as int,
    ) + " "@ + dec_str(vb.3 as int) + "\""@
}

/// Appends the `viewBox` attribute to `out`.
fn push_view_box_attr(out: &mut String, vb: (u8, u8, u8, u8))
    ensures
        final(out)@ == old(out)@ + view_box_attr(vb),
{
    out.append("viewBox=\"");
    push_u64(out, vb.0 as u64);
    out.append(" ");
    push_u64(out, vb.1 as u64);
    out.append(" ");
    push_u64(out, vb.2 as u64);
    out.append(" ");
    push_u64(out, vb.3 as u64);
    out.append("\"");
    proof {
        assert(out@ =~= old(out)@ + view_box_attr(vb));
    }
}

/// The `stroke-linecap` attribute: present exactly when a cap is set.
pub open spec fn linecap_attr(c: Option<StrokeLinecap>) -> Seq<char> {
    match c {
        Some(x) => "stroke-linecap=\""@ + stroke_linecap_keyword(x) + "\""@,
        None => Seq::<char>::empty(),
    }
}

/// Appends the `stroke-linecap` attribute to `out`.
fn push_linecap_attr(out: &mut String, c: &Option<StrokeLinecap>)
    ensures
        final(out)@ == old(out)@ + linecap_attr(*c),
{
    match c {
        Some(x) => {
            out.append("stroke-linecap=\"");
            out.append(x.as_str());
            out.append("\"");
        },
        None => {},
    }
    proof {
        assert(out@ =~= old(out)@ + linecap_attr(*c));
    }
}

/// The `stroke-linejoin` attribute: present exactly when a join is set.
pub open spec fn linejoin_attr(j: Option<StrokeLinejoin>) -> Seq<char> {
    match j {
        Some(x) => "stroke-linejoin=\""@ + stroke_linejoin_keyword(x) + "\""@,
        None => Seq::<char>::empty(),
    }
}

/// Appends the `stroke-linejoin` attribute to `out`.
fn push_linejoin_attr(out: &mut String, j: &Option<StrokeLinejoin>)
    ensures
        final(out)@ == old(out)@ + linejoin_attr(*j),
{
    match j {
        Some(x) => {
            out.append("stroke-linejoin=\"");
            out.append(x.as_str());
            out.append("\"");
        },
        None => {},
    }
    proof {
        assert(out@ =~= old(out)@ + linejoin_attr(*j));
    }
}

/// The `stroke-width` attribute: present exactly when a width is set,
/// with the token verbatim.
pub open spec fn stroke_width_attr(w: Option<Seq<char>>) -> Seq<char> {
    match w {
        Some(token) => "stroke-width=\""@ + token + "\""@,
        None => Seq::<char>::empty(),
    }
}

/// Appends the `stroke-width` attribute to `out`.
fn push_stroke_width_attr(out: &mut String, w: &Option<String>)
    ensures
        final(out)@ == old(out)@ + stroke_width_attr(
            match *w {
                Some(token) => Some(token@),
                None => None,
            },
        ),
{
    match w {
        Some(token) => {
            out.append("stroke-width=\"");
            out.append(token.as_str());
            out.append("\"");
        },
        None => {},
    }
    proof {
        assert(out@ =~= old(out)@ + stroke_width_attr(
            match *w {
                Some(token) => Some(token@),
                None => None,
            },
        ));
    }
}

/// The first path of an icon: wrapped with an explicit `stroke="none"`
/// and filled with the icon's background, it is the filled silhouette.
pub open spec fn first_path_markup(path: Seq<char>, bg: Seq<char>) -> Seq<char> {
    "<path stroke=\"none\" d=\""@ + path + "\" fill=\""@ + bg + "\" />"@
}

/// A path after the first: a plain element inheriting the tag-level
/// `fill` and `stroke`.
pub open spec fn plain_path_markup(path: Seq<char>) -> Seq<char> {
    "<path d=\""@ + path + "\"/>"@
}

/// The plain path elements of `paths`, concatenated in order.
pub open spec fn plain_paths_markup(paths: Seq<Seq<char>>) -> Seq<char>
    decreases paths.len(),
{
    if paths.len() == 0 {
        Seq::<char>::empty()
    } else {
        plain_paths_markup(paths.drop_last()) + plain_path_markup(paths.last())
    }
}

/// The first-path fragment of an icon: the filled silhouette when at
/// least one path is present, nothing for an empty path list.
pub open spec fn icon_first_path(i: IconModel) -> Seq<char> {
    if i.content.len() >= 1 {
        first_path_markup(i.content[0], svg_color_text(i.background_color))
    } else {
        Seq::<char>::empty()
    }
}

/// The remaining-paths fragment of an icon: one plain path element for
/// each path after the first.
pub open spec fn icon_plain_paths(i: IconModel) -> Seq<char> {
    if i.content.len() >= 1 {
        plain_paths_markup(i.content.drop_first())
    } else {
        Seq::<char>::empty()
    }
}

/// Concatenation of path lists splits the plain-path fragment.
pub proof fn lemma_plain_paths_markup_concat(a: Seq<Seq<char>>, b: Seq<Seq<char>>)
    ensures
        plain_paths_markup(a + b) == plain_paths_markup(a) + plain_paths_markup(b),
    decreases b.len(),
{
    if b.len() == 0 {
        assert(a + b =~= a);
        assert(plain_paths_markup(a) + plain_paths_markup(b) =~= plain_paths_markup(a));
    } else {
        lemma_plain_paths_markup_concat(a, b.drop_last());
        assert((a + b).drop_last() =~= a + b.drop_last());
        assert((a + b).last() == b.last());
        assert(plain_paths_markup(a + b) =~= plain_paths_markup(a) + plain_paths_markup(b));
    }
}

/// The first-path rule: with no paths both body fragments are empty;
/// with paths, the first path alone becomes the filled, stroke-free
/// element, and each of the other paths contributes exactly one plain
/// element, in order: the plain fragment splits around any position.
pub proof fn lemma_icon_first_path_rule(i: IconModel, j: int)
    ensures
        i.content.len() == 0 ==> icon_first_path(i) == Seq::<char>::empty()
            && icon_plain_paths(i) == Seq::<char>::empty(),
        i.content.len() == 1 ==> icon_plain_paths(i) == Seq::<char>::empty(),
        i.content.len() >= 1 ==> icon_first_path(i) == first_path_markup(
            i.content[0],
            crate::aspects::color::svg_color_text(i.background_color),
        ),
        1 <= j < i.content.len() ==> icon_plain_paths(i) == plain_paths_markup(
            i.content.subrange(1, j),
        ) + plain_path_markup(i.content[j]) + plain_paths_markup(
            i.content.subrange(j + 1, i.content.len() as int),
        ),
{
    if i.content.len() == 1 {
        assert(i.content.drop_first() =~= Seq::<Seq<char>>::empty());
    }
    if 1 <= j < i.content.len() {
        let rest = i.content.drop_first();
        let before = i.content.subrange(1, j);
        let middle = seq![i.content[j]];
        let after = i.content.subrange(j + 1, i.content.len() as int);
        assert(rest =~= before + middle + after);
        lemma_plain_paths_markup_concat(before + middle, after);
        lemma_plain_paths_markup_concat(before, middle);
        assert(middle.drop_last() =~= Seq::<Seq<char>>::empty());
        assert(plain_paths_markup(middle.drop_last()) == Seq::<char>::empty());
        assert(plain_paths_markup(middle) == plain_paths_markup(middle.drop_last())
            + plain_path_markup(middle.last()));
        assert(plain_paths_markup(middle) =~= plain_path_markup(i.content[j]));
    }
}

/// The opening of the `<svg>` tag, through the closing `>`: namespace,
/// width, height, viewBox, fill, stroke, and the optional stroke
/// attributes, in this fixed order.
pub open spec fn icon_head(i: IconModel) -> Seq<char> {
    "\n        <svg xmlns=\"http://www.w3.org/2000/svg\"\n        width=\""@ + dec_str(
        i.width as int,
    ) + "\"\n        height=\""@ + dec_str(i.height as int) + "\"\n        "@ + view_box_attr(
        i.view_box,
    ) + "\n        fill=\""@ + svg_color_text(i.background_color) + "\"\n        stroke=\""@
        + svg_color_text(i.foreground_color) + "\"\n        "@ + linecap_attr(i.stroke_linecap)
        + "\n        "@ + linejoin_attr(i.stroke_linejoin) + "\n        "@ + stroke_width_attr(
        i.stroke_width,
    ) + ">"@
}

/// The markup of an icon: the `<svg>` tag followed by the first-path
/// fragment and the plain paths.
pub open spec fn icon_markup(i: IconModel) -> Seq<char> {
    icon_head(i) + "\n        "@ + icon_first_path(i) + "\n        "@ + icon_plain_paths(i)
        + "</svg>\n    "@
}

/// Builds the opening of the `<svg>` tag.
fn icon_head_html(component: &Icon) -> (r: String)
    ensures
        r@ == icon_head(component@),
{
    let mut out = String::new();
    out.append("\n        <svg xmlns=\"http://www.w3.org/2000/svg\"\n        width=\"");
    push_u64(&mut out, component.width);
    out.append("\"\n        height=\"");
    push_u64(&mut out, component.height);
    out.append("\"\n        ");
    push_view_box_attr(&mut out, component.view_box);
    out.append("\n        fill=\"");
    out.append(component.background_color.as_str());
    out.append("\"\n        stroke=\"");
    out.append(component.foreground_color.as_str());
    out.append("\"\n        ");
    push_linecap_attr(&mut out, &component.stroke_linecap);
    out.append("\n        ");
    push_linejoin_attr(&mut out, &component.stroke_linejoin);
    out.append("\n        ");
    push_stroke_width_attr(&mut out, &component.stroke_width);
    out.append(">");
    proof {
        assert(out@ =~= icon_head(component@));
    }
    out
}

/// Renders an [`Icon`] component into an SVG fragment.
pub fn icon_html(component: &Icon) -> (r: String)
    ensures
        r@ == icon_markup(component@),
{
    let ghost m = component@;
    let mut out = icon_head_html(component);
    out.append("\n        ");
    if component.content.len() >= 1 {
        out.append("<path stroke=\"none\" d=\"");
        out.append(component.content[0].as_str());
        out.append("\" fill=\"");
        out.append(component.background_color.as_str());
        out.append("\" />");
    }
    proof {
        assert(m.content.len() == component.content@.len());
        assert(out@ =~= icon_head(m) + "\n        "@ + icon_first_path(m));
    }
    out.append("\n        ");
    let ghost paths_done = out@;
    let mut k: usize = 1;
    if component.content.len() >= 1 {
        proof {
            assert(paths_done + plain_paths_markup(m.content.subrange(1, 1)) =~= paths_done);
        }
        while k < component.content.len()
            invariant
                1 <= k <= component.content@.len(),
                m == component@,
                m.content.len() == component.content@.len(),
                out@ == paths_done + plain_paths_markup(m.content.subrange(1, k as int)),
            decreases component.content@.len() - k,
        {
            out.append("<path d=\"");
            out.append(component.content[k].as_str());
            out.append("\"/>");
            proof {
                let sub = m.content.subrange(1, k as int + 1);
                assert(sub.drop_last() =~= m.content.subrange(1, k as int));
                assert(sub.last() == m.content[k as int]);
                assert(m.content[k as int] == component.content@[k as int]@);
                assert(out@ =~= paths_done + plain_paths_markup(sub));
            }
            k = k + 1;
        }
        proof {
            assert(m.content.subrange(1, m.content.len() as int) =~= m.content.drop_first());
        }
    }
    out.append("</svg>\n    ");
    proof {
        assert(out@ =~= icon_markup(m));
    }
    out
}

} // verus!
