//! The HTML compiler for the [`Container`] component.

use crate::aspects::Align;
use crate::aspects::BorderStyle;
use crate::aspects::Color;
use crate::aspects::Order;
use crate::components::component_model;
use crate::components::components_model;
use crate::components::container::Container;
use crate::components::container::ContainerModel;
use crate::components::lemma_components_model;
use crate::components::ComponentModel;
use crate::layouts::html::fmt::background_color_decl;
use crate::layouts::html::fmt::dec_str;
use crate::layouts::html::fmt::push_background_color_decl;
use crate::layouts::html::fmt::push_rgba;
use crate::layouts::html::fmt::push_u64;
use crate::layouts::html::fmt::rgba_text;
use crate::layouts::html::component_markup;
use crate::layouts::html::HtmlBuilder;
use vstd::prelude::*;
use vstd::string::StringExecFns;

verus! {

/// Whether a flow direction lays the children out as a column; the
/// alignment roles swap axes with it.
pub open spec fn is_column(d: Order) -> bool {
    d == Order::TopToBottom || d == Order::BottomToTop
}

/// The `display` declaration: flex when the flex toggle is set, block
/// otherwise.
pub open spec fn flex_decl(is_flex: bool) -> Seq<char> {
    if is_flex {
        "display: flex;"@
    } else {
        "display: block;"@
    }
}

/// The `flex-direction` keyword of a flow direction.
pub open spec fn direction_keyword(d: Order) -> Seq<char> {
    match d {
        Order::TopToBottom => "column"@,
        Order::BottomToTop => "column-reverse"@,
        Order::LeftToRight => "row"@,
        Order::RightToLeft => "row-reverse"@,
    }
}

/// The `flex-direction` declaration of a flow direction.
pub open spec fn direction_decl(d: Order) -> Seq<char> {
    "flex-direction: "@ + direction_keyword(d) + ";"@
}

/// The CSS keyword of an alignment value.
pub open spec fn align_keyword(a: Align) -> Seq<char> {
    match a {
        Align::Left => "flex-left"@,
        Align::Center => "center"@,
        Align::Right => "flex-end"@,
        Align::SpaceBetween => "space-between"@,
    }
}

/// The declaration carrying the content alignment: `align-items` in a
/// column, `justify-content` in a row.
pub open spec fn align_content_decl(d: Order, a: Align) -> Seq<char> {
    if is_column(d) {
        "align-items: "@ + align_keyword(a) + ";"@
    } else {
        "justify-content: "@ + align_keyword(a) + ";"@
    }
}

/// The declaration carrying the item alignment: `justify-content` in a
/// column, `align-items` in a row.
pub open spec fn align_items_decl(d: Order, a: Align) -> Seq<char> {
    if is_column(d) {
        "justify-content: "@ + align_keyword(a) + ";"@
    } else {
        "align-items: "@ + align_keyword(a) + ";"@
    }
}

/// The alignment axis swap: in a column the content alignment is
/// emitted as `align-items` and the item alignment as `justify-content`;
/// in a row the same two values map the other way around. In particular,
/// top-to-bottom flow with centered content and left items yields
/// `align-items: center;` and `justify-content: flex-left;`, while
/// left-to-right flow with the same values yields the reverse.
pub proof fn lemma_alignment_axis_swap(content: Align, items: Align)
    ensures
        align_content_decl(Order::TopToBottom, content) == "align-items: "@ + align_keyword(
            content,
        ) + ";"@,
        align_items_decl(Order::TopToBottom, items) == "justify-content: "@ + align_keyword(items)
            + ";"@,
        align_content_decl(Order::LeftToRight, content) == "justify-content: "@ + align_keyword(
            content,
        ) + ";"@,
        align_items_decl(Order::LeftToRight, items) == "align-items: "@ + align_keyword(items)
            + ";"@,
        align_content_decl(Order::TopToBottom, Align::Center) == "align-items: center;"@,
        align_items_decl(Order::TopToBottom, Align::Left) == "justify-content: flex-left;"@,
        align_content_decl(Order::LeftToRight, Align::Center) == "justify-content: center;"@,
        align_items_decl(Order::LeftToRight, Align::Left) == "align-items: flex-left;"@,
{
    reveal_strlit("align-items: ");
    reveal_strlit("justify-content: ");
    reveal_strlit("center");
    reveal_strlit("flex-left");
    reveal_strlit(";");
    reveal_strlit("align-items: center;");
    reveal_strlit("justify-content: flex-left;");
    reveal_strlit("justify-content: center;");
    reveal_strlit("align-items: flex-left;");
    assert(align_content_decl(Order::TopToBottom, Align::Center) =~= "align-items: center;"@);
    assert(align_items_decl(Order::TopToBottom, Align::Left) =~= "justify-content: flex-left;"@);
    assert(align_content_decl(Order::LeftToRight, Align::Center) =~= "justify-content: center;"@);
    assert(align_items_decl(Order::LeftToRight, Align::Left) =~= "align-items: flex-left;"@);
}

/// The sizing declarations: a full-size toggle wins and emits `100%`, an
/// explicit nonzero size emits its value, zero emits nothing.
pub open spec fn size_text(c: ContainerModel) -> Seq<char> {
    (if c.is_width_full {
        "width: 100%;"@
    } else if c.width != 0 {
        "width: "@ + dec_str(c.width as int) + ";"@
    } else {
        Seq::<char>::empty()
    }) + (if c.is_height_full {
        "height: 100%;"@
    } else if c.height != 0 {
        "height: "@ + dec_str(c.height as int) + ";"@
    } else {
        Seq::<char>::empty()
    })
}

/// The `gap` declaration, always emitted, zero included.
pub open spec fn gap_decl(gap: u64) -> Seq<char> {
    "gap: "@ + dec_str(gap as int) + "px;"@
}

/// The `padding` declaration, always emitted, zero included.
pub open spec fn padding_decl(padding: u64) -> Seq<char> {
    "padding: "@ + dec_str(padding as int) + "px;"@
}

/// One border edge declaration: the edge's width, solid, in the border
/// color.
pub open spec fn border_edge_decl(name: Seq<char>, w: u64, c: Color) -> Seq<char> {
    "border-"@ + name + ": "@ + dec_str(w as int) + "px solid "@ + rgba_text(c) + ";"@
}

/// The `border-radius` declaration.
pub open spec fn border_radius_decl(radius: u64) -> Seq<char> {
    "border-radius: "@ + dec_str(radius as int) + "px;"@
}

/// The whole border fragment: all four edge declarations, left, top,
/// bottom, right, each in the single border color, then the radius.
pub open spec fn border_text(b: BorderStyle) -> Seq<char> {
    border_edge_decl("left"@, b.0.0, b.1) + "\n        "@ + border_edge_decl("top"@, b.0.1, b.1)
        + "\n        "@ + border_edge_decl("bottom"@, b.0.2, b.1) + "\n        "@
        + border_edge_decl("right"@, b.0.3, b.1) + "\n        "@ + border_radius_decl(b.2)
}

/// Every border renders all four edges and the radius, zero-width edges
/// and zero radius included: the border fragment is this concatenation
/// for all border values, with no conditional.
pub proof fn lemma_border_always_complete(b: BorderStyle)
    ensures
        border_text(b) == border_edge_decl("left"@, b.0.0, b.1) + "\n        "@ + border_edge_decl(
            "top"@,
            b.0.1,
            b.1,
        ) + "\n        "@ + border_edge_decl("bottom"@, b.0.2, b.1) + "\n        "@
            + border_edge_decl("right"@, b.0.3, b.1) + "\n        "@ + border_radius_decl(b.2),
        border_edge_decl("left"@, b.0.0, b.1).len() > 0,
        border_radius_decl(b.2).len() > 0,
{
    reveal_strlit("border-");
    reveal_strlit("border-radius: ");
    crate::layouts::html::fmt::lemma_dec_str_len(b.0.0 as int);
    crate::layouts::html::fmt::lemma_dec_str_len(b.2 as int);
}

/// The whole `style` attribute of a container, with the declarations in
/// this fixed order: layout mode, content alignment, item alignment,
/// sizing, gap, flow direction, padding, background color, border.
pub open spec fn container_style_attr(c: ContainerModel) -> Seq<char> {
    "style=\""@ + flex_decl(c.is_flex) + " "@ + align_content_decl(c.direction, c.align_content)
        + " "@ + align_items_decl(c.direction, c.align_items) + " "@ + size_text(c) + " "@
        + gap_decl(c.gap) + " "@ + direction_decl(c.direction) + " "@ + padding_decl(c.padding)
        + " "@ + background_color_decl(c.background_color) + " "@ + border_text(c.border) + "\""@
}

/// The markup of the children of a container: each child's markup,
/// concatenated in list order with no separator.
pub open spec fn children_markup(ms: Seq<ComponentModel>) -> Seq<char>
    decreases ms,
{
    if ms.len() == 0 {
        Seq::<char>::empty()
    } else {
        children_markup(ms.drop_last()) + component_markup(ms.last())
    }
}

/// Concatenation of child lists splits the children fragment: the markup
/// of `a + b` is the markup of `a` followed by the markup of `b`.
pub proof fn lemma_children_markup_concat(a: Seq<ComponentModel>, b: Seq<ComponentModel>)
    ensures
        children_markup(a + b) == children_markup(a) + children_markup(b),
    decreases b.len(),
{
    if b.len() == 0 {
        assert(a + b =~= a);
        assert(children_markup(a) + children_markup(b) =~= children_markup(a));
    } else {
        lemma_children_markup_concat(a, b.drop_last());
        assert((a + b).drop_last() =~= a + b.drop_last());
        assert((a + b).last() == b.last());
        assert(children_markup(a + b) =~= children_markup(a) + children_markup(b));
    }
}

/// Children appear in insertion order: for any position, the children
/// fragment is the fragment of the children before it, the markup of the
/// child at it, and the fragment of the children after it.
pub proof fn lemma_children_in_order(ms: Seq<ComponentModel>, i: int)
    requires
        0 <= i < ms.len(),
    ensures
        children_markup(ms) == children_markup(ms.take(i)) + component_markup(ms[i])
            + children_markup(ms.skip(i + 1)),
{
    let middle = seq![ms[i]];
    assert(ms =~= ms.take(i) + middle + ms.skip(i + 1));
    lemma_children_markup_concat(ms.take(i) + middle, ms.skip(i + 1));
    lemma_children_markup_concat(ms.take(i), middle);
    assert(middle.len() == 1);
    assert(middle.last() == ms[i]);
    assert(middle.drop_last() =~= Seq::<ComponentModel>::empty());
    assert(children_markup(middle.drop_last()) == Seq::<char>::empty());
    assert(children_markup(middle) == children_markup(middle.drop_last()) + component_markup(
        middle.last(),
    ));
    assert(children_markup(middle) =~= component_markup(ms[i]));
    assert(children_markup(ms.take(i)) + children_markup(middle) + children_markup(ms.skip(i + 1))
        =~= children_markup(ms.take(i)) + component_markup(ms[i]) + children_markup(
        ms.skip(i + 1),
    ));
}

/// The markup of a container: one `<div>` whose style attribute carries
/// the container's aspects, holding the children's markup in list order.
pub open spec fn container_markup(c: ContainerModel) -> Seq<char>
    decreases c,
{
    "<div "@ + container_style_attr(c) + ">"@ + children_markup(c.components) + "</div>"@
}

/// The alignment keyword of `a`.
fn align_keyword_str(a: &Align) -> (r: &'static str)
    ensures
        r@ == align_keyword(*a),
{
    match a {
        Align::Left => "flex-left",
        Align::Center => "center",
        Align::Right => "flex-end",
        Align::SpaceBetween => "space-between",
    }
}

/// Appends one border edge declaration to `out`.
fn push_border_edge_decl(out: &mut String, name: &str, w: u64, c: &Color)
    ensures
        final(out)@ == old(out)@ + border_edge_decl(name@, w, *c),
{
    out.append("border-");
    out.append(name);
    out.append(": ");
    push_u64(out, w);
    out.append("px solid ");
    push_rgba(out, c);
    out.append(";");
    proof {
        assert(out@ =~= old(out)@ + border_edge_decl(name@, w, *c));
    }
}

/// Appends the whole border fragment to `out`.
fn push_border_text(out: &mut String, b: &BorderStyle)
    ensures
        final(out)@ == old(out)@ + border_text(*b),
{
    push_border_edge_decl(out, "left", b.0.0, &b.1);
    out.append("\n        ");
    push_border_edge_decl(out, "top", b.0.1, &b.1);
    out.append("\n        ");
    push_border_edge_decl(out, "bottom", b.0.2, &b.1);
    out.append("\n        ");
    push_border_edge_decl(out, "right", b.0.3, &b.1);
    out.append("\n        ");
    out.append("border-radius: ");
    push_u64(out, b.2);
    out.append("px;");
    proof {
        assert(out@ =~= old(out)@ + border_text(*b));
    }
}

/// Appends the content-alignment declaration to `out`.
fn push_align_content_decl(out: &mut String, d: &Order, a: &Align)
    ensures
        final(out)@ == old(out)@ + align_content_decl(*d, *a),
{
    let col = match d {
        Order::TopToBottom => true,
        Order::BottomToTop => true,
        Order::LeftToRight => false,
        Order::RightToLeft => false,
    };
    if col {
        out.append("align-items: ");
    } else {
        out.append("justify-content: ");
    }
    out.append(align_keyword_str(a));
    out.append(";");
    proof {
        assert(out@ =~= old(out)@ + align_content_decl(*d, *a));
    }
}

/// Appends the item-alignment declaration to `out`.
fn push_align_items_decl(out: &mut String, d: &Order, a: &Align)
    ensures
        final(out)@ == old(out)@ + align_items_decl(*d, *a),
{
    let col = match d {
        Order::TopToBottom => true,
        Order::BottomToTop => true,
        Order::LeftToRight => false,
        Order::RightToLeft => false,
    };
    if col {
        out.append("justify-content: ");
    } else {
        out.append("align-items: ");
    }
    out.append(align_keyword_str(a));
    out.append(";");
    proof {
        assert(out@ =~= old(out)@ + align_items_decl(*d, *a));
    }
}

/// Appends the sizing declarations to `out`.
fn push_size_text(out: &mut String, component: &Container)
    ensures
        final(out)@ == old(out)@ + size_text(component@),
{
    if component.is_width_full {
        out.append("width: 100%;");
    } else if component.width != 0 {
        out.append("width: ");
        push_u64(out, component.width);
        out.append(";");
    }
    if component.is_height_full {
        out.append("height: 100%;");
    } else if component.height != 0 {
        out.append("height: ");
        push_u64(out, component.height);
        out.append(";");
    }
    proof {
        assert(out@ =~= old(out)@ + size_text(component@));
    }
}

/// Appends the `gap` declaration to `out`.
fn push_gap_decl(out: &mut String, gap: u64)
    ensures
        final(out)@ == old(out)@ + gap_decl(gap),
{
    out.append("gap: ");
    push_u64(out, gap);
    out.append("px;");
    proof {
        assert(out@ =~= old(out)@ + gap_decl(gap));
    }
}

/// Appends the `flex-direction` declaration to `out`.
fn push_direction_decl(out: &mut String, d: &Order)
    ensures
        final(out)@ == old(out)@ + direction_decl(*d),
{
    out.append("flex-direction: ");
    match d {
        Order::TopToBottom => out.append("column"),
        Order::BottomToTop => out.append("column-reverse"),
        Order::LeftToRight => out.append("row"),
        Order::RightToLeft => out.append("row-reverse"),
    }
    out.append(";");
    proof {
        assert(out@ =~= old(out)@ + direction_decl(*d));
    }
}

/// Appends the `padding` declaration to `out`.
fn push_padding_decl(out: &mut String, padding: u64)
    ensures
        final(out)@ == old(out)@ + padding_decl(padding),
{
    out.append("padding: ");
    push_u64(out, padding);
    out.append("px;");
    proof {
        assert(out@ =~= old(out)@ + padding_decl(padding));
    }
}

/// Builds the `style` attribute of a container.
fn container_style_attr_html(component: &Container) -> (r: String)
    ensures
        r@ == container_style_attr(component@),
{
    let mut out = String::from_str("style=\"");
    if component.is_flex {
        out.append("display: flex;");
    } else {
        out.append("display: block;");
    }
    out.append(" ");
    push_align_content_decl(&mut out, &component.direction, &component.align_content);
    out.append(" ");
    push_align_items_decl(&mut out, &component.direction, &component.align_items);
    out.append(" ");
    push_size_text(&mut out, component);
    out.append(" ");
    push_gap_decl(&mut out, component.gap);
    out.append(" ");
    push_direction_decl(&mut out, &component.direction);
    out.append(" ");
    push_padding_decl(&mut out, component.padding);
    out.append(" ");
    push_background_color_decl(&mut out, &component.background_color);
    out.append(" ");
    push_border_text(&mut out, &component.border);
    out.append("\"");
    out
}

/// Renders a [`Container`] component into its HTML tag with inline
/// styles, its children rendered in list order inside it.
pub fn container_html(component: &Container) -> (r: String)
    ensures
        r@ == container_markup(component@),
    decreases *component,
{
    let ghost ms = components_model(component.components@);
    proof {
        lemma_components_model(component.components@);
    }
    let mut content = String::new();
    let mut k: usize = 0;
    while k < component.components.len()
        invariant
            k <= component.components@.len(),
            ms == components_model(component.components@),
            ms.len() == component.components@.len(),
            forall|i: int| 0 <= i < ms.len() ==> ms[i] == component_model(component.components@[i]),
            content@ == children_markup(ms.take(k as int)),
        decreases component.components@.len() - k,
    {
        proof {
            assert(decreases_to!(*component => component.components));
            assert(decreases_to!(component.components => component.components@));
            assert(decreases_to!(component.components@ => component.components@[k as int]));
        }
        let child = HtmlBuilder::render_component(&component.components[k]);
        content.append(child.as_str());
        proof {
            let sub = ms.take(k as int + 1);
            assert(sub.drop_last() =~= ms.take(k as int));
            assert(sub.last() == ms[k as int]);
            assert(content@ =~= children_markup(sub));
        }
        k = k + 1;
    }
    proof {
        assert(ms.take(ms.len() as int) =~= ms);
    }
    let style = container_style_attr_html(component);
    let mut out = String::from_str("<div ");
    out.append(style.as_str());
    out.append(">");
    out.append(content.as_str());
    out.append("</div>");
    out
}

} // verus!
