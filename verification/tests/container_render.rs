use zen_rs::aspects::Align;
use zen_rs::aspects::Order;
use zen_rs::components::container::container;
use zen_rs::components::text::text;
use zen_rs::components::Components;
use zen_rs::layouts::html::container_html;
use zen_rs::layouts::html::text_html;
use zen_rs::layouts::html::HtmlBuilder;

// Children are concatenated in insertion order, with no separator.
#[test]
fn children_in_insertion_order() {
    let a = text().content("first");
    let b = text().content("second");
    let c = text().content("third");
    let ct = container()
        .component(Components::Text(a.clone()))
        .component(Components::Text(b.clone()))
        .component(Components::Text(c.clone()));
    let html = container_html(&ct);
    let body = format!("{}{}{}", text_html(&a), text_html(&b), text_html(&c));
    assert!(html.contains(&body));
    let pos_a = html.find("first").unwrap();
    let pos_b = html.find("second").unwrap();
    let pos_c = html.find("third").unwrap();
    assert!(pos_a < pos_b);
    assert!(pos_b < pos_c);
}

#[test]
fn empty_container_has_empty_body() {
    let html = container_html(&container());
    assert!(html.ends_with("></div>"));
    assert!(html.starts_with("<div "));
}

// All four border edges and the radius are always emitted, even for an
// all-zero border.
#[test]
fn border_all_edges_zero() {
    let html = container_html(&container());
    assert_eq!(html.matches("border-left: ").count(), 1);
    assert_eq!(html.matches("border-top: ").count(), 1);
    assert_eq!(html.matches("border-bottom: ").count(), 1);
    assert_eq!(html.matches("border-right: ").count(), 1);
    assert_eq!(html.matches("border-radius: ").count(), 1);
    assert!(html.contains("border-left: 0px solid rgba(0, 0, 0, 0);"));
    assert!(html.contains("border-radius: 0px;"));
}

#[test]
fn border_edges_sizes_and_color() {
    let ct = container().border(((1, 2, 3, 4), (9, 8, 7, 6), 5));
    let html = container_html(&ct);
    assert!(html.contains("border-left: 1px solid rgba(9, 8, 7, 6);"));
    assert!(html.contains("border-top: 2px solid rgba(9, 8, 7, 6);"));
    assert!(html.contains("border-bottom: 3px solid rgba(9, 8, 7, 6);"));
    assert!(html.contains("border-right: 4px solid rgba(9, 8, 7, 6);"));
    assert!(html.contains("border-radius: 5px;"));
}

// In a column the content alignment lands in align-items and the item
// alignment in justify-content; in a row the mapping is reversed.
#[test]
fn alignment_axis_swap() {
    let column = container()
        .direction(Order::TopToBottom)
        .align_content(Align::Center)
        .align_items(Align::Left);
    let html = container_html(&column);
    assert!(html.contains("align-items: center;"));
    assert!(html.contains("justify-content: flex-left;"));

    let row = container()
        .direction(Order::LeftToRight)
        .align_content(Align::Center)
        .align_items(Align::Left);
    let html = container_html(&row);
    assert!(html.contains("justify-content: center;"));
    assert!(html.contains("align-items: flex-left;"));
}

#[test]
fn bottom_to_top_is_a_column() {
    let ct = container()
        .direction(Order::BottomToTop)
        .align_content(Align::Center)
        .align_items(Align::Right);
    let html = container_html(&ct);
    assert!(html.contains("align-items: center;"));
    assert!(html.contains("justify-content: flex-end;"));
}

#[test]
fn flex_and_direction_keywords() {
    let html = container_html(&container());
    assert!(html.contains("display: block;"));
    assert!(html.contains("flex-direction: column;"));
    let html = container_html(&container().flex().direction(Order::RightToLeft));
    assert!(html.contains("display: flex;"));
    assert!(html.contains("flex-direction: row-reverse;"));
    let html = container_html(&container().direction(Order::BottomToTop));
    assert!(html.contains("flex-direction: column-reverse;"));
}

#[test]
fn sizing_rules() {
    let html = container_html(&container());
    assert!(!html.contains("width:"));
    assert!(!html.contains("height:"));
    let html = container_html(&container().width(120).height(48));
    assert!(html.contains("width: 120;"));
    assert!(html.contains("height: 48;"));
    let html = container_html(&container().width(120).width_full().height_full());
    assert!(html.contains("width: 100%;"));
    assert!(html.contains("height: 100%;"));
    assert!(!html.contains("width: 120;"));
}

#[test]
fn gap_padding_background_always_emitted() {
    let html = container_html(&container());
    assert!(html.contains("gap: 0px;"));
    assert!(html.contains("padding: 0px;"));
    assert!(html.contains("background-color: rgba(0, 0, 0, 0);"));
    let html = container_html(&container().gap(4).padding(16).background_color((30, 200, 100, 100)));
    assert!(html.contains("gap: 4px;"));
    assert!(html.contains("padding: 16px;"));
    assert!(html.contains("background-color: rgba(30, 200, 100, 100);"));
}

#[test]
fn nested_containers_nest_markup() {
    let inner = container().component(Components::Text(text().content("deep")));
    let outer = container().component(Components::Container(inner.clone()));
    let html = container_html(&outer);
    assert!(html.contains(&container_html(&inner)));
    assert_eq!(html.matches("deep").count(), 1);
}

#[test]
fn container_render_deterministic() {
    let make = || {
        container()
            .component(Components::Text(text().content("a")))
            .component(Components::Text(text().content("b")))
            .gap(2)
            .flex()
    };
    assert_eq!(container_html(&make()), container_html(&make()));
    assert_eq!(container_html(&make().clone()), container_html(&make()));
}

#[test]
fn large_sizes_format_exactly() {
    let ct = container().width(18446744073709551615).height(1000000007);
    let html = container_html(&ct);
    assert!(html.contains("width: 18446744073709551615;"));
    assert!(html.contains("height: 1000000007;"));
}

#[test]
fn render_component_dispatches() {
    let t = text().content("leaf");
    let as_component = Components::Text(t.clone());
    assert_eq!(HtmlBuilder::render_component(&as_component), text_html(&t));
    let ct = container();
    let as_component = Components::Container(ct.clone());
    assert_eq!(HtmlBuilder::render_component(&as_component), container_html(&ct));
}
