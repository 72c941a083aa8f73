use zen_rs::aspects::Align;
use zen_rs::aspects::DefaultFontFamily;
use zen_rs::aspects::Order;
use zen_rs::aspects::Weight;
use zen_rs::components::container::container;
use zen_rs::components::container::stack::hstack;
use zen_rs::components::container::stack::vstack;
use zen_rs::components::icon::icon;
use zen_rs::components::text::h::mono_text_xl;
use zen_rs::components::text::h::text_lg;
use zen_rs::components::text::h::text_xs;
use zen_rs::components::text::text;
use zen_rs::components::Components;
use zen_rs::aspects::StrokeLinecap;
use zen_rs::aspects::SvgColor;

#[test]
fn text_builder_and_getters() {
    let t = text()
        .content("hello")
        .foreground_color((1, 2, 3, 4))
        .background_color((5, 6, 7, 8))
        .size(21)
        .font_weight(Weight::SemiBold)
        .font_custom("Doto")
        .font_default(DefaultFontFamily::Cursive)
        .is_italic()
        .link("https://example.test");
    assert_eq!(t.get_content(), "hello");
    assert_eq!(t.get_foreground_color(), (1, 2, 3, 4));
    assert_eq!(t.get_background_color(), (5, 6, 7, 8));
    assert_eq!(t.get_size(), 21);
    let (size, weight, strikeout, underline, italic, (custom, default)) = t.get_font().clone();
    assert_eq!(size, 21);
    assert_eq!(weight, Weight::SemiBold);
    assert!(!strikeout);
    assert!(!underline);
    assert!(italic);
    assert_eq!(custom, "Doto");
    assert_eq!(default, DefaultFontFamily::Cursive);
    assert_eq!(t.get_link().as_deref(), Some("https://example.test"));
    assert_eq!(text().get_link().clone(), None);
}

#[test]
fn text_font_style_at_once() {
    let t = text().font_style((9, Weight::Heavy, true, false, true, ("m".to_string(), DefaultFontFamily::Serif)));
    assert_eq!(t.get_size(), 9);
    let font = t.get_font();
    assert_eq!(font.1, Weight::Heavy);
    assert!(font.2);
    assert!(!font.3);
    assert!(font.4);
}

#[test]
fn container_builder_and_getters() {
    let ct = container()
        .gap(3)
        .padding(7)
        .background_color((9, 9, 9, 9))
        .width(100)
        .height(50)
        .border(((1, 1, 1, 1), (2, 2, 2, 2), 3))
        .direction(Order::RightToLeft)
        .flex()
        .align_content(Align::SpaceBetween)
        .align_items(Align::Right)
        .component(Components::Text(text().content("x")));
    assert_eq!(*ct.get_gap(), 3);
    assert_eq!(*ct.get_padding(), 7);
    assert_eq!(*ct.get_background_color(), (9, 9, 9, 9));
    assert_eq!(*ct.get_width(), 100);
    assert_eq!(*ct.get_height(), 50);
    assert_eq!(*ct.get_border(), ((1, 1, 1, 1), (2, 2, 2, 2), 3));
    assert_eq!(*ct.get_direction(), Order::RightToLeft);
    assert!(*ct.get_flex());
    assert!(!*ct.get_width_full());
    assert!(!*ct.get_height_full());
    assert_eq!(*ct.get_align_content(), Align::SpaceBetween);
    assert_eq!(*ct.get_align_items(), Align::Right);
    assert_eq!(ct.get_components().len(), 1);
}

#[test]
fn container_border_pieces() {
    let ct = container()
        .border_size_full(9)
        .border_size_l(1)
        .border_size_t(2)
        .border_size_b(3)
        .border_size_r(4)
        .border_color((7, 7, 7, 7))
        .border_radius(6);
    assert_eq!(*ct.get_border(), ((1, 2, 3, 4), (7, 7, 7, 7), 6));
    let ct = container().border_size((5, 5, 5, 5));
    assert_eq!(ct.get_border().0, (5, 5, 5, 5));
}

#[test]
fn container_full_toggles() {
    let ct = container().width_full().height_full();
    assert!(*ct.get_width_full());
    assert!(*ct.get_height_full());
    let ct = ct.width_full();
    assert!(!*ct.get_width_full());
}

#[test]
fn container_components_extend() {
    let ct = container()
        .component(Components::Text(text().content("a")))
        .components(vec![
            Components::Text(text().content("b")),
            Components::Icon(icon()),
        ]);
    assert_eq!(ct.get_components().len(), 3);
    assert!(matches!(ct.get_components()[2], Components::Icon(_)));
}

#[test]
fn stacks_set_direction() {
    assert_eq!(*hstack().get_direction(), Order::LeftToRight);
    assert_eq!(*vstack().get_direction(), Order::TopToBottom);
    assert_eq!(*hstack().get_gap(), 0);
}

#[test]
fn component_conversions_and_default() {
    let c = Components::from(container());
    assert!(matches!(c, Components::Container(_)));
    let c = Components::from(text());
    assert!(matches!(c, Components::Text(_)));
    let c = Components::from(icon());
    assert!(matches!(c, Components::Icon(_)));
    let c = Components::default();
    match c {
        Components::Container(ct) => assert_eq!(ct.get_components().len(), 0),
        _ => panic!("default component should be a container"),
    }
}

#[test]
fn sized_text_constructors() {
    let t = text_lg("hi");
    assert_eq!(t.get_size(), 18);
    assert_eq!(t.get_content(), "hi");
    assert_eq!(t.get_foreground_color(), (0, 0, 0, 100));
    assert_eq!(t.get_font().5.1, DefaultFontFamily::SansSerif);
    let t = text_xs("small");
    assert_eq!(t.get_size(), 12);
    let t = mono_text_xl("code");
    assert_eq!(t.get_size(), 20);
    assert_eq!(t.get_font().5.1, DefaultFontFamily::Monospace);
}

#[test]
fn icon_builder_getters() {
    let i = icon()
        .content("M0 0")
        .content("M1 1")
        .width(10)
        .height(20)
        .foreground_color("#abc")
        .background_color("#def")
        .stroke_linecap(StrokeLinecap::Square)
        .stroke_width("1.5")
        .view_box((0, 0, 16, 16));
    assert_eq!(i.get_content(), &["M0 0".to_string(), "M1 1".to_string()]);
    assert_eq!(i.get_width(), 10);
    assert_eq!(i.get_height(), 20);
    assert_eq!(*i.get_foreground_color(), SvgColor::Color("#abc".to_string()));
    assert_eq!(*i.get_background_color(), SvgColor::Color("#def".to_string()));
    assert_eq!(i.get_stroke_linecap(), Some(StrokeLinecap::Square));
    assert_eq!(i.get_stroke_linejoin(), None);
    assert_eq!(i.get_stroke_width().as_deref(), Some("1.5"));
    assert_eq!(i.get_view_box(), (0, 0, 16, 16));
}
