use zen_rs::aspects::Align;
use zen_rs::aspects::DefaultFontFamily;
use zen_rs::aspects::Order;
use zen_rs::aspects::StrokeLinecap;
use zen_rs::aspects::StrokeLinejoin;
use zen_rs::aspects::SvgColor;
use zen_rs::aspects::Weight;

// Converting every named weight to its numeric value and back yields the
// original variant; every integer off the scale converts to nothing.
#[test]
fn weight_round_trip() {
    let weights = [
        (Weight::Heavy, 900),
        (Weight::ExtraBold, 800),
        (Weight::Bold, 700),
        (Weight::SemiBold, 600),
        (Weight::Medium, 500),
        (Weight::Normal, 400),
        (Weight::Light, 300),
        (Weight::ExtraLight, 200),
        (Weight::Thin, 100),
    ];
    for (w, n) in weights {
        assert_eq!(w.value(), n);
        assert_eq!(Weight::try_from_value(n), Some(w));
        assert_eq!(Weight::from_value(n), w);
        assert_eq!(Weight::from_value(w.value()), w);
    }
}

#[test]
fn weight_invalid_values_rejected() {
    for n in [0, 1, 99, 101, 150, 450, 850, 901, 1000, 9000, u64::MAX] {
        assert_eq!(Weight::try_from_value(n), None);
    }
}

#[test]
fn weight_default_is_normal() {
    assert_eq!(Weight::default(), Weight::Normal);
}

#[test]
fn svg_color_tokens() {
    assert_eq!(SvgColor::NoColor.as_str(), "None");
    assert_eq!(SvgColor::CurrentColor.as_str(), "currentColor");
    assert_eq!(SvgColor::Color("#1e90ff".to_string()).as_str(), "#1e90ff");
    assert_eq!(SvgColor::default(), SvgColor::NoColor);
    let c = SvgColor::Color("tomato".to_string());
    assert_eq!(c.clone(), c);
}

#[test]
fn font_family_keywords() {
    assert_eq!(DefaultFontFamily::Serif.as_str(), "serif");
    assert_eq!(DefaultFontFamily::SansSerif.as_str(), "sans-serif");
    assert_eq!(DefaultFontFamily::Monospace.as_str(), "monospace");
    assert_eq!(DefaultFontFamily::Cursive.as_str(), "cursive");
    assert_eq!(DefaultFontFamily::Fantasy.as_str(), "fantasy");
    assert_eq!(DefaultFontFamily::SystemUi.as_str(), "system-ui");
    assert_eq!(DefaultFontFamily::default(), DefaultFontFamily::SansSerif);
}

#[test]
fn stroke_keywords() {
    assert_eq!(StrokeLinejoin::Arcs.as_str(), "arcs");
    assert_eq!(StrokeLinejoin::Bevel.as_str(), "bevel");
    assert_eq!(StrokeLinejoin::Miter.as_str(), "miter");
    assert_eq!(StrokeLinejoin::MiterClip.as_str(), "miterClip");
    assert_eq!(StrokeLinejoin::Round.as_str(), "round");
    assert_eq!(StrokeLinejoin::default(), StrokeLinejoin::Miter);
    assert_eq!(StrokeLinecap::Butt.as_str(), "butt");
    assert_eq!(StrokeLinecap::Round.as_str(), "round");
    assert_eq!(StrokeLinecap::Square.as_str(), "square");
    assert_eq!(StrokeLinecap::default(), StrokeLinecap::Butt);
}

#[test]
fn order_align_defaults() {
    assert_eq!(Order::default(), Order::TopToBottom);
    assert_eq!(Align::default(), Align::Left);
}
