use zen_rs::components::text::text;
use zen_rs::layouts::html::text_html;
use zen_rs::aspects::DefaultFontFamily;
use zen_rs::aspects::Weight;

#[test]
fn def() {
    let text1 = text()
        .content("Some Text")
        .background_color((255, 255, 255, 100))
        .foreground_color((0, 0, 0, 100))
        .size(18);
    let html = text_html(&text1);
    println!("OUT: {}", html);
    let text2 = text()
        .content("Some Text")
        .background_color((255, 255, 255, 100))
        .foreground_color((0, 0, 0, 100))
        .size(18)
        .link("#");
    let html = text_html(&text2);
    println!("OUT: {}", html);
}

#[test]
fn text_div_exact() {
    let t = text()
        .content("Some Text")
        .background_color((255, 255, 255, 100))
        .foreground_color((0, 0, 0, 100))
        .size(18);
    let html = text_html(&t);
    assert_eq!(
        html,
        "<div style=\"background-color: rgba(255, 255, 255, 100); color: rgba(0, 0, 0, 100); \
         font-size: 18px;  font-weight: 400; font-family: '', sans-serif;\" >Some Text</div>"
    );
}

#[test]
fn text_link_exact() {
    let t = text()
        .content("Some Text")
        .background_color((255, 255, 255, 100))
        .foreground_color((0, 0, 0, 100))
        .size(18)
        .link("#");
    let html = text_html(&t);
    assert_eq!(
        html,
        "<a style=\"background-color: rgba(255, 255, 255, 100); color: rgba(0, 0, 0, 100); \
         font-size: 18px;  font-weight: 400; font-family: '', sans-serif;\" href=\"#\">Some Text</a>"
    );
}

// A Text node with content "Hi", foreground (0,0,0,100), background
// (255,255,255,100), size 18, no link and the default font renders as a
// div (not an anchor) holding the literal text, with the font size and
// both color declarations; adding a link turns the tag into an anchor.
#[test]
fn text_scenario_hi() {
    let t = text()
        .content("Hi")
        .foreground_color((0, 0, 0, 100))
        .background_color((255, 255, 255, 100))
        .size(18);
    let html = text_html(&t);
    assert!(html.starts_with("<div "));
    assert!(html.ends_with(">Hi</div>"));
    assert!(!html.contains("<a "));
    assert!(html.contains("font-size: 18px;"));
    assert!(html.contains("color: rgba(0, 0, 0, 100);"));
    assert!(html.contains("background-color: rgba(255, 255, 255, 100);"));

    let linked = text()
        .content("Hi")
        .foreground_color((0, 0, 0, 100))
        .background_color((255, 255, 255, 100))
        .size(18)
        .link("#");
    let html = text_html(&linked);
    assert!(html.starts_with("<a "));
    assert!(html.contains("href=\"#\""));
    assert!(html.ends_with(">Hi</a>"));
}

#[test]
fn text_style_flags_order() {
    let t = text().content("x").is_italic().is_underline().is_strikeout();
    let html = text_html(&t);
    let italic = html.find("font-style: italic;").unwrap();
    let underline = html.find("text-decoration-line: underline;").unwrap();
    let strike = html.find("text-decoration-line: line-through;").unwrap();
    assert!(italic < underline);
    assert!(underline < strike);
}

#[test]
fn text_flags_toggle() {
    let t = text().is_italic().is_italic();
    let html = text_html(&t);
    assert!(!html.contains("font-style: italic;"));
}

#[test]
fn text_weight_always_numeric() {
    let t = text().font_weight(Weight::Bold);
    assert!(text_html(&t).contains("font-weight: 700;"));
    let t = text();
    assert!(text_html(&t).contains("font-weight: 400;"));
    let t = text().font_weight(Weight::Thin);
    assert!(text_html(&t).contains("font-weight: 100;"));
}

#[test]
fn text_font_family_both_emitted() {
    let t = text().font_custom("Doto").font_default(DefaultFontFamily::Monospace);
    assert!(text_html(&t).contains("font-family: 'Doto', monospace;"));
    let t = text();
    assert!(text_html(&t).contains("font-family: '', sans-serif;"));
}

#[test]
fn text_empty_content() {
    let t = text();
    let html = text_html(&t);
    assert!(html.ends_with("></div>"));
    assert!(html.contains("font-size: 0px;"));
}

// Rendering is deterministic: structurally equal inputs give
// byte-identical output.
#[test]
fn render_deterministic() {
    let make = || {
        text()
            .content("Same")
            .foreground_color((1, 2, 3, 4))
            .background_color((5, 6, 7, 8))
            .size(99)
            .is_underline()
            .link("https://example.test")
    };
    let first = text_html(&make());
    let second = text_html(&make());
    assert_eq!(first, second);
    let cloned = make().clone();
    assert_eq!(text_html(&cloned), first);
}
