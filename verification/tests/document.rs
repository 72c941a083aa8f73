use zen_rs::aspects::Align;
use zen_rs::components::container::stack::vstack;
use zen_rs::components::icon::github::github_outlined;
use zen_rs::components::text::h::mono_text_xl;
use zen_rs::components::Components;
use zen_rs::layouts::html::html_builder;
use zen_rs::layouts::html::HtmlBuilder;

fn completed_component() -> Components {
    let inner = vstack()
        .component(Components::Icon(github_outlined()))
        .component(Components::Text(mono_text_xl("gh")))
        .component(Components::Text(mono_text_xl("not ph")))
        .background_color((30, 200, 100, 100))
        .gap(4)
        .padding(16)
        .align_content(Align::Center)
        .flex();
    let middle = vstack()
        .component(Components::Container(inner))
        .flex()
        .border(((2, 2, 2, 2), (255, 255, 255, 100), 18));
    let outer = vstack()
        .component(Components::Container(middle))
        .flex()
        .width_full()
        .height_full()
        .align_items(Align::Center)
        .align_content(Align::Center)
        .background_color((0, 0, 0, 100));
    Components::Container(outer)
}

#[test]
fn full_document() {
    let cp = completed_component();
    let html = HtmlBuilder::default().component(cp).build_as_html();
    println!("{html}");
    assert!(html.starts_with("<html><head><style>"));
    assert!(html.ends_with("</body></html>"));
    assert!(html.contains("</style></head><body>"));
    assert!(html.contains("gh"));
    assert!(html.contains("not ph"));
    assert!(html.contains("width: 100%;"));
    assert!(html.contains("border-radius: 18px;"));
    assert!(html.contains("<svg"));
}

#[test]
fn style_block() {
    let b = html_builder();
    let reset = b.css_disable_default_browser_css();
    assert!(reset.starts_with("* { margin: 0; padding: 0;"));
    let style = b.build_style();
    assert_eq!(style, format!("<style>{reset}</style>"));
    let imports = "@import url('https://fonts.example.test/css2?family=Doto');";
    let b = b.css_font_import_urls(imports.to_string());
    assert_eq!(b.get_css_font_import_urls(), imports);
    assert_eq!(b.build_style(), format!("<style>{reset}{imports}</style>"));
}

#[test]
fn build_joins_render_and_style() {
    let b = html_builder().component(completed_component());
    let render = b.render();
    let style = b.build_style();
    assert_eq!(b.build(), format!("{render}\n            {style}"));
}

#[test]
fn render_uses_current_component() {
    let b = html_builder();
    let empty_render = b.render();
    assert!(empty_render.starts_with("<div "));
    let b = b.component(completed_component());
    assert_eq!(b.render(), HtmlBuilder::render_component(b.get_component()));
    assert_ne!(b.render(), empty_render);
}

#[test]
fn document_deterministic() {
    let a = HtmlBuilder::default().component(completed_component());
    let b = a.clone();
    assert_eq!(a.build_as_html(), b.build_as_html());
}
