use zen_rs::components::icon::github::github_outlined;
use zen_rs::components::icon::icon;
use zen_rs::layouts::html::icon_html;
use zen_rs::aspects::StrokeLinecap;
use zen_rs::aspects::StrokeLinejoin;

// For a path list of length N >= 1 the body holds exactly one filled,
// stroke-free path element, made from the first path, and N - 1 plain
// path elements; for N = 0 the body is empty.
#[test]
fn icon_first_path_rule() {
    let i = icon().contents(vec!["M0 0h8v8H0z", "M1 1l6 6", "M7 1l-6 6"]).background_color("#fff");
    let html = icon_html(&i);
    assert_eq!(html.matches("<path stroke=\"none\"").count(), 1);
    assert_eq!(html.matches("<path d=\"").count(), 2);
    assert!(html.contains("<path stroke=\"none\" d=\"M0 0h8v8H0z\" fill=\"#fff\" />"));
    assert!(html.contains("<path d=\"M1 1l6 6\"/>"));
    assert!(html.contains("<path d=\"M7 1l-6 6\"/>"));
    let first = html.find("M0 0h8v8H0z").unwrap();
    let second = html.find("M1 1l6 6").unwrap();
    let third = html.find("M7 1l-6 6").unwrap();
    assert!(first < second);
    assert!(second < third);
}

#[test]
fn icon_empty_path_list() {
    let html = icon_html(&icon());
    assert_eq!(html.matches("<path").count(), 0);
    assert!(html.contains("<svg"));
    assert!(html.contains("</svg>"));
}

#[test]
fn icon_single_path() {
    let i = icon().content("M0 0h4");
    let html = icon_html(&i);
    assert_eq!(html.matches("<path stroke=\"none\"").count(), 1);
    assert_eq!(html.matches("<path d=\"").count(), 0);
}

#[test]
fn icon_attributes() {
    let i = icon()
        .size(60)
        .view_box((0, 0, 24, 24))
        .stroke_linecap(StrokeLinecap::Round)
        .stroke_linejoin(StrokeLinejoin::Bevel)
        .stroke_width("2")
        .foreground_color_current_color()
        .background_color_none();
    let html = icon_html(&i);
    assert!(html.contains("width=\"60\""));
    assert!(html.contains("height=\"60\""));
    assert!(html.contains("viewBox=\"0 0 24 24\""));
    assert!(html.contains("stroke=\"currentColor\""));
    assert!(html.contains("fill=\"None\""));
    assert!(html.contains("stroke-linecap=\"round\""));
    assert!(html.contains("stroke-linejoin=\"bevel\""));
    assert!(html.contains("stroke-width=\"2\""));
    assert!(html.contains("xmlns=\"http://www.w3.org/2000/svg\""));
}

#[test]
fn icon_optional_attributes_omitted() {
    let html = icon_html(&icon());
    assert!(!html.contains("stroke-linecap"));
    assert!(!html.contains("stroke-linejoin"));
    assert!(!html.contains("stroke-width"));
}

#[test]
fn github_outlined_settings() {
    let i = github_outlined();
    assert_eq!(i.get_width(), 60);
    assert_eq!(i.get_height(), 60);
    assert_eq!(i.get_view_box(), (0, 0, 24, 24));
    assert_eq!(i.get_content().len(), 2);
    assert_eq!(i.get_content()[0], "M0 0h24v24H0z");
    let html = icon_html(&i);
    assert!(html.contains("stroke=\"currentColor\""));
    assert!(html.contains("fill=\"None\""));
    assert!(html.contains("stroke-width=\"2\""));
    assert!(html.contains("stroke-linecap=\"round\""));
    assert!(html.contains("stroke-linejoin=\"round\""));
    assert_eq!(html.matches("<path stroke=\"none\"").count(), 1);
    assert_eq!(html.matches("<path d=\"").count(), 1);
}

#[test]
fn icon_render_deterministic() {
    let make = || github_outlined();
    assert_eq!(icon_html(&make()), icon_html(&make()));
    assert_eq!(icon_html(&make().clone()), icon_html(&make()));
}
