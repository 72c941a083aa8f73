//! HTML layout: the markup compiler and the document assembler.
//!
//! [`HtmlBuilder`] holds a root component and caller-supplied font-import
//! CSS; it renders the component tree into markup and optionally wraps it
//! with a style block and full document scaffolding.

pub mod container;
pub mod fmt;
pub mod icon;
pub mod text;

pub use container::container_html;
pub use icon::icon_html;
pub use text::text_html;

use crate::components::container::ContainerModel;
use crate::components::is_default_component;
use crate::components::ComponentModel;
use crate::components::Components;
use container::container_markup;
use icon::icon_markup;
use text::text_markup;
use vstd::prelude::*;
use vstd::string::StringExecFns;

verus! {

/// The markup of a component: the container, text or icon markup of its
/// variant. Total over the closed variant set; a well-formed tree cannot
/// fail to render.
pub open spec fn component_markup(m: ComponentModel) -> Seq<char>
    decreases m,
{
    match m {
        ComponentModel::Container(c) => container_markup(c),
        ComponentModel::Text(t) => text_markup(t),
        ComponentModel::Icon(i) => icon_markup(i),
    }
}

/// Rendering is deterministic: two components with equal models render
/// to byte-identical markup.
pub proof fn lemma_render_deterministic(a: Components, b: Components)
    requires
        a@ == b@,
    ensures
        component_markup(a@) == component_markup(b@),
{
}

/// The fixed CSS reset that disables browser default styling.
pub open spec fn reset_css() -> Seq<char> {
    "* { margin: 0; padding: 0; box-sizing: border-box; overflow: clip; } html, body { height: 100%; line-height: 1.5; } body { background: none; color: inherit; text-align: inherit; } h1, h2, h3, h4, h5, h6 { font-size: inherit; font-weight: inherit; margin: 0; } p { margin: 0; } ul, ol { list-style: none; } a { text-decoration: none; color: inherit; } "@
}

/// The style block of a document: the CSS reset followed verbatim by the
/// caller-supplied font-import CSS.
pub open spec fn style_markup(css_font_import_urls: Seq<char>) -> Seq<char> {
    "<style>"@ + reset_css() + css_font_import_urls + "</style>"@
}

/// The mathematical model of an [`HtmlBuilder`].
pub ghost struct HtmlBuilderModel {
    /// The caller-supplied font-import CSS.
    pub css_font_import_urls: Seq<char>,
    /// The model of the root component.
    pub component: ComponentModel,
}

/// The output of [`HtmlBuilder::build`]: the rendered root followed by
/// the style block.
pub open spec fn build_markup(m: HtmlBuilderModel) -> Seq<char> {
    component_markup(m.component) + "\n            "@ + style_markup(m.css_font_import_urls)
}

/// The output of [`HtmlBuilder::build_as_html`]: a full document with the
/// style block in the head and the rendered root in the body.
pub open spec fn document_markup(m: HtmlBuilderModel) -> Seq<char> {
    "<html><head>"@ + style_markup(m.css_font_import_urls) + "</head><body>"@ + component_markup(
        m.component,
    ) + "</body></html>"@
}

/// Creates a new [`HtmlBuilder`] with default values.
pub fn html_builder() -> (r: HtmlBuilder)
    ensures
        r@.css_font_import_urls == Seq::<char>::empty(),
        is_default_component(r@.component),
{
    HtmlBuilder::default()
}

/// A builder for generating HTML with embedded CSS.
///
/// Holds the root component to render and the font-import CSS to place
/// after the reset in the style block.
#[derive(Debug, PartialEq)]
pub struct HtmlBuilder {
    /// Font URL imports for the page's CSS, as `@import` rules.
    pub css_font_import_urls: String,
    /// The main component to be rendered.
    pub component: Components,
}

impl View for HtmlBuilder {
    type V = HtmlBuilderModel;

    open spec fn view(&self) -> HtmlBuilderModel {
        HtmlBuilderModel {
            css_font_import_urls: self.css_font_import_urls@,
            component: self.component@,
        }
    }
}

impl Default for HtmlBuilder {
    fn default() -> (r: Self)
        ensures
            r@.css_font_import_urls == Seq::<char>::empty(),
            is_default_component(r@.component),
    {
        HtmlBuilder { css_font_import_urls: String::new(), component: Components::default() }
    }
}

impl Clone for HtmlBuilder {
    fn clone(&self) -> (res: Self)
        ensures
            res@ == self@,
    {
        HtmlBuilder {
            css_font_import_urls: self.css_font_import_urls.clone(),
            component: self.component.clone(),
        }
    }
}

impl HtmlBuilder {
    /// Gets the font import URLs for the CSS.
    pub fn get_css_font_import_urls(&self) -> (r: &str)
        ensures
            r@ == self@.css_font_import_urls,
    {
        self.css_font_import_urls.as_str()
    }

    /// Sets the font import URLs for the CSS.
    pub fn css_font_import_urls(self, css_font_import_urls: String) -> (r: Self)
        ensures
            r@.css_font_import_urls == css_font_import_urls@,
            r@.component == self@.component,
    {
        let mut s = self;
        s.css_font_import_urls = css_font_import_urls;
        s
    }

    /// Returns the fixed CSS reset that disables browser default styling.
    pub fn css_disable_default_browser_css(&self) -> (r: &'static str)
        ensures
            r@ == reset_css(),
    {
        "* { margin: 0; padding: 0; box-sizing: border-box; overflow: clip; } html, body { height: 100%; line-height: 1.5; } body { background: none; color: inherit; text-align: inherit; } h1, h2, h3, h4, h5, h6 { font-size: inherit; font-weight: inherit; margin: 0; } p { margin: 0; } ul, ol { list-style: none; } a { text-decoration: none; color: inherit; } "
    }

    /// Builds the full style block, including any custom font imports.
    pub fn build_style(&self) -> (r: String)
        ensures
            r@ == style_markup(self@.css_font_import_urls),
    {
        let mut out = String::new();
        out.append("<style>");
        out.append(self.css_disable_default_browser_css());
        out.append(self.css_font_import_urls.as_str());
        out.append("</style>");
        proof {
            assert(out@ =~= style_markup(self@.css_font_import_urls));
        }
        out
    }

    /// Sets the component to be rendered.
    pub fn component(self, component: Components) -> (r: Self)
        ensures
            r@.component == component@,
            r@.css_font_import_urls == self@.css_font_import_urls,
    {
        let mut s = self;
        s.component = component;
        s
    }

    /// Gets the current component to be rendered.
    pub fn get_component(&self) -> (r: &Components)
        ensures
            r@ == self@.component,
    {
        &self.component
    }

    /// Converts a given component to markup, dispatching on its variant.
    pub fn render_component(component: &Components) -> (r: String)
        ensures
            r@ == component_markup(component@),
        decreases *component,
    {
        match component {
            Components::Container(component) => container_html(component),
            Components::Text(component) => text_html(component),
            Components::Icon(component) => icon_html(component),
        }
    }

    /// Renders the current component to markup.
    pub fn render(&self) -> (r: String)
        ensures
            r@ == component_markup(self@.component),
    {
        let component = self.get_component();
        Self::render_component(component)
    }

    /// Renders the current component along with the style block.
    pub fn build(&self) -> (r: String)
        ensures
            r@ == build_markup(self@),
    {
        let render = self.render();
        let style = self.build_style();
        let mut out = render;
        out.append("\n            ");
        out.append(style.as_str());
        proof {
            assert(out@ =~= build_markup(self@));
        }
        out
    }

    /// Generates a complete HTML document, including the head and body
    /// sections.
    pub fn build_as_html(&self) -> (r: String)
        ensures
            r@ == document_markup(self@),
    {
        let render = self.render();
        let style = self.build_style();
        let mut out = String::new();
        out.append("<html><head>");
        out.append(style.as_str());
        out.append("</head><body>");
        out.append(render.as_str());
        out.append("</body></html>");
        proof {
            assert(out@ =~= document_markup(self@));
        }
        out
    }
}

} // verus!
