//! Container component.

pub mod stack;

use crate::aspects::Align;
use crate::aspects::BackgroundColor;
use crate::aspects::BorderPart;
use crate::aspects::BorderStyle;
use crate::aspects::Color;
use crate::aspects::Gap;
use crate::aspects::Height;
use crate::aspects::Order;
use crate::aspects::Padding;
use crate::aspects::Size;
use crate::aspects::Width;
use crate::components::clone_component;
use crate::components::component_model;
use crate::components::components_model;
use crate::components::lemma_components_model;
use crate::components::ComponentModel;
use crate::components::Components;
use vstd::prelude::*;

verus! {

/// Represents a container with customizable aspects like size, color,
/// border, and alignment, holding an ordered list of child components.
#[derive(Debug, PartialEq)]
pub struct Container {
    /// Components contained within the container, in render order.
    pub components: Vec<Components>,
    /// Background color of the container.
    pub background_color: BackgroundColor,
    /// Width of the container; zero means automatic sizing.
    pub width: Width,
    /// Whether the container should occupy the full width.
    pub is_width_full: bool,
    /// Height of the container; zero means automatic sizing.
    pub height: Height,
    /// Whether the container should occupy the full height.
    pub is_height_full: bool,
    /// Border properties of the container.
    pub border: BorderStyle,
    /// Layout direction of components within the container.
    pub direction: Order,
    /// Gap between components in the container.
    pub gap: Gap,
    /// Padding inside the container.
    pub padding: Padding,
    /// Whether the container uses flexible layout.
    pub is_flex: bool,
    /// Alignment of content within the container.
    pub align_content: Align,
    /// Alignment of individual items within the container.
    pub align_items: Align,
}

/// The mathematical model of a [`Container`]: its children as a sequence
/// of component models.
pub ghost struct ContainerModel {
    /// Models of the children, in render order.
    pub components: Seq<ComponentModel>,
    /// Background color.
    pub background_color: BackgroundColor,
    /// Width; zero means automatic sizing.
    pub width: Width,
    /// Whether the container occupies the full width.
    pub is_width_full: bool,
    /// Height; zero means automatic sizing.
    pub height: Height,
    /// Whether the container occupies the full height.
    pub is_height_full: bool,
    /// Border properties.
    pub border: BorderStyle,
    /// Layout direction of the children.
    pub direction: Order,
    /// Gap between children.
    pub gap: Gap,
    /// Padding inside the container.
    pub padding: Padding,
    /// Whether the container uses flexible layout.
    pub is_flex: bool,
    /// Alignment of content.
    pub align_content: Align,
    /// Alignment of individual items.
    pub align_items: Align,
}

/// The model of a container: each child replaced by its model, every other
/// aspect kept.
pub open spec fn container_model(c: Container) -> ContainerModel
    decreases c,
{
    ContainerModel {
        components: components_model(c.components@),
        background_color: c.background_color,
        width: c.width,
        is_width_full: c.is_width_full,
        height: c.height,
        is_height_full: c.is_height_full,
        border: c.border,
        direction: c.direction,
        gap: c.gap,
        padding: c.padding,
        is_flex: c.is_flex,
        align_content: c.align_content,
        align_items: c.align_items,
    }
}

impl View for Container {
    type V = ContainerModel;

    open spec fn view(&self) -> ContainerModel {
        container_model(*self)
    }
}

/// Clones a container and its children; the copy has the same model.
pub fn clone_container(c: &Container) -> (res: Container)
    ensures
        res@ == c@,
    decreases *c,
{
    let mut components: Vec<Components> = Vec::new();
    let mut k: usize = 0;
    while k < c.components.len()
        invariant
            k <= c.components@.len(),
            components@.len() == k as int,
            forall|i: int| 0 <= i < k ==> components@[i]@ == c.components@[i]@,
        decreases c.components@.len() - k,
    {
        let child = clone_component(&c.components[k]);
        components.push(child);
        k = k + 1;
    }
    proof {
        lemma_components_model(components@);
        lemma_components_model(c.components@);
        assert(components_model(components@) =~= components_model(c.components@));
    }
    Container {
        components,
        background_color: c.background_color,
        width: c.width,
        is_width_full: c.is_width_full,
        height: c.height,
        is_height_full: c.is_height_full,
        border: c.border,
        direction: c.direction,
        gap: c.gap,
        padding: c.padding,
        is_flex: c.is_flex,
        align_content: c.align_content,
        align_items: c.align_items,
    }
}

impl Clone for Container {
    fn clone(&self) -> (res: Self)
        ensures
            res@ == self@,
    {
        clone_container(self)
    }
}

/// Whether a [`ContainerModel`] holds exactly the default values.
pub open spec fn is_default_container_model(c: ContainerModel) -> bool {
    &&& c.components == Seq::<ComponentModel>::empty()
    &&& c.background_color == (0u8, 0u8, 0u8, 0u8)
    &&& c.width == 0u64
    &&& !c.is_width_full
    &&& c.height == 0u64
    &&& !c.is_height_full
    &&& c.border == ((0u64, 0u64, 0u64, 0u64), (0u8, 0u8, 0u8, 0u8), 0u64)
    &&& c.direction == Order::TopToBottom
    &&& c.gap == 0u64
    &&& c.padding == 0u64
    &&& !c.is_flex
    &&& c.align_content == Align::Left
    &&& c.align_items == Align::Left
}

/// Whether a [`Container`] holds exactly the default values: no children,
/// transparent black background, automatic sizing, a zero border, top to
/// bottom flow, no spacing, block layout and start alignment.
pub open spec fn is_default_container(c: Container) -> bool {
    &&& c.components@ == Seq::<Components>::empty()
    &&& c.background_color == (0u8, 0u8, 0u8, 0u8)
    &&& c.width == 0u64
    &&& !c.is_width_full
    &&& c.height == 0u64
    &&& !c.is_height_full
    &&& c.border == ((0u64, 0u64, 0u64, 0u64), (0u8, 0u8, 0u8, 0u8), 0u64)
    &&& c.direction == Order::TopToBottom
    &&& c.gap == 0u64
    &&& c.padding == 0u64
    &&& !c.is_flex
    &&& c.align_content == Align::Left
    &&& c.align_items == Align::Left
}

/// Returns a default [`Container`] instance.
pub fn container() -> (r: Container)
    ensures
        is_default_container(r),
{
    Container::default()
}

impl Default for Container {
    fn default() -> (r: Self)
        ensures
            is_default_container(r),
    {
        Container {
            components: Vec::new(),
            background_color: (0, 0, 0, 0),
            width: 0,
            is_width_full: false,
            height: 0,
            is_height_full: false,
            border: ((0, 0, 0, 0), (0, 0, 0, 0), 0),
            direction: Order::TopToBottom,
            gap: 0,
            padding: 0,
            is_flex: false,
            align_content: Align::Left,
            align_items: Align::Left,
        }
    }
}

impl Container {
    /// Adds a single component to the container.
    pub fn component(self, component: Components) -> (r: Self)
        ensures
            r.components@ == self.components@.push(component),
            r.background_color == self.background_color,
            r.width == self.width,
            r.is_width_full == self.is_width_full,
            r.height == self.height,
            r.is_height_full == self.is_height_full,
            r.border == self.border,
            r.direction == self.direction,
            r.gap == self.gap,
            r.padding == self.padding,
            r.is_flex == self.is_flex,
            r.align_content == self.align_content,
            r.align_items == self.align_items,
    {
        let mut s = self;
        s.components.push(component);
        s
    }

    /// Adds multiple components to the container, keeping their order.
    pub fn components(self, components: Vec<Components>) -> (r: Self)
        ensures
            r.components@ == self.components@ + components@,
            r.background_color == self.background_color,
            r.width == self.width,
            r.is_width_full == self.is_width_full,
            r.height == self.height,
            r.is_height_full == self.is_height_full,
            r.border == self.border,
            r.direction == self.direction,
            r.gap == self.gap,
            r.padding == self.padding,
            r.is_flex == self.is_flex,
            r.align_content == self.align_content,
            r.align_items == self.align_items,
    {
        let mut s = self;
        let mut incoming = components;
        s.components.append(&mut incoming);
        s
    }

    /// Retrieves all components in the container.
    pub fn get_components(&self) -> (r: &[Components])
        ensures
            r@ == self.components@,
    {
        self.components.as_slice()
    }

    /// Sets the gap between components in the container.
    pub fn gap(self, gap: Gap) -> (r: Self)
        ensures
            r == (Container { gap, ..self }),
    {
        let mut s = self;
        s.gap = gap;
        s
    }

    /// Sets the padding inside the container.
    pub fn padding(self, padding: Padding) -> (r: Self)
        ensures
            r == (Container { padding, ..self }),
    {
        let mut s = self;
        s.padding = padding;
        s
    }

    /// Retrieves the gap setting of the container.
    pub fn get_gap(&self) -> (r: &Gap)
        ensures
            *r == self.gap,
    {
        &self.gap
    }

    /// Retrieves the padding setting of the container.
    pub fn get_padding(&self) -> (r: &Padding)
        ensures
            *r == self.padding,
    {
        &self.padding
    }

    /// Sets the background color of the container.
    pub fn background_color(self, background_color: BackgroundColor) -> (r: Self)
        ensures
            r == (Container { background_color, ..self }),
    {
        let mut s = self;
        s.background_color = background_color;
        s
    }

    /// Sets the width of the container.
    pub fn width(self, width: Width) -> (r: Self)
        ensures
            r == (Container { width, ..self }),
    {
        let mut s = self;
        s.width = width;
        s
    }

    /// Sets the height of the container.
    pub fn height(self, height: Height) -> (r: Self)
        ensures
            r == (Container { height, ..self }),
    {
        let mut s = self;
        s.height = height;
        s
    }

    /// Toggles whether the container occupies the full width.
    pub fn width_full(self) -> (r: Self)
        ensures
            r == (Container { is_width_full: !self.is_width_full, ..self }),
    {
        let mut s = self;
        s.is_width_full = !s.is_width_full;
        s
    }

    /// Toggles whether the container occupies the full height.
    pub fn height_full(self) -> (r: Self)
        ensures
            r == (Container { is_height_full: !self.is_height_full, ..self }),
    {
        let mut s = self;
        s.is_height_full = !s.is_height_full;
        s
    }

    /// Sets the border properties of the container.
    pub fn border(self, border: BorderStyle) -> (r: Self)
        ensures
            r == (Container { border, ..self }),
    {
        let mut s = self;
        s.border = border;
        s
    }

    /// Sets the border color of the container.
    pub fn border_color(self, border_color: Color) -> (r: Self)
        ensures
            r == (Container { border: (self.border.0, border_color, self.border.2), ..self }),
    {
        let mut s = self;
        let (part, _, radius) = s.border;
        s.border = (part, border_color, radius);
        s
    }

    /// Sets the border radius of the container.
    pub fn border_radius(self, border_size: Size) -> (r: Self)
        ensures
            r == (Container { border: (self.border.0, self.border.1, border_size), ..self }),
    {
        let mut s = self;
        let (part, color, _) = s.border;
        s.border = (part, color, border_size);
        s
    }

    /// Sets the four border edge widths of the container.
    pub fn border_size(self, border_size: BorderPart) -> (r: Self)
        ensures
            r == (Container { border: (border_size, self.border.1, self.border.2), ..self }),
    {
        let mut s = self;
        let (_, color, radius) = s.border;
        s.border = (border_size, color, radius);
        s
    }

    /// Sets all four border edge widths of the container to one size.
    pub fn border_size_full(self, border_size_full: Size) -> (r: Self)
        ensures
            r == (Container {
                border: (
                    (border_size_full, border_size_full, border_size_full, border_size_full),
                    self.border.1,
                    self.border.2,
                ),
                ..self
            }),
    {
        let mut s = self;
        let (_, color, radius) = s.border;
        s.border = ((border_size_full, border_size_full, border_size_full, border_size_full), color, radius);
        s
    }

    /// Sets the left border edge width.
    pub fn border_size_l(self, border_size_l: Size) -> (r: Self)
        ensures
            r == (Container {
                border: (
                    (border_size_l, self.border.0.1, self.border.0.2, self.border.0.3),
                    self.border.1,
                    self.border.2,
                ),
                ..self
            }),
    {
        let mut s = self;
        let ((_, t, b, rr), color, radius) = s.border;
        s.border = ((border_size_l, t, b, rr), color, radius);
        s
    }

    /// Sets the top border edge width.
    pub fn border_size_t(self, border_size_t: Size) -> (r: Self)
        ensures
            r == (Container {
                border: (
                    (self.border.0.0, border_size_t, self.border.0.2, self.border.0.3),
                    self.border.1,
                    self.border.2,
                ),
                ..self
            }),
    {
        let mut s = self;
        let ((l, _, b, rr), color, radius) = s.border;
        s.border = ((l, border_size_t, b, rr), color, radius);
        s
    }

    /// Sets the bottom border edge width.
    pub fn border_size_b(self, border_size_b: Size) -> (r: Self)
        ensures
            r == (Container {
                border: (
                    (self.border.0.0, self.border.0.1, border_size_b, self.border.0.3),
                    self.border.1,
                    self.border.2,
                ),
                ..self
            }),
    {
        let mut s = self;
        let ((l, t, _, rr), color, radius) = s.border;
        s.border = ((l, t, border_size_b, rr), color, radius);
        s
    }

    /// Sets the right border edge width.
    pub fn border_size_r(self, border_size_r: Size) -> (r: Self)
        ensures
            r == (Container {
                border: (
                    (self.border.0.0, self.border.0.1, self.border.0.2, border_size_r),
                    self.border.1,
                    self.border.2,
                ),
                ..self
            }),
    {
        let mut s = self;
        let ((l, t, b, _), color, radius) = s.border;
        s.border = ((l, t, b, border_size_r), color, radius);
        s
    }

    /// Sets the layout direction of components in the container.
    pub fn direction(self, direction: Order) -> (r: Self)
        ensures
            r == (Container { direction, ..self }),
    {
        let mut s = self;
        s.direction = direction;
        s
    }

    /// Toggles whether the container uses flexible layout.
    pub fn flex(self) -> (r: Self)
        ensures
            r == (Container { is_flex: !self.is_flex, ..self }),
    {
        let mut s = self;
        s.is_flex = !s.is_flex;
        s
    }

    /// Sets the alignment of content within the container.
    pub fn align_content(self, align_content: Align) -> (r: Self)
        ensures
            r == (Container { align_content, ..self }),
    {
        let mut s = self;
        s.align_content = align_content;
        s
    }

    /// Sets the alignment of individual items within the container.
    pub fn align_items(self, align_items: Align) -> (r: Self)
        ensures
            r == (Container { align_items, ..self }),
    {
        let mut s = self;
        s.align_items = align_items;
        s
    }

    /// Retrieves the flexible layout setting of the container.
    pub fn get_flex(&self) -> (r: &bool)
        ensures
            *r == self.is_flex,
    {
        &self.is_flex
    }

    /// Retrieves the full-width setting of the container.
    pub fn get_width_full(&self) -> (r: &bool)
        ensures
            *r == self.is_width_full,
    {
        &self.is_width_full
    }

    /// Retrieves the full-height setting of the container.
    pub fn get_height_full(&self) -> (r: &bool)
        ensures
            *r == self.is_height_full,
    {
        &self.is_height_full
    }

    /// Retrieves the alignment of content within the container.
    pub fn get_align_content(&self) -> (r: &Align)
        ensures
            *r == self.align_content,
    {
        &self.align_content
    }

    /// Retrieves the alignment of items within the container.
    pub fn get_align_items(&self) -> (r: &Align)
        ensures
            *r == self.align_items,
    {
        &self.align_items
    }

    /// Retrieves the background color of the container.
    pub fn get_background_color(&self) -> (r: &BackgroundColor)
        ensures
            *r == self.background_color,
    {
        &self.background_color
    }

    /// Retrieves the width of the container.
    pub fn get_width(&self) -> (r: &Width)
        ensures
            *r == self.width,
    {
        &self.width
    }

    /// Retrieves the height of the container.
    pub fn get_height(&self) -> (r: &Height)
        ensures
            *r == self.height,
    {
        &self.height
    }

    /// Retrieves the border properties of the container.
    pub fn get_border(&self) -> (r: &BorderStyle)
        ensures
            *r == self.border,
    {
        &self.border
    }

    /// Retrieves the layout direction of the container.
    pub fn get_direction(&self) -> (r: &Order)
        ensures
            *r == self.direction,
    {
        &self.direction
    }
}

} // verus!
