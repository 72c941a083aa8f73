//! The component tree.
//!
//! [`Components`] is the sum of the three node kinds: [`Container`]
//! (recursive), [`Text`] and [`Icon`]. It is the input of the markup
//! compiler in [`crate::layouts`].

pub mod container;
pub mod icon;
pub mod text;

pub use container::container;
pub use container::Container;
pub use icon::icon;
pub use icon::Icon;
pub use text::text;
pub use text::Text;

use vstd::prelude::*;

verus! {

/// A node of the component tree.
#[derive(Debug, PartialEq)]
pub enum Components {
    /// A container holding further components.
    Container(Container),
    /// A text leaf.
    Text(Text),
    /// An icon leaf.
    Icon(Icon),
}

/// The mathematical model of a component tree node.
pub ghost enum ComponentModel {
    /// A container holding further components.
    Container(container::ContainerModel),
    /// A text leaf.
    Text(text::TextModel),
    /// An icon leaf.
    Icon(icon::IconModel),
}

/// The model of a component: each node of the tree replaced by its model.
pub open spec fn component_model(c: Components) -> ComponentModel
    decreases c,
{
    match c {
        Components::Container(ct) => ComponentModel::Container(container::container_model(ct)),
        Components::Text(t) => ComponentModel::Text(t@),
        Components::Icon(i) => ComponentModel::Icon(i@),
    }
}

/// The models of a sequence of components, in order.
pub open spec fn components_model(s: Seq<Components>) -> Seq<ComponentModel>
    decreases s,
{
    if s.len() == 0 {
        Seq::empty()
    } else {
        components_model(s.drop_last()).push(component_model(s.last()))
    }
}

/// [`components_model`] maps [`component_model`] over the sequence: it
/// keeps the length and models each element in place.
pub proof fn lemma_components_model(s: Seq<Components>)
    ensures
        components_model(s).len() == s.len(),
        forall|i: int|
            0 <= i < s.len() ==> components_model(s)[i] == component_model(s[i]),
    decreases s.len(),
{
    if s.len() > 0 {
        lemma_components_model(s.drop_last());
    }
}

/// Whether a component model is the default one: an empty default
/// container.
pub open spec fn is_default_component(m: ComponentModel) -> bool {
    m matches ComponentModel::Container(c) && container::is_default_container_model(c)
}

impl View for Components {
    type V = ComponentModel;

    open spec fn view(&self) -> ComponentModel {
        component_model(*self)
    }
}

/// Clones a component tree; the copy has the same model.
pub fn clone_component(c: &Components) -> (res: Components)
    ensures
        res@ == c@,
    decreases *c,
{
    match c {
        Components::Container(ct) => Components::Container(container::clone_container(ct)),
        Components::Text(t) => Components::Text(t.clone()),
        Components::Icon(i) => Components::Icon(i.clone()),
    }
}

impl Clone for Components {
    fn clone(&self) -> (res: Self)
        ensures
            res@ == self@,
    {
        clone_component(self)
    }
}

impl Default for Components {
    /// The default component: an empty default [`Container`].
    fn default() -> (r: Self)
        ensures
            r matches Components::Container(c) && container::is_default_container(c),
    {
        Components::Container(Container::default())
    }
}

impl From<Container> for Components {
    fn from(value: Container) -> (r: Self) {
        Components::Container(value)
    }
}

impl vstd::std_specs::convert::FromSpecImpl<Container> for Components {
    open spec fn obeys_from_spec() -> bool {
        true
    }

    open spec fn from_spec(value: Container) -> Self {
        Components::Container(value)
    }
}

impl From<Text> for Components {
    fn from(value: Text) -> (r: Self) {
        Components::Text(value)
    }
}

impl vstd::std_specs::convert::FromSpecImpl<Text> for Components {
    open spec fn obeys_from_spec() -> bool {
        true
    }

    open spec fn from_spec(value: Text) -> Self {
        Components::Text(value)
    }
}

impl From<Icon> for Components {
    fn from(value: Icon) -> (r: Self) {
        Components::Icon(value)
    }
}

impl vstd::std_specs::convert::FromSpecImpl<Icon> for Components {
    open spec fn obeys_from_spec() -> bool {
        true
    }

    open spec fn from_spec(value: Icon) -> Self {
        Components::Icon(value)
    }
}

} // verus!
