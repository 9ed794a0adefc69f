//! Custom components: reusable element definitions with typed properties.
use vstd::prelude::*;
use crate::element::opt_view;
use crate::keyed::KeyedList;
use crate::text::joined;

verus! {

/// Name, version and optional author and description of a component.
#[derive(Debug, Clone, PartialEq)]
pub struct ComponentMetadata {
    pub name: String,
    pub version: String,
    pub author: Option<String>,
    pub description: Option<String>,
}

impl ComponentMetadata {
    /// Metadata with no author and no description.
    pub fn new(name: &str, version: &str) -> (r: ComponentMetadata)
        ensures
            r.name@ == name@,
            r.version@ == version@,
            r.author.is_none(),
            r.description.is_none(),
    {
        ComponentMetadata {
            name: name.to_owned(),
            version: version.to_owned(),
            author: None,
            description: None,
        }
    }

    /// The metadata with this author.
    pub fn with_author(self, author: &str) -> (r: ComponentMetadata)
        ensures
            r.name == self.name,
            r.version == self.version,
            r.description == self.description,
            crate::element::opt_view(r.author) == Some(author@),
    {
        let mut m = self;
        m.author = Some(author.to_owned());
        m
    }

    /// The metadata with this description.
    pub fn with_description(self, description: &str) -> (r: ComponentMetadata)
        ensures
            r.name == self.name,
            r.version == self.version,
            r.author == self.author,
            crate::element::opt_view(r.description) == Some(description@),
    {
        let mut m = self;
        m.description = Some(description.to_owned());
        m
    }
}

/// A property of a custom component; a default value is JSON text.
#[derive(Debug, Clone, PartialEq)]
pub struct ComponentProperty {
    pub name: String,
    pub prop_type: String,
    pub required: bool,
    pub default: Option<String>,
    pub description: Option<String>,
}

impl ComponentProperty {
    /// An optional property with no default and no description.
    pub fn new(name: &str, prop_type: &str) -> (r: ComponentProperty)
        ensures
            r.name@ == name@,
            r.prop_type@ == prop_type@,
            !r.required,
            r.default.is_none(),
            r.description.is_none(),
    {
        ComponentProperty {
            name: name.to_owned(),
            prop_type: prop_type.to_owned(),
            required: false,
            default: None,
            description: None,
        }
    }

    /// The property, required.
    pub fn required(self) -> (r: ComponentProperty)
        ensures
            r == (ComponentProperty { required: true, ..self }),
    {
        let mut p = self;
        p.required = true;
        p
    }

    /// The property with this default, given as JSON text.
    pub fn with_default(self, default: &str) -> (r: ComponentProperty)
        ensures
            r == (ComponentProperty { default: r.default, ..self }),
            opt_view(r.default) == Some(default@),
    {
        let mut p = self;
        p.default = Some(default.to_owned());
        p
    }

    /// The property with this description.
    pub fn with_description(self, description: &str) -> (r: ComponentProperty)
        ensures
            r == (ComponentProperty { description: r.description, ..self }),
            opt_view(r.description) == Some(description@),
    {
        let mut p = self;
        p.description = Some(description.to_owned());
        p
    }
}

/// Whether a property is required but has no default.
pub open spec fn lacks_default(p: ComponentProperty) -> bool {
    p.required && p.default.is_none()
}

/// The message for a required property without a default.
pub open spec fn lacks_default_message(name: Seq<char>) -> Seq<char> {
    "Required property '"@ + name + "' has no default"@
}

/// A component definition: metadata, properties by name, and a render
/// function given as JSON text.
pub struct CustomComponent {
    metadata: ComponentMetadata,
    properties: KeyedList<ComponentProperty>,
    render_fn: String,
}

impl CustomComponent {
    /// The metadata.
    pub closed spec fn spec_metadata(&self) -> ComponentMetadata {
        self.metadata
    }

    /// The properties by name.
    pub closed spec fn spec_properties(&self) -> Map<Seq<char>, ComponentProperty> {
        self.properties@
    }

    /// The property names in the order they were first added.
    pub closed spec fn spec_order(&self) -> Seq<Seq<char>> {
        self.properties.key_order()
    }

    /// The render function.
    pub closed spec fn spec_render_fn(&self) -> Seq<char> {
        self.render_fn@
    }

    /// A component with no properties and an empty render function.
    pub fn new(metadata: ComponentMetadata) -> (r: CustomComponent)
        ensures
            r.spec_metadata() == metadata,
            r.spec_properties() == Map::<Seq<char>, ComponentProperty>::empty(),
            r.spec_render_fn() == Seq::<char>::empty(),
    {
        CustomComponent { metadata, properties: KeyedList::new(), render_fn: String::new() }
    }

    /// Add a property, replacing one of the same name.
    pub fn add_property(&mut self, property: ComponentProperty)
        ensures
            final(self).spec_properties() == old(self).spec_properties().insert(property.name@, property),
            final(self).spec_metadata() == old(self).spec_metadata(),
            final(self).spec_render_fn() == old(self).spec_render_fn(),
    {
        let name = property.name.clone();
        self.properties.insert(name, property);
    }

    /// The property with this name, if any.
    pub fn get_property(&self, name: &str) -> (r: Option<&ComponentProperty>)
        ensures
            r.is_some() == self.spec_properties().contains_key(name@),
            r.is_some() ==> *r.unwrap() == self.spec_properties()[name@],
    {
        self.properties.get(name)
    }

    /// The properties, in the order they were first added.
    pub fn properties(&self) -> (r: Vec<&ComponentProperty>)
        ensures
            r@.len() == self.spec_order().len(),
            forall|i: int| 0 <= i < r@.len() ==> *(#[trigger] r@[i]) == self.spec_properties()[self.spec_order()[i]],
    {
        let n = self.properties.len();
        let mut r: Vec<&ComponentProperty> = Vec::new();
        let mut i: usize = 0;
        while i < n
            invariant
                i <= n,
                n == self.properties@.len(),
                self.properties.key_order().len() == n,
                r@.len() == i,
                forall|j: int| 0 <= j < i ==> *(#[trigger] r@[j]) == self.properties@[self.properties.key_order()[j]],
            decreases n - i,
        {
            let (_, p) = self.properties.entry_at(i);
            r.push(p);
            i = i + 1;
        }
        r
    }

    /// Replace the render function.
    pub fn set_render_fn(&mut self, render_fn: String)
        ensures
            final(self).spec_render_fn() == render_fn@,
            final(self).spec_metadata() == old(self).spec_metadata(),
            final(self).spec_properties() == old(self).spec_properties(),
    {
        self.render_fn = render_fn;
    }

    /// The metadata.
    pub fn metadata(&self) -> (r: &ComponentMetadata)
        ensures
            *r == self.spec_metadata(),
    {
        &self.metadata
    }

    /// Check that every required property has a default; report the first
    /// one, in the order they were added, that has none.
    pub fn validate(&self) -> (r: Result<(), String>)
        ensures
            r.is_ok() == (forall|k: Seq<char>| #[trigger] self.spec_properties().contains_key(k) ==> !lacks_default(self.spec_properties()[k])),
            !r.is_ok() ==> exists|k: Seq<char>| #[trigger] self.spec_properties().contains_key(k)
                && lacks_default(self.spec_properties()[k])
                && (r matches Err(m) && m@ == lacks_default_message(self.spec_properties()[k].name@)),
    {
        let n = self.properties.len();
        let mut i: usize = 0;
        while i < n
            invariant
                i <= n,
                n == self.properties@.len(),
                self.properties.key_order().len() == n,
                forall|j: int| 0 <= j < n ==> self.properties@.contains_key(#[trigger] self.properties.key_order()[j]),
                forall|k: Seq<char>| #[trigger] self.properties@.contains_key(k) ==> exists|j: int|
                    0 <= j < n && #[trigger] self.properties.key_order()[j] == k,
                forall|j: int| 0 <= j < i ==> !lacks_default(self.properties@[#[trigger] self.properties.key_order()[j]]),
            decreases n - i,
        {
            let (k, p) = self.properties.entry_at(i);
            if p.required && p.default.is_none() {
                let m = joined(joined("Required property '", p.name.as_str()).as_str(), "' has no default");
                assert(self.spec_properties().contains_key(k@));
                return Err(m);
            }
            i = i + 1;
        }
        assert forall|k: Seq<char>| #[trigger] self.spec_properties().contains_key(k) implies !lacks_default(self.spec_properties()[k]) by {
            let j = choose|j: int| 0 <= j < n && #[trigger] self.properties.key_order()[j] == k;
        }
        Ok(())
    }
}

/// Registered components, by name.
pub struct ComponentRegistry {
    components: KeyedList<CustomComponent>,
}

impl View for ComponentRegistry {
    type V = Map<Seq<char>, CustomComponent>;

    closed spec fn view(&self) -> Map<Seq<char>, CustomComponent> {
        self.components@
    }
}

impl ComponentRegistry {
    /// The names in the order they were first registered.
    pub closed spec fn spec_order(&self) -> Seq<Seq<char>> {
        self.components.key_order()
    }

    /// No components.
    pub fn new() -> (r: ComponentRegistry)
        ensures
            r@ == Map::<Seq<char>, CustomComponent>::empty(),
    {
        ComponentRegistry { components: KeyedList::new() }
    }

    /// Register a component under its name, replacing one of the same name;
    /// a component that does not validate is refused and nothing changes.
    pub fn register(&mut self, component: CustomComponent) -> (r: Result<(), String>)
        ensures
            r.is_ok() == (forall|k: Seq<char>| #[trigger] component.spec_properties().contains_key(k) ==> !lacks_default(component.spec_properties()[k])),
            r.is_ok() ==> final(self)@ == old(self)@.insert(component.spec_metadata().name@, component),
            !r.is_ok() ==> final(self)@ == old(self)@,
    {
        match component.validate() {
            Ok(()) => {},
            Err(e) => {
                return Err(e);
            },
        }
        let name = component.metadata.name.clone();
        self.components.insert(name, component);
        Ok(())
    }

    /// The component with this name, if any.
    pub fn get(&self, name: &str) -> (r: Option<&CustomComponent>)
        ensures
            r.is_some() == self@.contains_key(name@),
            r.is_some() ==> *r.unwrap() == self@[name@],
    {
        self.components.get(name)
    }

    /// Take out the component with this name, if any.
    pub fn unregister(&mut self, name: &str) -> (r: Option<CustomComponent>)
        ensures
            final(self)@ == old(self)@.remove(name@),
            r.is_some() == old(self)@.contains_key(name@),
            r.is_some() ==> r.unwrap() == old(self)@[name@],
    {
        self.components.remove(name)
    }

    /// The number of components.
    pub fn count(&self) -> (r: usize)
        ensures
            r == self@.len(),
    {
        self.components.len()
    }

    /// The names, in the order they were first registered.
    pub fn list(&self) -> (r: Vec<String>)
        ensures
            crate::element::strings_view(r@) == self.spec_order(),
            r@.len() == self@.len(),
    {
        self.components.keys()
    }

    /// The components, in the order they were first registered.
    pub fn components(&self) -> (r: Vec<&CustomComponent>)
        ensures
            r@.len() == self.spec_order().len(),
            forall|i: int| 0 <= i < r@.len() ==> *(#[trigger] r@[i]) == self@[self.spec_order()[i]],
    {
        let n = self.components.len();
        let mut r: Vec<&CustomComponent> = Vec::new();
        let mut i: usize = 0;
        while i < n
            invariant
                i <= n,
                n == self.components@.len(),
                self.components.key_order().len() == n,
                r@.len() == i,
                forall|j: int| 0 <= j < i ==> *(#[trigger] r@[j]) == self.components@[self.components.key_order()[j]],
            decreases n - i,
        {
            let (_, c) = self.components.entry_at(i);
            r.push(c);
            i = i + 1;
        }
        r
    }
}

impl Default for ComponentRegistry {
    fn default() -> (r: ComponentRegistry)
        ensures
            r@ == Map::<Seq<char>, CustomComponent>::empty(),
    {
        ComponentRegistry::new()
    }
}

/// A use of a component with property values given as JSON text.
pub struct ComponentInstance {
    component_name: String,
    props: KeyedList<String>,
}

impl ComponentInstance {
    /// The component's name.
    pub closed spec fn spec_name(&self) -> Seq<char> {
        self.component_name@
    }

    /// The property values by name.
    pub closed spec fn spec_props(&self) -> Map<Seq<char>, String> {
        self.props@
    }

    /// An instance with no property set.
    pub fn new(component_name: &str) -> (r: ComponentInstance)
        ensures
            r.spec_name() == component_name@,
            r.spec_props() == Map::<Seq<char>, String>::empty(),
    {
        ComponentInstance { component_name: component_name.to_owned(), props: KeyedList::new() }
    }

    /// Set a property value, replacing an earlier one of the same name.
    pub fn set_prop(&mut self, name: &str, value: &str)
        ensures
            final(self).spec_name() == old(self).spec_name(),
            final(self).spec_props().contains_key(name@),
            final(self).spec_props()[name@]@ == value@,
            forall|k: Seq<char>| k != name@ ==> (#[trigger] final(self).spec_props().contains_key(k)
                == old(self).spec_props().contains_key(k)) && (old(self).spec_props().contains_key(k)
                ==> final(self).spec_props()[k] == old(self).spec_props()[k]),
    {
        self.props.insert(name.to_owned(), value.to_owned());
    }

    /// The value of a property, if set.
    pub fn get_prop(&self, name: &str) -> (r: Option<&String>)
        ensures
            r.is_some() == self.spec_props().contains_key(name@),
            r.is_some() ==> *r.unwrap() == self.spec_props()[name@],
    {
        self.props.get(name)
    }

    /// The property values.
    pub fn props(&self) -> (r: &KeyedList<String>)
        ensures
            r@ == self.spec_props(),
    {
        &self.props
    }

    /// The component's name.
    pub fn component_name(&self) -> (r: &str)
        ensures
            r@ == self.spec_name(),
    {
        self.component_name.as_str()
    }
}

} // verus!
