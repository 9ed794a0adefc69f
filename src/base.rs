//! The part every element implementation shares: id, name and metadata.
use vstd::prelude::*;
use crate::element::{ElementId, opt_view, strings_view};
use crate::keyed::KeyedList;

verus! {

/// The views of a sequence of string pairs.
pub open spec fn pairs_view(s: Seq<(String, String)>) -> Seq<(Seq<char>, Seq<char>)> {
    s.map_values(|p: (String, String)| (p.0@, p.1@))
}

/// Styling and accessibility data of an element.
pub struct ElementMetadata {
    pub css_classes: Vec<String>,
    pub inline_styles: Vec<(String, String)>,
    pub aria_label: Option<String>,
    pub aria_role: Option<String>,
    pub data_attributes: KeyedList<String>,
}

/// What element metadata holds.
pub struct MetadataView {
    pub css_classes: Seq<Seq<char>>,
    pub inline_styles: Seq<(Seq<char>, Seq<char>)>,
    pub aria_label: Option<Seq<char>>,
    pub aria_role: Option<Seq<char>>,
    pub data_attributes: Map<Seq<char>, String>,
}

impl View for ElementMetadata {
    type V = MetadataView;

    open spec fn view(&self) -> MetadataView {
        MetadataView {
            css_classes: strings_view(self.css_classes@),
            inline_styles: pairs_view(self.inline_styles@),
            aria_label: opt_view(self.aria_label),
            aria_role: opt_view(self.aria_role),
            data_attributes: self.data_attributes@,
        }
    }
}

/// Metadata with nothing set.
pub open spec fn empty_metadata() -> MetadataView {
    MetadataView {
        css_classes: Seq::empty(),
        inline_styles: Seq::empty(),
        aria_label: None,
        aria_role: None,
        data_attributes: Map::empty(),
    }
}

impl Default for ElementMetadata {
    fn default() -> (r: ElementMetadata)
        ensures
            r@ == empty_metadata(),
    {
        let r = ElementMetadata {
            css_classes: Vec::new(),
            inline_styles: Vec::new(),
            aria_label: None,
            aria_role: None,
            data_attributes: KeyedList::new(),
        };
        assert(r@.css_classes =~= Seq::<Seq<char>>::empty());
        assert(r@.inline_styles =~= Seq::<(Seq<char>, Seq<char>)>::empty());
        r
    }
}

/// What a base element holds.
pub struct BaseView {
    pub id: ElementId,
    pub name: Seq<char>,
    pub metadata: MetadataView,
}

/// The shared part of an element: its id, its name and its metadata.
pub struct BaseElement {
    id: ElementId,
    name: String,
    metadata: ElementMetadata,
}

impl View for BaseElement {
    type V = BaseView;

    closed spec fn view(&self) -> BaseView {
        BaseView { id: self.id, name: self.name@, metadata: self.metadata@ }
    }
}

impl BaseElement {
    /// A base element with empty metadata.
    pub fn new(id: ElementId, name: &str) -> (r: BaseElement)
        ensures
            r@ == (BaseView { id, name: name@, metadata: empty_metadata() }),
    {
        BaseElement { id, name: name.to_owned(), metadata: ElementMetadata::default() }
    }

    /// The metadata, to change in place.
    pub fn metadata_mut(&mut self) -> (r: &mut ElementMetadata)
        ensures
            r@ == old(self)@.metadata,
            final(self)@ == (BaseView { metadata: final(r)@, ..old(self)@ }),
    {
        &mut self.metadata
    }

    /// The metadata.
    pub fn metadata(&self) -> (r: &ElementMetadata)
        ensures
            r@ == self@.metadata,
    {
        &self.metadata
    }

    /// The element id.
    pub fn id(&self) -> (r: ElementId)
        ensures
            r == self@.id,
    {
        self.id
    }

    /// The element name.
    pub fn name(&self) -> (r: &str)
        ensures
            r@ == self@.name,
    {
        self.name.as_str()
    }

    /// Add a CSS class, after those already there.
    pub fn add_class(&mut self, class: &str)
        ensures
            final(self)@ == (BaseView {
                metadata: MetadataView {
                    css_classes: old(self)@.metadata.css_classes.push(class@),
                    ..old(self)@.metadata
                },
                ..old(self)@
            }),
    {
        self.metadata.css_classes.push(class.to_owned());
        assert(strings_view(self.metadata.css_classes@) =~= strings_view(old(self).metadata.css_classes@).push(class@));
    }

    /// Add an inline style, after those already there.
    pub fn add_style(&mut self, property: &str, value: &str)
        ensures
            final(self)@ == (BaseView {
                metadata: MetadataView {
                    inline_styles: old(self)@.metadata.inline_styles.push((property@, value@)),
                    ..old(self)@.metadata
                },
                ..old(self)@
            }),
    {
        self.metadata.inline_styles.push((property.to_owned(), value.to_owned()));
        assert(pairs_view(self.metadata.inline_styles@) =~= pairs_view(old(self).metadata.inline_styles@).push((property@, value@)));
    }

    /// Set the ARIA label.
    pub fn set_aria_label(&mut self, label: &str)
        ensures
            final(self)@ == (BaseView {
                metadata: MetadataView { aria_label: Some(label@), ..old(self)@.metadata },
                ..old(self)@
            }),
    {
        self.metadata.aria_label = Some(label.to_owned());
    }

    /// Set the ARIA role.
    pub fn set_aria_role(&mut self, role: &str)
        ensures
            final(self)@ == (BaseView {
                metadata: MetadataView { aria_role: Some(role@), ..old(self)@.metadata },
                ..old(self)@
            }),
    {
        self.metadata.aria_role = Some(role.to_owned());
    }

    /// Set a data attribute, replacing an earlier value of the same key.
    pub fn set_data_attribute(&mut self, key: &str, value: &str)
        ensures
            final(self)@.id == old(self)@.id,
            final(self)@.name == old(self)@.name,
            final(self)@.metadata.css_classes == old(self)@.metadata.css_classes,
            final(self)@.metadata.inline_styles == old(self)@.metadata.inline_styles,
            final(self)@.metadata.aria_label == old(self)@.metadata.aria_label,
            final(self)@.metadata.aria_role == old(self)@.metadata.aria_role,
            final(self)@.metadata.data_attributes.contains_key(key@),
            final(self)@.metadata.data_attributes[key@]@ == value@,
            forall|k: Seq<char>| k != key@ ==> (#[trigger] final(self)@.metadata.data_attributes.contains_key(k)
                == old(self)@.metadata.data_attributes.contains_key(k)) && (old(self)@.metadata.data_attributes.contains_key(k)
                ==> final(self)@.metadata.data_attributes[k] == old(self)@.metadata.data_attributes[k]),
    {
        self.metadata.data_attributes.insert(key.to_owned(), value.to_owned());
    }

    /// The CSS classes, as borrowed strings.
    pub fn css_classes(&self) -> (r: Vec<&str>)
        ensures
            r@.map_values(|s: &str| s@) == self@.metadata.css_classes,
    {
        let mut r: Vec<&str> = Vec::new();
        let mut i: usize = 0;
        while i < self.metadata.css_classes.len()
            invariant
                i <= self.metadata.css_classes@.len(),
                r@.len() == i,
                forall|j: int| 0 <= j < i ==> (#[trigger] r@[j])@ == self.metadata.css_classes@[j]@,
            decreases self.metadata.css_classes@.len() - i,
        {
            r.push(self.metadata.css_classes[i].as_str());
            i = i + 1;
        }
        assert(r@.map_values(|s: &str| s@) =~= self@.metadata.css_classes);
        r
    }

    /// The inline styles, as borrowed pairs.
    pub fn inline_styles(&self) -> (r: Vec<(&str, &str)>)
        ensures
            r@.map_values(|p: (&str, &str)| (p.0@, p.1@)) == self@.metadata.inline_styles,
    {
        let mut r: Vec<(&str, &str)> = Vec::new();
        let mut i: usize = 0;
        while i < self.metadata.inline_styles.len()
            invariant
                i <= self.metadata.inline_styles@.len(),
                r@.len() == i,
                forall|j: int|
                    0 <= j < i ==> (#[trigger] r@[j]).0@ == self.metadata.inline_styles@[j].0@ && r@[j].1@
                        == self.metadata.inline_styles@[j].1@,
            decreases self.metadata.inline_styles@.len() - i,
        {
            let p = &self.metadata.inline_styles[i];
            r.push((p.0.as_str(), p.1.as_str()));
            i = i + 1;
        }
        assert(r@.map_values(|p: (&str, &str)| (p.0@, p.1@)) =~= self@.metadata.inline_styles);
        r
    }
}

} // verus!
