//! Capabilities that element implementations offer.
use vstd::prelude::*;
use crate::element::ElementId;
use crate::error::Error;

verus! {

/// An element that can be rendered: it has an id and a name.
pub trait Renderable {
    /// The element id.
    spec fn spec_id(&self) -> ElementId;

    /// The element id.
    fn id(&self) -> (r: ElementId)
        ensures
            r == self.spec_id(),
    ;

    /// The element name.
    fn name(&self) -> &str;
}

/// An element that can check its own data.
pub trait Validatable: Renderable {
    /// Whether the element's data is valid.
    spec fn spec_valid(&self) -> bool;

    /// Check the element's data.
    fn validate(&self) -> (r: Result<(), Error>)
        ensures
            r.is_ok() == self.spec_valid(),
    ;

    /// The messages of what is wrong with the element's data; none when it
    /// is valid.
    fn validation_errors(&self) -> (r: Vec<String>)
        ensures
            (r@.len() == 0) == self.spec_valid(),
    {
        match self.validate() {
            Ok(()) => Vec::new(),
            Err(e) => {
                let mut v: Vec<String> = Vec::new();
                v.push(e.message());
                v
            },
        }
    }
}

/// An element with CSS classes and inline styles.
pub trait Styleable: Renderable {
    /// The CSS classes.
    fn css_classes(&self) -> Vec<&str>;

    /// The inline styles, as property and value.
    fn inline_styles(&self) -> Vec<(&str, &str)>;

    /// The theme variant, if any.
    fn theme_variant(&self) -> Option<&str> {
        None
    }
}

/// An element that holds child elements.
pub trait Container: Renderable {
    /// The child ids, in order.
    spec fn spec_children(&self) -> Seq<ElementId>;

    /// The child ids, in order.
    fn children(&self) -> (r: Vec<ElementId>)
        ensures
            r@ == self.spec_children(),
    ;

    /// Add a child after the others.
    fn add_child(&mut self, child_id: ElementId) -> (r: Result<(), Error>)
        ensures
            r.is_ok(),
            final(self).spec_children() == old(self).spec_children().push(child_id),
    ;

    /// Remove every occurrence of a child.
    fn remove_child(&mut self, child_id: ElementId) -> (r: Result<(), Error>)
        ensures
            r.is_ok(),
            final(self).spec_children() == old(self).spec_children().filter(|c: ElementId| c != child_id),
    ;

    /// Remove all children.
    fn clear_children(&mut self)
        ensures
            final(self).spec_children() == Seq::<ElementId>::empty(),
    ;

    /// Whether there is any child.
    fn has_children(&self) -> (r: bool)
        ensures
            r == (self.spec_children().len() > 0),
    {
        self.children().len() > 0
    }
}

/// An element whose rendering can be cached.
pub trait Cacheable: Renderable {
    /// The cache key.
    fn cache_key(&self) -> String;

    /// Whether the cached rendering is still valid.
    fn is_cache_valid(&self) -> bool;

    /// Drop the cached rendering.
    fn invalidate_cache(&mut self);

    /// How long a cached rendering lives, in milliseconds: five minutes
    /// unless an element says otherwise.
    fn cache_ttl(&self) -> Option<u64> {
        Some(300000)
    }
}

/// An element with accessibility data.
pub trait Accessible: Renderable {
    /// The ARIA label, if any.
    fn aria_label(&self) -> Option<&str>;

    /// The ARIA role, if any.
    fn aria_role(&self) -> Option<&str>;

    /// The ARIA description, if any.
    fn aria_description(&self) -> Option<&str>;

    /// Whether the element can be used from the keyboard.
    fn is_keyboard_accessible(&self) -> bool {
        true
    }
}

/// A screen-width range.
#[derive(Debug)]
pub struct Breakpoint {
    pub name: String,
    pub min_width: u32,
    pub max_width: Option<u32>,
}

impl Clone for Breakpoint {
    fn clone(&self) -> (r: Self)
        ensures
            r == *self,
    {
        Breakpoint {
            name: self.name.clone(),
            min_width: self.min_width,
            max_width: self.max_width,
        }
    }
}

/// How an element lays out its content.
#[derive(Debug)]
pub struct Layout {
    pub display: String,
    pub flex_direction: Option<String>,
    pub width: Option<String>,
    pub height: Option<String>,
}

/// The view of a breakpoint: name, least width and greatest width.
pub open spec fn breakpoint_view(b: Breakpoint) -> (Seq<char>, u32, Option<u32>) {
    (b.name@, b.min_width, b.max_width)
}

/// The view of a layout: display, direction, width and height.
pub open spec fn layout_view(l: Layout) -> (Seq<char>, Option<Seq<char>>, Option<Seq<char>>, Option<Seq<char>>) {
    (l.display@, crate::element::opt_view(l.flex_direction), crate::element::opt_view(l.width), crate::element::opt_view(l.height))
}

/// An element that adapts its layout to the screen width.
pub trait Responsive: Renderable {
    /// The breakpoints it knows, in order.
    spec fn spec_breakpoints(&self) -> Seq<(Seq<char>, u32, Option<u32>)>;

    /// The layout for a named breakpoint, if it knows the name.
    spec fn spec_layout(&self, breakpoint: Seq<char>) -> Option<(Seq<char>, Option<Seq<char>>, Option<Seq<char>>, Option<Seq<char>>)>;

    /// The breakpoints it knows, in order.
    fn breakpoints(&self) -> (r: Vec<Breakpoint>)
        ensures
            r@.map_values(|b: Breakpoint| breakpoint_view(b)) == self.spec_breakpoints(),
    ;

    /// The layout for a named breakpoint, if it knows the name.
    fn layout_for_breakpoint(&self, breakpoint: &str) -> (r: Option<Layout>)
        ensures
            match r {
                Some(l) => self.spec_layout(breakpoint@) == Some(layout_view(l)),
                None => self.spec_layout(breakpoint@).is_none(),
            },
    ;
}

/// An element that can switch between named themes.
pub trait Themeable: Renderable {
    /// The current theme.
    spec fn spec_theme(&self) -> Seq<char>;

    /// The themes it can switch to.
    spec fn spec_themes(&self) -> Seq<Seq<char>>;

    /// The current theme.
    fn current_theme(&self) -> (r: &str)
        ensures
            r@ == self.spec_theme(),
    ;

    /// Switch to a theme; a theme it does not know is refused and nothing
    /// changes.
    fn set_theme(&mut self, theme: &str) -> (r: Result<(), Error>)
        ensures
            r.is_ok() == old(self).spec_themes().contains(theme@),
            r.is_ok() ==> final(self).spec_theme() == theme@,
            !r.is_ok() ==> final(self).spec_theme() == old(self).spec_theme(),
            final(self).spec_themes() == old(self).spec_themes(),
    ;

    /// The themes it can switch to.
    fn available_themes(&self) -> (r: Vec<&str>)
        ensures
            r@.map_values(|s: &str| s@) == self.spec_themes(),
    ;
}

/// An element with text in several languages.
pub trait Localizable: Renderable {
    /// The current locale.
    fn current_locale(&self) -> &str;

    /// Switch to a locale.
    fn set_locale(&mut self, locale: &str) -> Result<(), Error>;

    /// The text for a key in the current locale, if any.
    fn get_localized_string(&self, key: &str) -> Option<String>;

    /// The locales it knows.
    fn available_locales(&self) -> Vec<&str>;
}

} // verus!
