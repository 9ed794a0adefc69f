//! A container that adapts to the screen width.
use vstd::prelude::*;
use crate::base::{BaseElement, BaseView, empty_metadata};
use crate::element::{ElementId, clone_ids};
use crate::text::str_eq;
use crate::traits::{Breakpoint, Layout, Renderable, Responsive, breakpoint_view, layout_view};

verus! {

/// The three breakpoints a responsive container knows, narrowest first.
pub open spec fn default_breakpoints() -> Seq<(Seq<char>, u32, Option<u32>)> {
    seq![("mobile"@, 0u32, Some(640u32)), ("tablet"@, 641u32, Some(1024u32)), ("desktop"@, 1025u32, None)]
}

/// The layout of each breakpoint a responsive container knows.
pub open spec fn default_layout(name: Seq<char>) -> Option<(Seq<char>, Option<Seq<char>>, Option<Seq<char>>, Option<Seq<char>>)> {
    if name == "mobile"@ {
        Some(("flex"@, Some("column"@), Some("100%"@), None))
    } else if name == "tablet"@ {
        Some(("grid"@, Some("row"@), Some("100%"@), None))
    } else if name == "desktop"@ {
        Some(("grid"@, Some("row"@), Some("1200px"@), None))
    } else {
        None
    }
}

/// What a responsive container holds.
pub struct ResponsiveView {
    pub base: BaseView,
    pub children: Seq<ElementId>,
    pub breakpoints: Seq<(Seq<char>, u32, Option<u32>)>,
    pub current_breakpoint: Seq<char>,
}

/// A container whose layout follows named screen-width breakpoints.
pub struct ResponsiveContainerElement {
    base: BaseElement,
    children: Vec<ElementId>,
    breakpoints: Vec<Breakpoint>,
    current_breakpoint: String,
}

impl View for ResponsiveContainerElement {
    type V = ResponsiveView;

    closed spec fn view(&self) -> ResponsiveView {
        ResponsiveView {
            base: self.base@,
            children: self.children@,
            breakpoints: self.breakpoints@.map_values(|b: Breakpoint| breakpoint_view(b)),
            current_breakpoint: self.current_breakpoint@,
        }
    }
}

impl ResponsiveContainerElement {
    /// An empty container named "responsive_container", with the mobile,
    /// tablet and desktop breakpoints, at desktop.
    pub fn new(id: ElementId) -> (r: ResponsiveContainerElement)
        ensures
            r@ == (ResponsiveView {
                base: BaseView { id, name: "responsive_container"@, metadata: empty_metadata() },
                children: Seq::empty(),
                breakpoints: default_breakpoints(),
                current_breakpoint: "desktop"@,
            }),
    {
        let mut breakpoints: Vec<Breakpoint> = Vec::new();
        breakpoints.push(Breakpoint { name: "mobile".to_owned(), min_width: 0, max_width: Some(640) });
        breakpoints.push(Breakpoint { name: "tablet".to_owned(), min_width: 641, max_width: Some(1024) });
        breakpoints.push(Breakpoint { name: "desktop".to_owned(), min_width: 1025, max_width: None });
        let r = ResponsiveContainerElement {
            base: BaseElement::new(id, "responsive_container"),
            children: Vec::new(),
            breakpoints,
            current_breakpoint: "desktop".to_owned(),
        };
        assert(r@.breakpoints =~= default_breakpoints());
        r
    }

    /// Add a child after the others.
    pub fn add_child(&mut self, child_id: ElementId)
        ensures
            final(self)@ == (ResponsiveView { children: old(self)@.children.push(child_id), ..old(self)@ }),
    {
        self.children.push(child_id);
    }

    /// The child ids, in order.
    pub fn children(&self) -> (r: &[ElementId])
        ensures
            r@ == self@.children,
    {
        self.children.as_slice()
    }

    /// Switch to a breakpoint by name.
    pub fn set_current_breakpoint(&mut self, breakpoint: String)
        ensures
            final(self)@ == (ResponsiveView { current_breakpoint: breakpoint@, ..old(self)@ }),
    {
        self.current_breakpoint = breakpoint;
    }

    /// The current breakpoint.
    pub fn current_breakpoint(&self) -> (r: &str)
        ensures
            r@ == self@.current_breakpoint,
    {
        self.current_breakpoint.as_str()
    }

    /// The child ids, as a new list.
    pub fn child_list(&self) -> (r: Vec<ElementId>)
        ensures
            r@ == self@.children,
    {
        clone_ids(&self.children)
    }
}

impl Renderable for ResponsiveContainerElement {
    closed spec fn spec_id(&self) -> ElementId {
        self.base@.id
    }

    fn id(&self) -> (r: ElementId) {
        self.base.id()
    }

    fn name(&self) -> &str {
        self.base.name()
    }
}

/// A layout with the given display, direction and width, and no height.
fn layout_of(display: &str, direction: &str, width: &str) -> (r: Layout)
    ensures
        layout_view(r) == (display@, Some(direction@), Some(width@), None::<Seq<char>>),
{
    Layout {
        display: display.to_owned(),
        flex_direction: Some(direction.to_owned()),
        width: Some(width.to_owned()),
        height: None,
    }
}

impl Responsive for ResponsiveContainerElement {
    closed spec fn spec_breakpoints(&self) -> Seq<(Seq<char>, u32, Option<u32>)> {
        self.breakpoints@.map_values(|b: Breakpoint| breakpoint_view(b))
    }

    closed spec fn spec_layout(&self, breakpoint: Seq<char>) -> Option<(Seq<char>, Option<Seq<char>>, Option<Seq<char>>, Option<Seq<char>>)> {
        default_layout(breakpoint)
    }

    fn breakpoints(&self) -> (r: Vec<Breakpoint>) {
        let mut r: Vec<Breakpoint> = Vec::new();
        let mut i: usize = 0;
        while i < self.breakpoints.len()
            invariant
                i <= self.breakpoints@.len(),
                r@ == self.breakpoints@.subrange(0, i as int),
            decreases self.breakpoints@.len() - i,
        {
            r.push(self.breakpoints[i].clone());
            i = i + 1;
        }
        assert(r@ =~= self.breakpoints@);
        r
    }

    fn layout_for_breakpoint(&self, breakpoint: &str) -> (r: Option<Layout>) {
        if str_eq(breakpoint, "mobile") {
            Some(layout_of("flex", "column", "100%"))
        } else if str_eq(breakpoint, "tablet") {
            Some(layout_of("grid", "row", "100%"))
        } else if str_eq(breakpoint, "desktop") {
            Some(layout_of("grid", "row", "1200px"))
        } else {
            None
        }
    }
}

} // verus!
