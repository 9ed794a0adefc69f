//! Container elements.
use vstd::prelude::*;
use crate::base::{BaseElement, BaseView, empty_metadata};
use crate::element::{ElementId, clone_ids};
use crate::error::Error;
use crate::traits::{Container, Renderable};

verus! {

/// What a container element holds.
pub struct ContainerView {
    pub base: BaseView,
    pub children: Seq<ElementId>,
}

/// An element that groups child elements.
pub struct ContainerElement {
    base: BaseElement,
    children: Vec<ElementId>,
}

impl View for ContainerElement {
    type V = ContainerView;

    closed spec fn view(&self) -> ContainerView {
        ContainerView { base: self.base@, children: self.children@ }
    }
}

impl ContainerElement {
    /// An empty container named "container".
    pub fn new(id: ElementId) -> (r: ContainerElement)
        ensures
            r@ == (ContainerView {
                base: BaseView { id, name: "container"@, metadata: empty_metadata() },
                children: Seq::empty(),
            }),
    {
        ContainerElement { base: BaseElement::new(id, "container"), children: Vec::new() }
    }
}

impl Renderable for ContainerElement {
    closed spec fn spec_id(&self) -> ElementId {
        self.base@.id
    }

    fn id(&self) -> (r: ElementId) {
        self.base.id()
    }

    fn name(&self) -> &str {
        self.base.name()
    }
}

impl Container for ContainerElement {
    closed spec fn spec_children(&self) -> Seq<ElementId> {
        self.children@
    }

    fn children(&self) -> (r: Vec<ElementId>) {
        clone_ids(&self.children)
    }

    fn add_child(&mut self, child_id: ElementId) -> (r: Result<(), Error>) {
        self.children.push(child_id);
        Ok(())
    }

    fn remove_child(&mut self, child_id: ElementId) -> (r: Result<(), Error>) {
        let mut kept: Vec<ElementId> = Vec::new();
        let mut i: usize = 0;
        while i < self.children.len()
            invariant
                i <= self.children@.len(),
                kept@ == self.children@.subrange(0, i as int).filter(|c: ElementId| c != child_id),
            decreases self.children@.len() - i,
        {
            let c = self.children[i];
            proof {
                reveal_with_fuel(Seq::filter, 1);
                assert(self.children@.subrange(0, i + 1).drop_last() =~= self.children@.subrange(0, i as int));
            }
            if c != child_id {
                kept.push(c);
            }
            i = i + 1;
        }
        assert(self.children@.subrange(0, self.children@.len() as int) =~= self.children@);
        self.children = kept;
        Ok(())
    }

    fn clear_children(&mut self) {
        self.children.clear();
    }
}

} // verus!
