//! The per-run element store, widget value store and delta log.
use vstd::prelude::*;
use crate::element::{ElementId, ElementKind, ElementType, SimpleElement};
use crate::widget::{SimpleWidget, Widget, WidgetValue, WidgetValueView};
use dashmap::DashMap;

verus! {

/// One structural change of the client-visible tree.
#[derive(Debug, PartialEq)]
pub enum Delta {
    /// Add a new element.
    AddElement { id: ElementId, element: ElementType, parent_id: Option<ElementId> },
    /// Replace an element with one of the same kind.
    UpdateElement { id: ElementId, element: ElementType },
    /// Remove an element.
    RemoveElement { id: ElementId },
    /// Remove all children of a container.
    ClearContainer { id: ElementId },
}

/// What a delta holds, with the element kind as its view.
pub enum DeltaView {
    AddElement { id: ElementId, element: ElementKind, parent_id: Option<ElementId> },
    UpdateElement { id: ElementId, element: ElementKind },
    RemoveElement { id: ElementId },
    ClearContainer { id: ElementId },
}

impl View for Delta {
    type V = DeltaView;

    open spec fn view(&self) -> DeltaView {
        match self {
            Delta::AddElement { id, element, parent_id } => DeltaView::AddElement {
                id: *id,
                element: element@,
                parent_id: *parent_id,
            },
            Delta::UpdateElement { id, element } => DeltaView::UpdateElement {
                id: *id,
                element: element@,
            },
            Delta::RemoveElement { id } => DeltaView::RemoveElement { id: *id },
            Delta::ClearContainer { id } => DeltaView::ClearContainer { id: *id },
        }
    }
}

impl Clone for Delta {
    fn clone(&self) -> (r: Self)
        ensures
            r@ == self@,
    {
        match self {
            Delta::AddElement { id, element, parent_id } => Delta::AddElement {
                id: *id,
                element: element.clone(),
                parent_id: *parent_id,
            },
            Delta::UpdateElement { id, element } => Delta::UpdateElement {
                id: *id,
                element: element.clone(),
            },
            Delta::RemoveElement { id } => Delta::RemoveElement { id: *id },
            Delta::ClearContainer { id } => Delta::ClearContainer { id: *id },
        }
    }
}

/// The views of a sequence of deltas.
pub open spec fn deltas_view(s: Seq<Delta>) -> Seq<DeltaView> {
    s.map_values(|d: Delta| d@)
}

/// Elements added by a log come in increasing id order, all below `next`.
pub open spec fn adds_increasing(ds: Seq<DeltaView>, next: u64) -> bool {
    &&& forall|i: int, j: int|
        0 <= i < j < ds.len() ==> match (#[trigger] ds[i], #[trigger] ds[j]) {
            (DeltaView::AddElement { id: a, .. }, DeltaView::AddElement { id: b, .. }) => a@ < b@,
            _ => true,
        }
    &&& forall|i: int|
        0 <= i < ds.len() ==> match #[trigger] ds[i] {
            DeltaView::AddElement { id, .. } => id@ < next,
            _ => true,
        }
}

/// The next id grows by one at each step of a sequence of allocations.
pub open spec fn allocation_chain(states: Seq<GeneratorView>, ids: Seq<ElementId>) -> bool {
    &&& states.len() == ids.len() + 1
    &&& forall|i: int|
        0 <= i < ids.len() ==> (#[trigger] ids[i])@ == states[i].next_id && states[i + 1].next_id
            == states[i].next_id + 1
}

proof fn lemma_chain_offset(states: Seq<GeneratorView>, ids: Seq<ElementId>, k: int)
    requires
        allocation_chain(states, ids),
        0 <= k < ids.len(),
    ensures
        ids[k]@ == states[0].next_id + k,
    decreases k,
{
    if k > 0 {
        lemma_chain_offset(states, ids, k - 1);
        assert(ids[k - 1]@ == states[k - 1].next_id);
    }
}

/// Over any sequence of allocations on one generator, the ids handed out
/// strictly increase and never repeat; from a fresh generator the i-th id
/// is i + 1.
pub proof fn lemma_allocation_sequence(states: Seq<GeneratorView>, ids: Seq<ElementId>)
    requires
        allocation_chain(states, ids),
    ensures
        forall|i: int, j: int| 0 <= i < j < ids.len() ==> (#[trigger] ids[i])@ < (#[trigger] ids[j])@,
        states[0].next_id == 1 ==> forall|i: int| 0 <= i < ids.len() ==> (#[trigger] ids[i])@ == i + 1,
{
    assert forall|i: int| 0 <= i < ids.len() implies (#[trigger] ids[i])@ == states[0].next_id + i by {
        lemma_chain_offset(states, ids, i);
    }
}

/// The state of a delta generator.
pub struct GeneratorView {
    /// Live elements by id.
    pub elements: Map<u64, ElementKind>,
    /// Widget values by key.
    pub widgets: Map<Seq<char>, WidgetValueView>,
    /// Deltas recorded since they were last taken.
    pub deltas: Seq<DeltaView>,
    /// The id the next element receives.
    pub next_id: u64,
}

/// A concurrent map from element id values to elements.
pub type ElementMap = DashMap<u64, SimpleElement>;

/// A concurrent map from widget keys to widgets.
pub type WidgetMap = DashMap<String, SimpleWidget>;

/// The elements a concurrent map holds, by id value.
pub uninterp spec fn element_entries(m: ElementMap) -> Map<u64, SimpleElement>;

/// The widgets a concurrent map holds, by the text of their key.
pub uninterp spec fn widget_entries(m: WidgetMap) -> Map<Seq<char>, SimpleWidget>;

/// The empty map of elements.
pub open spec fn no_elements() -> Map<u64, SimpleElement> {
    Map::empty()
}

/// The empty map of widgets.
pub open spec fn no_widgets() -> Map<Seq<char>, SimpleWidget> {
    Map::empty()
}

/// Relies on `dashmap::DashMap::new`: an empty map.
#[verifier::external_body]
fn elements_new() -> (r: ElementMap)
    ensures
        element_entries(r) == no_elements(),
{
    DashMap::new()
}

/// Relies on `dashmap::DashMap::insert`: the key then maps to the value,
/// replacing any earlier one.
#[verifier::external_body]
fn elements_insert(m: &mut ElementMap, k: u64, v: SimpleElement)
    ensures
        element_entries(*final(m)) == element_entries(*old(m)).insert(k, v),
{
    m.insert(k, v);
}

/// Relies on `dashmap::DashMap::remove`: the key is then absent.
#[verifier::external_body]
fn elements_remove(m: &mut ElementMap, k: u64)
    ensures
        element_entries(*final(m)) == element_entries(*old(m)).remove(k),
{
    m.remove(&k);
}

/// Relies on `dashmap::DashMap::get`: a copy of the element under the key,
/// if present.
#[verifier::external_body]
fn elements_get(m: &ElementMap, k: u64) -> (r: Option<SimpleElement>)
    ensures
        r.is_some() == element_entries(*m).contains_key(k),
        r.is_some() ==> r.unwrap().id == element_entries(*m)[k].id && r.unwrap().element_type@
            == element_entries(*m)[k].element_type@,
{
    m.get(&k).map(|e| e.value().clone())
}

/// Relies on `dashmap::DashMap::iter`: a copy of every entry, each once, in
/// an order the map chooses.
#[verifier::external_body]
fn elements_all(m: &ElementMap) -> (r: Vec<(u64, SimpleElement)>)
    ensures
        forall|i: int|
            0 <= i < r@.len() ==> element_entries(*m).contains_key((#[trigger] r@[i]).0)
                && r@[i].1.id == element_entries(*m)[r@[i].0].id
                && r@[i].1.element_type@ == element_entries(*m)[r@[i].0].element_type@,
        forall|k: u64|
            #[trigger] element_entries(*m).contains_key(k) ==> exists|i: int|
                0 <= i < r@.len() && #[trigger] r@[i].0 == k,
        forall|i: int, j: int| 0 <= i < j < r@.len() ==> (#[trigger] r@[i]).0 != (#[trigger] r@[j]).0,
{
    m.iter().map(|e| (*e.key(), e.value().clone())).collect()
}

/// Relies on `dashmap::DashMap::clear`: the map is then empty.
#[verifier::external_body]
fn elements_clear(m: &mut ElementMap)
    ensures
        element_entries(*final(m)) == no_elements(),
{
    m.clear();
}

/// Relies on `dashmap::DashMap::new`: an empty map.
#[verifier::external_body]
fn widgets_new() -> (r: WidgetMap)
    ensures
        widget_entries(r) == no_widgets(),
{
    DashMap::new()
}

/// Relies on `dashmap::DashMap::insert`: the key then maps to the value,
/// replacing any earlier one under an equal key.
#[verifier::external_body]
fn widgets_insert(m: &mut WidgetMap, k: String, v: SimpleWidget)
    ensures
        widget_entries(*final(m)) == widget_entries(*old(m)).insert(k@, v),
{
    m.insert(k, v);
}

/// Relies on `dashmap::DashMap::get`: a copy of the widget under the key,
/// if present.
#[verifier::external_body]
fn widgets_get(m: &WidgetMap, k: &str) -> (r: Option<SimpleWidget>)
    ensures
        r.is_some() == widget_entries(*m).contains_key(k@),
        r.is_some() ==> r.unwrap().spec_key() == widget_entries(*m)[k@].spec_key()
            && r.unwrap().spec_value() == widget_entries(*m)[k@].spec_value(),
{
    m.get(k).map(|e| e.value().clone())
}

/// Relies on `dashmap::DashMap::iter`: a copy of every entry, each once, in
/// an order the map chooses.
#[verifier::external_body]
fn widgets_all(m: &WidgetMap) -> (r: Vec<(String, SimpleWidget)>)
    ensures
        forall|i: int|
            0 <= i < r@.len() ==> widget_entries(*m).contains_key((#[trigger] r@[i]).0@)
                && r@[i].1.spec_value() == widget_entries(*m)[r@[i].0@].spec_value(),
        forall|k: Seq<char>|
            #[trigger] widget_entries(*m).contains_key(k) ==> exists|i: int|
                0 <= i < r@.len() && #[trigger] r@[i].0@ == k,
        forall|i: int, j: int| 0 <= i < j < r@.len() ==> (#[trigger] r@[i]).0@ != (#[trigger] r@[j]).0@,
{
    m.iter().map(|e| (e.key().clone(), e.value().clone())).collect()
}

/// Relies on `dashmap::DashMap::clear`: the map is then empty.
#[verifier::external_body]
fn widgets_clear(m: &mut WidgetMap)
    ensures
        widget_entries(*final(m)) == no_widgets(),
{
    m.clear();
}

/// The kinds of the elements of a map, by id value.
pub open spec fn kinds_of(m: Map<u64, SimpleElement>) -> Map<u64, ElementKind> {
    Map::new(|k: u64| m.contains_key(k), |k: u64| m[k].element_type@)
}

/// The values of the widgets of a map, by key.
pub open spec fn values_of(m: Map<Seq<char>, SimpleWidget>) -> Map<Seq<char>, WidgetValueView> {
    Map::new(|k: Seq<char>| m.contains_key(k), |k: Seq<char>| m[k].spec_value())
}

/// Records elements, widget values and deltas for one run.
///
/// Element ids are handed out in increasing order from 1 and never reused.
pub struct DeltaGenerator {
    elements: ElementMap,
    widgets: WidgetMap,
    deltas: Vec<Delta>,
    next_element_id: u64,
}

impl View for DeltaGenerator {
    type V = GeneratorView;

    closed spec fn view(&self) -> GeneratorView {
        GeneratorView {
            elements: kinds_of(element_entries(self.elements)),
            widgets: values_of(widget_entries(self.widgets)),
            deltas: deltas_view(self.deltas@),
            next_id: self.next_element_id,
        }
    }
}

impl DeltaGenerator {
    /// The store's internal consistency.
    pub closed spec fn wf(&self) -> bool {
        &&& self.next_element_id >= 1
        &&& adds_increasing(deltas_view(self.deltas@), self.next_element_id)
        &&& forall|id: u64|
            #[trigger] element_entries(self.elements).contains_key(id) ==> id < self.next_element_id
                && element_entries(self.elements)[id].id@ == id
    }

    /// Ids are handed out in strictly increasing order: in the delta log,
    /// each added element has a smaller id than every element added after
    /// it, and than the id the next element will receive.
    pub proof fn lemma_monotonic_ids(&self)
        requires
            self.wf(),
        ensures
            adds_increasing(self@.deltas, self@.next_id),
    {
    }

    /// Create an empty generator whose first element id is 1.
    pub fn new() -> (r: DeltaGenerator)
        ensures
            r.wf(),
            r@.elements == Map::<u64, ElementKind>::empty(),
            r@.widgets == Map::<Seq<char>, WidgetValueView>::empty(),
            r@.deltas == Seq::<DeltaView>::empty(),
            r@.next_id == 1,
    {
        let r = DeltaGenerator {
            elements: elements_new(),
            widgets: widgets_new(),
            deltas: Vec::new(),
            next_element_id: 1,
        };
        assert(deltas_view(r.deltas@) =~= Seq::<DeltaView>::empty());
        assert(r@.elements =~= Map::<u64, ElementKind>::empty());
        assert(r@.widgets =~= Map::<Seq<char>, WidgetValueView>::empty());
        r
    }

    /// Hand out the next element id.
    pub fn next_element_id(&mut self) -> (r: ElementId)
        requires
            old(self).wf(),
            old(self)@.next_id < u64::MAX,
        ensures
            final(self).wf(),
            r@ == old(self)@.next_id,
            final(self)@.next_id == old(self)@.next_id + 1,
            final(self)@.elements == old(self)@.elements,
            final(self)@.widgets == old(self)@.widgets,
            final(self)@.deltas == old(self)@.deltas,
    {
        let current = self.next_element_id;
        self.next_element_id = current + 1;
        ElementId::new(current)
    }

    fn push_delta(&mut self, d: Delta)
        requires
            old(self).wf(),
            match d@ {
                DeltaView::AddElement { id, .. } => id@ < old(self)@.next_id && forall|i: int|
                    0 <= i < old(self)@.deltas.len() ==> match #[trigger] old(self)@.deltas[i] {
                        DeltaView::AddElement { id: a, .. } => a@ < id@,
                        _ => true,
                    },
                _ => true,
            },
        ensures
            final(self).wf(),
            final(self)@.next_id == old(self)@.next_id,
            final(self)@.elements == old(self)@.elements,
            final(self)@.widgets == old(self)@.widgets,
            final(self)@.deltas == old(self)@.deltas.push(d@),
    {
        let ghost dv = d@;
        self.deltas.push(d);
        assert(deltas_view(self.deltas@) =~= deltas_view(old(self).deltas@).push(dv));
        let ghost ds = deltas_view(self.deltas@);
        let ghost ods = deltas_view(old(self).deltas@);
        assert forall|i: int, j: int| 0 <= i < j < ds.len() implies match (#[trigger] ds[i], #[trigger] ds[j]) {
            (DeltaView::AddElement { id: a, .. }, DeltaView::AddElement { id: b, .. }) => a@ < b@,
            _ => true,
        } by {
            assert(ds[i] == ods[i]);
            if j < ods.len() {
                assert(ds[j] == ods[j]);
            } else {
                assert(ds[j] == dv);
                assert(old(self)@.deltas[i] == ods[i]);
            }
        }
        assert forall|i: int| 0 <= i < ds.len() implies match #[trigger] ds[i] {
            DeltaView::AddElement { id, .. } => id@ < self.next_element_id,
            _ => true,
        } by {
            if i < ods.len() {
                assert(ds[i] == ods[i]);
            }
        }
    }

    /// Record an element under a fresh id and log its addition.
    pub fn add_element(&mut self, element_type: ElementType, parent_id: Option<ElementId>) -> (r:
        ElementId)
        requires
            old(self).wf(),
            old(self)@.next_id < u64::MAX,
        ensures
            final(self).wf(),
            r@ == old(self)@.next_id,
            final(self)@.next_id == old(self)@.next_id + 1,
            final(self)@.elements == old(self)@.elements.insert(r@, element_type@),
            final(self)@.widgets == old(self)@.widgets,
            final(self)@.deltas == old(self)@.deltas.push(
                DeltaView::AddElement { id: r, element: element_type@, parent_id },
            ),
    {
        let id = self.next_element_id();
        let stored = SimpleElement::new(id, element_type.clone());
        elements_insert(&mut self.elements, id.0, stored);
        assert(self@.elements =~= old(self)@.elements.insert(id@, element_type@));
        self.push_delta(Delta::AddElement { id, element: element_type, parent_id });
        id
    }

    /// Log an update of an element.
    pub fn update_element(&mut self, id: ElementId, element_type: ElementType)
        requires
            old(self).wf(),
        ensures
            final(self).wf(),
            final(self)@.next_id == old(self)@.next_id,
            final(self)@.elements == old(self)@.elements,
            final(self)@.widgets == old(self)@.widgets,
            final(self)@.deltas == old(self)@.deltas.push(
                DeltaView::UpdateElement { id, element: element_type@ },
            ),
    {
        self.push_delta(Delta::UpdateElement { id, element: element_type });
    }

    /// Remove an element from the store and log its removal.
    pub fn remove_element(&mut self, id: ElementId)
        requires
            old(self).wf(),
        ensures
            final(self).wf(),
            final(self)@.next_id == old(self)@.next_id,
            final(self)@.elements == old(self)@.elements.remove(id@),
            final(self)@.widgets == old(self)@.widgets,
            final(self)@.deltas == old(self)@.deltas.push(DeltaView::RemoveElement { id }),
    {
        elements_remove(&mut self.elements, id.0);
        assert(self@.elements =~= old(self)@.elements.remove(id@));
        self.push_delta(Delta::RemoveElement { id });
    }

    /// Log the clearing of a container.
    pub fn clear_container(&mut self, id: ElementId)
        requires
            old(self).wf(),
        ensures
            final(self).wf(),
            final(self)@.next_id == old(self)@.next_id,
            final(self)@.elements == old(self)@.elements,
            final(self)@.widgets == old(self)@.widgets,
            final(self)@.deltas == old(self)@.deltas.push(DeltaView::ClearContainer { id }),
    {
        self.push_delta(Delta::ClearContainer { id });
    }

    /// Hand out the recorded deltas, in order, and empty the log.
    pub fn take_deltas(&mut self) -> (r: Vec<Delta>)
        requires
            old(self).wf(),
        ensures
            final(self).wf(),
            deltas_view(r@) == old(self)@.deltas,
            final(self)@.deltas == Seq::<DeltaView>::empty(),
            final(self)@.next_id == old(self)@.next_id,
            final(self)@.elements == old(self)@.elements,
            final(self)@.widgets == old(self)@.widgets,
    {
        let mut out: Vec<Delta> = Vec::new();
        std::mem::swap(&mut out, &mut self.deltas);
        assert(deltas_view(self.deltas@) =~= Seq::<DeltaView>::empty());
        out
    }

    /// Store a value under a key, replacing any earlier one, marked as changed.
    pub fn set_widget(&mut self, key: String, value: WidgetValue)
        requires
            old(self).wf(),
        ensures
            final(self).wf(),
            final(self)@.widgets == old(self)@.widgets.insert(key@, value@),
            final(self)@.next_id == old(self)@.next_id,
            final(self)@.elements == old(self)@.elements,
            final(self)@.deltas == old(self)@.deltas,
    {
        let ghost k = key@;
        let ghost v = value@;
        let mut widget = SimpleWidget::new(key.clone(), value);
        widget.mark_changed();
        widgets_insert(&mut self.widgets, key, widget);
        assert(self@.widgets =~= old(self)@.widgets.insert(k, v));
    }

    /// The value stored under a key, if any.
    pub fn get_widget(&self, key: &str) -> (r: Option<WidgetValue>)
        requires
            self.wf(),
        ensures
            r.is_some() == self@.widgets.contains_key(key@),
            r.is_some() ==> r.unwrap()@ == self@.widgets[key@],
    {
        match widgets_get(&self.widgets, key) {
            Some(w) => Some(w.value().clone()),
            None => None,
        }
    }

    /// Every stored key with its value, each key once, in no given order.
    pub fn widgets(&self) -> (r: Vec<(String, WidgetValue)>)
        requires
            self.wf(),
        ensures
            forall|i: int|
                0 <= i < r@.len() ==> self@.widgets.contains_key((#[trigger] r@[i]).0@)
                    && self@.widgets[r@[i].0@] == r@[i].1@,
            forall|k: Seq<char>|
                #[trigger] self@.widgets.contains_key(k) ==> exists|i: int|
                    0 <= i < r@.len() && #[trigger] r@[i].0@ == k,
            forall|i: int, j: int| 0 <= i < j < r@.len() ==> (#[trigger] r@[i]).0@ != (#[trigger] r@[j]).0@,
    {
        let all = widgets_all(&self.widgets);
        let mut r: Vec<(String, WidgetValue)> = Vec::new();
        let mut i: usize = 0;
        while i < all.len()
            invariant
                i <= all@.len(),
                r@.len() == i,
                forall|j: int| 0 <= j < i ==> (#[trigger] r@[j]).0@ == all@[j].0@ && r@[j].1@ == all@[j].1.spec_value(),
            decreases all@.len() - i,
        {
            r.push((all[i].0.clone(), all[i].1.value().clone()));
            i = i + 1;
        }
        assert forall|k: Seq<char>| #[trigger] self@.widgets.contains_key(k) implies exists|a: int|
            0 <= a < r@.len() && #[trigger] r@[a].0@ == k by {
            assert(widget_entries(self.widgets).contains_key(k));
            let a = choose|a: int| 0 <= a < all@.len() && #[trigger] all@[a].0@ == k;
            assert(r@[a].0@ == k);
        }
        assert forall|a: int, b: int| 0 <= a < b < r@.len() implies (#[trigger] r@[a]).0@ != (#[trigger] r@[b]).0@ by {
            assert(all@[a].0@ != all@[b].0@);
        }
        r
    }

    /// The element recorded under an id, if it is still present.
    pub fn get_element(&self, id: ElementId) -> (r: Option<SimpleElement>)
        requires
            self.wf(),
        ensures
            r.is_some() == self@.elements.contains_key(id@),
            r.is_some() ==> r.unwrap().id == id && r.unwrap().element_type@
                == self@.elements[id@],
    {
        let r = elements_get(&self.elements, id.0);
        proof {
            if r.is_some() {
                ElementId::lemma_view_injective(r.unwrap().id, id);
            }
        }
        r
    }

    /// Every present element with its kind, each once, in no given order.
    pub fn elements(&self) -> (r: Vec<(ElementId, ElementType)>)
        requires
            self.wf(),
        ensures
            forall|i: int|
                0 <= i < r@.len() ==> self@.elements.contains_key((#[trigger] r@[i]).0@)
                    && self@.elements[r@[i].0@] == r@[i].1@,
            forall|id: u64|
                #[trigger] self@.elements.contains_key(id) ==> exists|i: int|
                    0 <= i < r@.len() && #[trigger] r@[i].0@ == id,
            forall|i: int, j: int| 0 <= i < j < r@.len() ==> (#[trigger] r@[i]).0@ != (#[trigger] r@[j]).0@,
    {
        let all = elements_all(&self.elements);
        let mut r: Vec<(ElementId, ElementType)> = Vec::new();
        let mut i: usize = 0;
        while i < all.len()
            invariant
                self.wf(),
                i <= all@.len(),
                r@.len() == i,
                forall|j: int| 0 <= j < all@.len() ==> element_entries(self.elements).contains_key((#[trigger] all@[j]).0)
                    && all@[j].1.id == element_entries(self.elements)[all@[j].0].id
                    && all@[j].1.element_type@ == element_entries(self.elements)[all@[j].0].element_type@,
                forall|j: int| 0 <= j < i ==> (#[trigger] r@[j]).0@ == all@[j].0 && r@[j].1@ == all@[j].1.element_type@,
            decreases all@.len() - i,
        {
            let e = &all[i].1;
            r.push((e.id, e.element_type.clone()));
            i = i + 1;
        }
        assert forall|x: u64| #[trigger] self@.elements.contains_key(x) implies exists|a: int|
            0 <= a < r@.len() && #[trigger] r@[a].0@ == x by {
            assert(element_entries(self.elements).contains_key(x));
            let a = choose|a: int| 0 <= a < all@.len() && #[trigger] all@[a].0 == x;
            assert(r@[a].0@ == x);
        }
        assert forall|a: int, b: int| 0 <= a < b < r@.len() implies (#[trigger] r@[a]).0@ != (#[trigger] r@[b]).0@ by {
            assert(all@[a].0 != all@[b].0);
        }
        r
    }

    /// Forget all elements, widget values and deltas; ids keep counting.
    pub fn clear(&mut self)
        requires
            old(self).wf(),
        ensures
            final(self).wf(),
            final(self)@.elements == Map::<u64, ElementKind>::empty(),
            final(self)@.widgets == Map::<Seq<char>, WidgetValueView>::empty(),
            final(self)@.deltas == Seq::<DeltaView>::empty(),
            final(self)@.next_id == old(self)@.next_id,
    {
        elements_clear(&mut self.elements);
        widgets_clear(&mut self.widgets);
        self.deltas.clear();
        assert(deltas_view(self.deltas@) =~= Seq::<DeltaView>::empty());
        assert(self@.elements =~= Map::<u64, ElementKind>::empty());
        assert(self@.widgets =~= Map::<Seq<char>, WidgetValueView>::empty());
    }
}

impl Default for DeltaGenerator {
    fn default() -> (r: DeltaGenerator)
        ensures
            r.wf(),
            r@.elements == Map::<u64, ElementKind>::empty(),
            r@.widgets == Map::<Seq<char>, WidgetValueView>::empty(),
            r@.deltas == Seq::<DeltaView>::empty(),
            r@.next_id == 1,
    {
        DeltaGenerator::new()
    }
}

} // verus!
