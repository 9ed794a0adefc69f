//! The run context: the surface a script uses to declare elements and read
//! back the values of its widgets.
use vstd::prelude::*;
use crate::element::{
    ElementId, ElementKind, ElementType, opt_view, strings_view, rows_view, clone_strings,
};
use crate::error::Error;
use crate::number::{decimal_i64, parse_i64};
use crate::state::{Delta, DeltaGenerator, DeltaView, GeneratorView, deltas_view};
use crate::text::{joined, str_eq};
use crate::widget::{WidgetValue, WidgetValueView};

verus! {

/// The state of a run context.
pub struct RunView {
    /// Live elements by id.
    pub elements: Map<u64, ElementKind>,
    /// Widget values by key.
    pub widgets: Map<Seq<char>, WidgetValueView>,
    /// Deltas recorded since they were last taken.
    pub deltas: Seq<DeltaView>,
    /// The id the next element receives.
    pub next_id: u64,
    /// The container that new elements attach to, if any.
    pub parent: Option<ElementId>,
    /// The containers to return to, innermost last.
    pub scopes: Seq<Option<ElementId>>,
}

/// `after` is `before` with one element of the given kind declared under
/// the next id, attached to `parent`.
pub open spec fn declares(
    before: RunView,
    after: RunView,
    kind: ElementKind,
    parent: Option<ElementId>,
) -> bool {
    &&& after.next_id == before.next_id + 1
    &&& after.elements == before.elements.insert(before.next_id, kind)
    &&& after.widgets == before.widgets
    &&& after.deltas == before.deltas.push(
        DeltaView::AddElement { id: ElementId(before.next_id), element: kind, parent_id: parent },
    )
    &&& after.parent == before.parent
    &&& after.scopes == before.scopes
}

/// The key a widget is known by: the one given, or else the widget's role
/// prefix followed by its label.
pub open spec fn resolved_key(prefix: Seq<char>, label: Seq<char>, key: Option<Seq<char>>) -> Seq<
    char,
> {
    match key {
        Some(k) => k,
        None => prefix + label,
    }
}

/// The value stored under a key, if any.
pub open spec fn lookup(w: Map<Seq<char>, WidgetValueView>, k: Seq<char>) -> Option<WidgetValueView> {
    if w.contains_key(k) {
        Some(w[k])
    } else {
        None
    }
}

/// A stored text, or the default.
pub open spec fn text_or(v: Option<WidgetValueView>, default: Seq<char>) -> Seq<char> {
    match v {
        Some(WidgetValueView::Text(s)) => s,
        _ => default,
    }
}

/// A stored text, if there is one.
pub open spec fn text_opt(v: Option<WidgetValueView>) -> Option<Seq<char>> {
    match v {
        Some(WidgetValueView::Text(s)) => Some(s),
        _ => None,
    }
}

/// A stored number, or the default.
/// A stored number, or the default. A text that reads as a decimal number,
/// which is how a number arrives from the client, counts as that number.
pub open spec fn number_or(v: Option<WidgetValueView>, default: i64) -> i64 {
    match v {
        Some(WidgetValueView::Number(n)) => n,
        Some(WidgetValueView::Text(s)) => match decimal_i64(s) {
            Some(n) => n,
            None => default,
        },
        _ => default,
    }
}

/// A stored flag, or the default. The texts "true" and "false", which is
/// how a flag arrives from the client, count as flags.
pub open spec fn flag_or(v: Option<WidgetValueView>, default: bool) -> bool {
    match v {
        Some(WidgetValueView::Bool(b)) => b,
        Some(WidgetValueView::Text(s)) => if s == "true"@ {
            true
        } else if s == "false"@ {
            false
        } else {
            default
        },
        _ => default,
    }
}

/// A stored list of strings, or the default.
pub open spec fn texts_or(v: Option<WidgetValueView>, default: Seq<Seq<char>>) -> Seq<Seq<char>> {
    match v {
        Some(WidgetValueView::TextList(a)) => a,
        _ => default,
    }
}

/// Whether a click is stored under a button's key for the current run.
pub open spec fn clicked(w: Map<Seq<char>, WidgetValueView>, key: Seq<char>) -> bool {
    flag_or(lookup(w, key), false)
}

/// Whether a text is one JSON value.
pub uninterp spec fn is_json_text(s: Seq<char>) -> bool;

/// Relies on `serde_json::from_str` into a `serde_json::Value`: whether the
/// text holds one JSON value and nothing else but whitespace; the answer
/// depends on the text alone.
#[verifier::external_body]
fn json_text_valid(s: &str) -> (r: bool)
    ensures
        r == is_json_text(s@),
{
    serde_json::from_str::<serde_json::Value>(s).is_ok()
}

/// The key a widget reads its value from.
pub fn effective_key(prefix: &str, label: &str, key: &Option<String>) -> (r: String)
    ensures
        r@ == resolved_key(prefix@, label@, opt_view(*key)),
{
    match key {
        Some(k) => k.clone(),
        None => joined(prefix, label),
    }
}

fn read_text(v: &Option<WidgetValue>, default: String) -> (r: String)
    ensures
        r@ == text_or(match v { Some(x) => Some(x@), None => None }, default@),
{
    match v {
        Some(WidgetValue::String(s)) => s.clone(),
        _ => default,
    }
}

fn read_text_opt(v: &Option<WidgetValue>) -> (r: Option<String>)
    ensures
        opt_view(r) == text_opt(match v { Some(x) => Some(x@), None => None }),
{
    match v {
        Some(WidgetValue::String(s)) => Some(s.clone()),
        _ => None,
    }
}

fn read_number(v: &Option<WidgetValue>, default: i64) -> (r: i64)
    ensures
        r == number_or(match v { Some(x) => Some(x@), None => None }, default),
{
    match v {
        Some(WidgetValue::Number(n)) => *n,
        Some(WidgetValue::String(s)) => match parse_i64(s.as_str()) {
            Some(n) => n,
            None => default,
        },
        _ => default,
    }
}

fn read_flag(v: &Option<WidgetValue>, default: bool) -> (r: bool)
    ensures
        r == flag_or(match v { Some(x) => Some(x@), None => None }, default),
{
    match v {
        Some(WidgetValue::Bool(b)) => *b,
        Some(WidgetValue::String(s)) => {
            if str_eq(s.as_str(), "true") {
                true
            } else if str_eq(s.as_str(), "false") {
                false
            } else {
                default
            }
        },
        _ => default,
    }
}

fn read_texts(v: &Option<WidgetValue>, default: Vec<String>) -> (r: Vec<String>)
    ensures
        crate::element::strings_view(r@) == texts_or(
            match v { Some(x) => Some(x@), None => None },
            crate::element::strings_view(default@),
        ),
{
    match v {
        Some(WidgetValue::StringArray(a)) => crate::element::clone_strings(a),
        _ => default,
    }
}

/// The views of a sequence of string slices.
pub open spec fn strs_view(s: Seq<&str>) -> Seq<Seq<char>> {
    s.map_values(|x: &str| x@)
}

/// Owned copies of string slices.
pub fn to_strings(v: &Vec<&str>) -> (r: Vec<String>)
    ensures
        strings_view(r@) == strs_view(v@),
{
    let mut r: Vec<String> = Vec::new();
    let mut i: usize = 0;
    while i < v.len()
        invariant
            i <= v.len(),
            r@.len() == i,
            forall|j: int| 0 <= j < i ==> (#[trigger] r@[j])@ == v@[j]@,
        decreases v.len() - i,
    {
        r.push(v[i].to_owned());
        i = i + 1;
    }
    assert(strings_view(r@) =~= strs_view(v@));
    r
}

/// Deltas that add `n` elements of one kind under consecutive ids from
/// `start`, all attached to `parent`.
pub open spec fn repeated_adds(start: u64, n: nat, kind: ElementKind, parent: Option<ElementId>) -> Seq<
    DeltaView,
> {
    Seq::new(
        n,
        |i: int| DeltaView::AddElement { id: ElementId((start + i) as u64), element: kind, parent_id: parent },
    )
}

/// `before`'s elements together with `n` elements of one kind under
/// consecutive ids from `start`.
pub open spec fn with_repeated(before: Map<u64, ElementKind>, start: u64, n: nat, kind: ElementKind) -> Map<
    u64,
    ElementKind,
> {
    before.union_prefer_right(Map::new(|id: u64| start <= id < start + n, |id: u64| kind))
}

/// Tabs with the given labels and no children yet.
pub open spec fn empty_tabs(labels: Seq<Seq<char>>) -> Seq<(Seq<char>, Seq<ElementId>)> {
    labels.map_values(|l: Seq<char>| (l, Seq::<ElementId>::empty()))
}

/// The kind of each of `count` columns: a share of the width in percent.
pub open spec fn column_kind(count: nat) -> ElementKind {
    ElementKind::Column { children: Seq::<ElementId>::empty(), width: Some((100nat / count) as u32) }
}

/// An input widget declared without a key reads from a key made of its
/// role and label alone; since a declaration leaves the widget store as it
/// was, a second such widget with the same label in the same run reads the
/// same stored value as the first.
pub proof fn lemma_key_determinism(
    prefix: Seq<char>,
    label: Seq<char>,
    before: RunView,
    after: RunView,
    kind: ElementKind,
    parent: Option<ElementId>,
)
    requires
        declares(before, after, kind, parent),
    ensures
        resolved_key(prefix, label, None) == prefix + label,
        lookup(after.widgets, resolved_key(prefix, label, None)) == lookup(
            before.widgets,
            resolved_key(prefix, label, None),
        ),
{
}

/// A number widget reads the number stored under its key when there is
/// one, and the value the script gave otherwise.
pub proof fn lemma_value_carry_forward(
    w: Map<Seq<char>, WidgetValueView>,
    key: Seq<char>,
    value: i64,
    stored: i64,
)
    requires
        !w.contains_key(key),
    ensures
        number_or(lookup(w, key), value) == value,
        number_or(lookup(w.insert(key, WidgetValueView::Number(stored)), key), value) == stored,
{
}

/// The delta log does not depend on what an earlier run left in the element
/// store: two contexts whose logs and next ids agree, making the same
/// declaration under the same parent, again agree on both. Each run starts
/// from an empty log with ids from 1, so replaying the same declarations
/// records the same delta sequence.
pub proof fn lemma_replay_deterministic(
    a0: RunView,
    a1: RunView,
    b0: RunView,
    b1: RunView,
    kind: ElementKind,
    parent: Option<ElementId>,
)
    requires
        declares(a0, a1, kind, parent),
        declares(b0, b1, kind, parent),
        a0.deltas == b0.deltas,
        a0.next_id == b0.next_id,
    ensures
        a1.deltas == b1.deltas,
        a1.next_id == b1.next_id,
{
}

/// A declaration is added with the current container as its parent: the
/// container last entered, or none at the top level.
pub proof fn lemma_container_scoping(before: RunView, after: RunView, kind: ElementKind)
    requires
        declares(before, after, kind, before.parent),
    ensures
        after.deltas.len() == before.deltas.len() + 1,
        after.deltas.last() == (DeltaView::AddElement {
            id: ElementId(before.next_id),
            element: kind,
            parent_id: before.parent,
        }),
        before.scopes.len() == 0 && before.parent.is_none() ==> after.deltas.last() matches DeltaView::AddElement { parent_id: None, .. },
{
}

/// A handle on a container element; declarations made after
/// [`St::enter`] with it attach to that container.
#[derive(Debug, Clone, Copy, PartialEq, Eq, Structural)]
pub struct Container {
    pub id: ElementId,
}

impl Container {
    /// A handle on the container with this id.
    pub fn new(id: ElementId) -> (r: Container)
        ensures
            r.id == id,
    {
        Container { id }
    }

    /// The container's id.
    pub fn id(&self) -> (r: ElementId)
        ensures
            r == self.id,
    {
        self.id
    }
}

/// The run context of one rerun.
pub struct St {
    delta_gen: DeltaGenerator,
    current_container: Option<ElementId>,
    saved: Vec<Option<ElementId>>,
}

impl View for St {
    type V = RunView;

    closed spec fn view(&self) -> RunView {
        RunView {
            elements: self.delta_gen@.elements,
            widgets: self.delta_gen@.widgets,
            deltas: self.delta_gen@.deltas,
            next_id: self.delta_gen@.next_id,
            parent: self.current_container,
            scopes: self.saved@,
        }
    }
}

impl St {
    /// The context's internal consistency.
    pub closed spec fn wf(&self) -> bool {
        self.delta_gen.wf()
    }

    /// Room for `n` more elements.
    pub open spec fn has_room(&self, n: nat) -> bool {
        self@.next_id + n <= u64::MAX
    }

    /// A fresh context: no elements, no values, ids from 1, top level.
    pub fn new() -> (r: St)
        ensures
            r.wf(),
            r@.elements == Map::<u64, ElementKind>::empty(),
            r@.widgets == Map::<Seq<char>, WidgetValueView>::empty(),
            r@.deltas == Seq::<DeltaView>::empty(),
            r@.next_id == 1,
            r@.parent.is_none(),
            r@.scopes == Seq::<Option<ElementId>>::empty(),
    {
        St { delta_gen: DeltaGenerator::new(), current_container: None, saved: Vec::new() }
    }

    /// A context over an existing generator, at top level.
    pub fn with_delta_gen(delta_gen: DeltaGenerator) -> (r: St)
        requires
            delta_gen.wf(),
        ensures
            r.wf(),
            r@.elements == delta_gen@.elements,
            r@.widgets == delta_gen@.widgets,
            r@.deltas == delta_gen@.deltas,
            r@.next_id == delta_gen@.next_id,
            r@.parent.is_none(),
            r@.scopes == Seq::<Option<ElementId>>::empty(),
    {
        St { delta_gen, current_container: None, saved: Vec::new() }
    }

    /// The generator behind this context.
    pub fn delta_gen(&self) -> (r: &DeltaGenerator)
        requires
            self.wf(),
        ensures
            r.wf(),
            r@.elements == self@.elements,
            r@.widgets == self@.widgets,
            r@.deltas == self@.deltas,
            r@.next_id == self@.next_id,
    {
        &self.delta_gen
    }

    /// Attach the following declarations to a container, until `leave`.
    pub fn enter(&mut self, container: &Container)
        requires
            old(self).wf(),
        ensures
            final(self).wf(),
            final(self)@.parent == Some(container.id),
            final(self)@.scopes == old(self)@.scopes.push(old(self)@.parent),
            final(self)@.elements == old(self)@.elements,
            final(self)@.widgets == old(self)@.widgets,
            final(self)@.deltas == old(self)@.deltas,
            final(self)@.next_id == old(self)@.next_id,
    {
        self.saved.push(self.current_container);
        self.current_container = Some(container.id);
    }

    /// Go back to the container that was current before the last `enter`;
    /// at the outermost level, go back to the top level.
    pub fn leave(&mut self)
        requires
            old(self).wf(),
        ensures
            final(self).wf(),
            old(self)@.scopes.len() > 0 ==> final(self)@.parent == old(self)@.scopes.last()
                && final(self)@.scopes == old(self)@.scopes.drop_last(),
            old(self)@.scopes.len() == 0 ==> final(self)@.parent.is_none()
                && final(self)@.scopes == old(self)@.scopes,
            final(self)@.elements == old(self)@.elements,
            final(self)@.widgets == old(self)@.widgets,
            final(self)@.deltas == old(self)@.deltas,
            final(self)@.next_id == old(self)@.next_id,
    {
        match self.saved.pop() {
            Some(p) => {
                self.current_container = p;
            },
            None => {
                self.current_container = None;
            },
        }
    }

    /// Store a widget value, as the orchestrator does before a run.
    pub fn set_widget(&mut self, key: String, value: WidgetValue)
        requires
            old(self).wf(),
        ensures
            final(self).wf(),
            final(self)@.widgets == old(self)@.widgets.insert(key@, value@),
            final(self)@.elements == old(self)@.elements,
            final(self)@.deltas == old(self)@.deltas,
            final(self)@.next_id == old(self)@.next_id,
            final(self)@.parent == old(self)@.parent,
            final(self)@.scopes == old(self)@.scopes,
    {
        self.delta_gen.set_widget(key, value);
    }

    /// Declare an element under the current container.
    fn record(&mut self, element: ElementType) -> (r: ElementId)
        requires
            old(self).wf(),
            old(self).has_room(1),
        ensures
            final(self).wf(),
            r@ == old(self)@.next_id,
            declares(old(self)@, final(self)@, element@, old(self)@.parent),
    {
        self.delta_gen.add_element(element, self.current_container)
    }

    /// Display text.
    pub fn write(&mut self, text: &str) -> (r: ElementId)
        requires
            old(self).wf(),
            old(self).has_room(1),
        ensures
            final(self).wf(),
            r@ == old(self)@.next_id,
            declares(old(self)@, final(self)@, ElementKind::Text { value: text@ }, old(self)@.parent),
    {
        self.record(ElementType::Text { value: text.to_owned() })
    }

    /// Display markdown.
    pub fn markdown(&mut self, text: &str) -> (r: ElementId)
        requires
            old(self).wf(),
            old(self).has_room(1),
        ensures
            final(self).wf(),
            r@ == old(self)@.next_id,
            declares(
                old(self)@,
                final(self)@,
                ElementKind::Markdown { value: text@ },
                old(self)@.parent,
            ),
    {
        self.record(ElementType::Markdown { value: text.to_owned() })
    }

    /// Display code, with its language if known.
    pub fn code(&mut self, code: &str, language: Option<String>) -> (r: ElementId)
        requires
            old(self).wf(),
            old(self).has_room(1),
        ensures
            final(self).wf(),
            r@ == old(self)@.next_id,
            declares(
                old(self)@,
                final(self)@,
                ElementKind::Code { value: code@, language: opt_view(language) },
                old(self)@.parent,
            ),
    {
        self.record(ElementType::Code { value: code.to_owned(), language })
    }

    /// Display a heading of level 1 to 6; any other level is refused and
    /// nothing is declared.
    pub fn heading(&mut self, text: &str, level: u32) -> (r: Result<ElementId, Error>)
        requires
            old(self).wf(),
            (1 <= level <= 6) ==> old(self).has_room(1),
        ensures
            final(self).wf(),
            (1 <= level <= 6) == r.is_ok(),
            r.is_ok() ==> r.unwrap()@ == old(self)@.next_id && declares(
                old(self)@,
                final(self)@,
                ElementKind::Heading { value: text@, level },
                old(self)@.parent,
            ),
            r.is_err() ==> final(self)@ == old(self)@ && r.unwrap_err() matches Error::StateError(_),
    {
        if level < 1 || level > 6 {
            return Err(Error::state("Heading level must be between 1 and 6"));
        }
        Ok(self.record(ElementType::Heading { value: text.to_owned(), level }))
    }

    /// A level 1 heading.
    pub fn title(&mut self, text: &str) -> (r: ElementId)
        requires
            old(self).wf(),
            old(self).has_room(1),
        ensures
            final(self).wf(),
            r@ == old(self)@.next_id,
            declares(
                old(self)@,
                final(self)@,
                ElementKind::Heading { value: text@, level: 1 },
                old(self)@.parent,
            ),
    {
        self.record(ElementType::Heading { value: text.to_owned(), level: 1 })
    }

    /// A level 2 heading.
    pub fn header(&mut self, text: &str) -> (r: ElementId)
        requires
            old(self).wf(),
            old(self).has_room(1),
        ensures
            final(self).wf(),
            r@ == old(self)@.next_id,
            declares(
                old(self)@,
                final(self)@,
                ElementKind::Heading { value: text@, level: 2 },
                old(self)@.parent,
            ),
    {
        self.record(ElementType::Heading { value: text.to_owned(), level: 2 })
    }

    /// A level 3 heading.
    pub fn subheader(&mut self, text: &str) -> (r: ElementId)
        requires
            old(self).wf(),
            old(self).has_room(1),
        ensures
            final(self).wf(),
            r@ == old(self)@.next_id,
            declares(
                old(self)@,
                final(self)@,
                ElementKind::Heading { value: text@, level: 3 },
                old(self)@.parent,
            ),
    {
        self.record(ElementType::Heading { value: text.to_owned(), level: 3 })
    }

    /// A single-line text input. Returns the text stored under its key, or `value`.
    pub fn text_input(&mut self, label: &str, value: &str, key: Option<String>) -> (r: String)
        requires
            old(self).wf(),
            old(self).has_room(1),
        ensures
            final(self).wf(),
            declares(
                old(self)@,
                final(self)@,
                ElementKind::TextInput { label: label@, value: value@, key: opt_view(key) },
                old(self)@.parent,
            ),
            r@ == text_or(
                lookup(old(self)@.widgets, resolved_key("text_input_"@, label@, opt_view(key))),
                value@,
            ),
    {
        let key_str = effective_key("text_input_", label, &key);
        let stored = self.delta_gen.get_widget(key_str.as_str());
        let value = value.to_owned();
        self.record(ElementType::TextInput { label: label.to_owned(), value: value.clone(), key });
        read_text(&stored, value)
    }

    /// A multi-line text input. Returns the text stored under its key, or `value`.
    pub fn text_area(&mut self, label: &str, value: &str, key: Option<String>) -> (r: String)
        requires
            old(self).wf(),
            old(self).has_room(1),
        ensures
            final(self).wf(),
            declares(
                old(self)@,
                final(self)@,
                ElementKind::TextArea { label: label@, value: value@, key: opt_view(key) },
                old(self)@.parent,
            ),
            r@ == text_or(
                lookup(old(self)@.widgets, resolved_key("text_area_"@, label@, opt_view(key))),
                value@,
            ),
    {
        let key_str = effective_key("text_area_", label, &key);
        let stored = self.delta_gen.get_widget(key_str.as_str());
        let value = value.to_owned();
        self.record(ElementType::TextArea { label: label.to_owned(), value: value.clone(), key });
        read_text(&stored, value)
    }

    /// A date input. Returns the text stored under its key, or `value`.
    pub fn date_input(&mut self, label: &str, value: &str, key: Option<String>) -> (r: String)
        requires
            old(self).wf(),
            old(self).has_room(1),
        ensures
            final(self).wf(),
            declares(
                old(self)@,
                final(self)@,
                ElementKind::DateInput { label: label@, value: value@, key: opt_view(key) },
                old(self)@.parent,
            ),
            r@ == text_or(
                lookup(old(self)@.widgets, resolved_key("date_input_"@, label@, opt_view(key))),
                value@,
            ),
    {
        let key_str = effective_key("date_input_", label, &key);
        let stored = self.delta_gen.get_widget(key_str.as_str());
        let value = value.to_owned();
        self.record(ElementType::DateInput { label: label.to_owned(), value: value.clone(), key });
        read_text(&stored, value)
    }

    /// A time input. Returns the text stored under its key, or `value`.
    pub fn time_input(&mut self, label: &str, value: &str, key: Option<String>) -> (r: String)
        requires
            old(self).wf(),
            old(self).has_room(1),
        ensures
            final(self).wf(),
            declares(
                old(self)@,
                final(self)@,
                ElementKind::TimeInput { label: label@, value: value@, key: opt_view(key) },
                old(self)@.parent,
            ),
            r@ == text_or(
                lookup(old(self)@.widgets, resolved_key("time_input_"@, label@, opt_view(key))),
                value@,
            ),
    {
        let key_str = effective_key("time_input_", label, &key);
        let stored = self.delta_gen.get_widget(key_str.as_str());
        let value = value.to_owned();
        self.record(ElementType::TimeInput { label: label.to_owned(), value: value.clone(), key });
        read_text(&stored, value)
    }

    /// A color picker. Returns the text stored under its key, or `value`.
    pub fn color_picker(&mut self, label: &str, value: &str, key: Option<String>) -> (r: String)
        requires
            old(self).wf(),
            old(self).has_room(1),
        ensures
            final(self).wf(),
            declares(
                old(self)@,
                final(self)@,
                ElementKind::ColorPicker { label: label@, value: value@, key: opt_view(key) },
                old(self)@.parent,
            ),
            r@ == text_or(
                lookup(old(self)@.widgets, resolved_key("color_picker_"@, label@, opt_view(key))),
                value@,
            ),
    {
        let key_str = effective_key("color_picker_", label, &key);
        let stored = self.delta_gen.get_widget(key_str.as_str());
        let value = value.to_owned();
        self.record(ElementType::ColorPicker { label: label.to_owned(), value: value.clone(), key });
        read_text(&stored, value)
    }

    /// A file uploader. Returns the text stored under its key, if any.
    pub fn file_uploader(&mut self, label: &str, key: Option<String>) -> (r: Option<String>)
        requires
            old(self).wf(),
            old(self).has_room(1),
        ensures
            final(self).wf(),
            declares(
                old(self)@,
                final(self)@,
                ElementKind::FileUploader { label: label@, key: opt_view(key) },
                old(self)@.parent,
            ),
            opt_view(r) == text_opt(
                lookup(old(self)@.widgets, resolved_key("file_uploader_"@, label@, opt_view(key))),
            ),
    {
        let key_str = effective_key("file_uploader_", label, &key);
        let stored = self.delta_gen.get_widget(key_str.as_str());
        self.record(ElementType::FileUploader { label: label.to_owned(), key });
        read_text_opt(&stored)
    }

    /// A camera input. Returns the text stored under its key, if any.
    pub fn camera_input(&mut self, label: &str, key: Option<String>) -> (r: Option<String>)
        requires
            old(self).wf(),
            old(self).has_room(1),
        ensures
            final(self).wf(),
            declares(
                old(self)@,
                final(self)@,
                ElementKind::CameraInput { label: label@, key: opt_view(key) },
                old(self)@.parent,
            ),
            opt_view(r) == text_opt(
                lookup(old(self)@.widgets, resolved_key("camera_"@, label@, opt_view(key))),
            ),
    {
        let key_str = effective_key("camera_", label, &key);
        let stored = self.delta_gen.get_widget(key_str.as_str());
        self.record(ElementType::CameraInput { label: label.to_owned(), key });
        read_text_opt(&stored)
    }

    /// A number input. Returns the number stored under its key, or `value`.
    pub fn number_input(&mut self, label: &str, value: i64, key: Option<String>) -> (r: i64)
        requires
            old(self).wf(),
            old(self).has_room(1),
        ensures
            final(self).wf(),
            declares(
                old(self)@,
                final(self)@,
                ElementKind::NumberInput { label: label@, value, key: opt_view(key) },
                old(self)@.parent,
            ),
            r == number_or(
                lookup(old(self)@.widgets, resolved_key("number_input_"@, label@, opt_view(key))),
                value,
            ),
    {
        let key_str = effective_key("number_input_", label, &key);
        let stored = self.delta_gen.get_widget(key_str.as_str());
        self.record(ElementType::NumberInput { label: label.to_owned(), value, key });
        read_number(&stored, value)
    }

    /// A slider over `min..=max`. Returns the number stored under its key, or `value`.
    pub fn slider(&mut self, label: &str, min: i64, max: i64, value: i64, key: Option<String>) -> (r: i64)
        requires
            old(self).wf(),
            old(self).has_room(1),
        ensures
            final(self).wf(),
            declares(
                old(self)@,
                final(self)@,
                ElementKind::Slider { label: label@, value, min, max, key: opt_view(key) },
                old(self)@.parent,
            ),
            r == number_or(
                lookup(old(self)@.widgets, resolved_key("slider_"@, label@, opt_view(key))),
                value,
            ),
    {
        let key_str = effective_key("slider_", label, &key);
        let stored = self.delta_gen.get_widget(key_str.as_str());
        self.record(ElementType::Slider { label: label.to_owned(), value, min, max, key });
        read_number(&stored, value)
    }

    /// A checkbox. Returns the flag stored under its key, or `value`.
    pub fn checkbox(&mut self, label: &str, value: bool, key: Option<String>) -> (r: bool)
        requires
            old(self).wf(),
            old(self).has_room(1),
        ensures
            final(self).wf(),
            declares(
                old(self)@,
                final(self)@,
                ElementKind::Checkbox { label: label@, value, key: opt_view(key) },
                old(self)@.parent,
            ),
            r == flag_or(
                lookup(old(self)@.widgets, resolved_key("checkbox_"@, label@, opt_view(key))),
                value,
            ),
    {
        let key_str = effective_key("checkbox_", label, &key);
        let stored = self.delta_gen.get_widget(key_str.as_str());
        self.record(ElementType::Checkbox { label: label.to_owned(), value, key });
        read_flag(&stored, value)
    }

    /// A button. Returns whether a click is stored under its key for this
    /// run.
    pub fn button(&mut self, label: &str, key: Option<String>) -> (r: bool)
        requires
            old(self).wf(),
            old(self).has_room(1),
        ensures
            final(self).wf(),
            declares(
                old(self)@,
                final(self)@,
                ElementKind::Button { label: label@, key: opt_view(key) },
                old(self)@.parent,
            ),
            r == clicked(old(self)@.widgets, resolved_key("button_"@, label@, opt_view(key))),
    {
        let key_str = effective_key("button_", label, &key);
        let stored = self.delta_gen.get_widget(key_str.as_str());
        let pressed = read_flag(&stored, false);
        self.record(ElementType::Button { label: label.to_owned(), key });
        pressed
    }

    /// A select box. Refused, with nothing declared, when there are no
    /// options or `index` is not one of theirs; else returns the text stored
    /// under its key, or the option at `index`.
    pub fn selectbox(&mut self, label: &str, options: Vec<String>, index: usize, key: Option<String>) -> (r: Result<String, Error>)
        requires
            old(self).wf(),
            index < options@.len() ==> old(self).has_room(1),
        ensures
            final(self).wf(),
            r.is_ok() == (index < options@.len()),
            r.is_err() ==> final(self)@ == old(self)@ && r.unwrap_err() matches Error::StateError(_),
            r.is_ok() ==> declares(
                old(self)@,
                final(self)@,
                ElementKind::Selectbox {
                    label: label@,
                    options: strings_view(options@),
                    value: Some(options@[index as int]@),
                    key: opt_view(key),
                },
                old(self)@.parent,
            ) && r.unwrap()@ == text_or(
                lookup(old(self)@.widgets, resolved_key("selectbox_"@, label@, opt_view(key))),
                options@[index as int]@,
            ),
    {
        if options.len() == 0 {
            return Err(Error::state("Selectbox must have at least one option"));
        }
        if index >= options.len() {
            return Err(Error::state("Index out of bounds"));
        }
        let default = options[index].clone();
        let key_str = effective_key("selectbox_", label, &key);
        let stored = self.delta_gen.get_widget(key_str.as_str());
        self.record(
            ElementType::Selectbox { label: label.to_owned(), options, value: Some(default.clone()), key },
        );
        Ok(read_text(&stored, default))
    }

    /// A radio group. Refused, with nothing declared, when there are no
    /// options or `index` is not one of theirs; else returns the text stored
    /// under its key, or the option at `index`.
    pub fn radio(&mut self, label: &str, options: Vec<&str>, index: usize, key: Option<String>) -> (r: Result<String, Error>)
        requires
            old(self).wf(),
            index < options@.len() ==> old(self).has_room(1),
        ensures
            final(self).wf(),
            r.is_ok() == (index < options@.len()),
            r.is_err() ==> final(self)@ == old(self)@ && r.unwrap_err() matches Error::StateError(_),
            r.is_ok() ==> declares(
                old(self)@,
                final(self)@,
                ElementKind::Radio {
                    label: label@,
                    options: strs_view(options@),
                    value: Some(options@[index as int]@),
                    key: opt_view(key),
                },
                old(self)@.parent,
            ) && r.unwrap()@ == text_or(
                lookup(old(self)@.widgets, resolved_key("radio_"@, label@, opt_view(key))),
                options@[index as int]@,
            ),
    {
        if options.len() == 0 {
            return Err(Error::state("Radio must have at least one option"));
        }
        if index >= options.len() {
            return Err(Error::state("Index out of bounds"));
        }
        let owned = to_strings(&options);
        let default = options[index].to_owned();
        let key_str = effective_key("radio_", label, &key);
        let stored = self.delta_gen.get_widget(key_str.as_str());
        self.record(
            ElementType::Radio { label: label.to_owned(), options: owned, value: Some(default.clone()), key },
        );
        Ok(read_text(&stored, default))
    }

    /// A multiselect. Returns the list stored under its key, or `default`.
    pub fn multiselect(&mut self, label: &str, options: Vec<String>, default: Vec<String>, key: Option<String>) -> (r: Vec<String>)
        requires
            old(self).wf(),
            old(self).has_room(1),
        ensures
            final(self).wf(),
            declares(
                old(self)@,
                final(self)@,
                ElementKind::Multiselect {
                    label: label@,
                    options: strings_view(options@),
                    values: strings_view(default@),
                    key: opt_view(key),
                },
                old(self)@.parent,
            ),
            strings_view(r@) == texts_or(
                lookup(old(self)@.widgets, resolved_key("multiselect_"@, label@, opt_view(key))),
                strings_view(default@),
            ),
    {
        let key_str = effective_key("multiselect_", label, &key);
        let stored = self.delta_gen.get_widget(key_str.as_str());
        let values = clone_strings(&default);
        self.record(ElementType::Multiselect { label: label.to_owned(), options, values, key });
        read_texts(&stored, default)
    }

    /// Display a success message.
    pub fn success(&mut self, message: &str) -> (r: ElementId)
        requires
            old(self).wf(),
            old(self).has_room(1),
        ensures
            final(self).wf(),
            declares(
                old(self)@,
                final(self)@,
                ElementKind::Success { message: message@ },
                old(self)@.parent,
            ),
            r@ == old(self)@.next_id,
    {
        self.record(ElementType::Success { message: message.to_owned() })
    }

    /// Display an error message.
    pub fn error(&mut self, message: &str) -> (r: ElementId)
        requires
            old(self).wf(),
            old(self).has_room(1),
        ensures
            final(self).wf(),
            declares(
                old(self)@,
                final(self)@,
                ElementKind::Error { message: message@ },
                old(self)@.parent,
            ),
            r@ == old(self)@.next_id,
    {
        self.record(ElementType::Error { message: message.to_owned() })
    }

    /// Display a warning.
    pub fn warning(&mut self, message: &str) -> (r: ElementId)
        requires
            old(self).wf(),
            old(self).has_room(1),
        ensures
            final(self).wf(),
            declares(
                old(self)@,
                final(self)@,
                ElementKind::Warning { message: message@ },
                old(self)@.parent,
            ),
            r@ == old(self)@.next_id,
    {
        self.record(ElementType::Warning { message: message.to_owned() })
    }

    /// Display an informational message.
    pub fn info(&mut self, message: &str) -> (r: ElementId)
        requires
            old(self).wf(),
            old(self).has_room(1),
        ensures
            final(self).wf(),
            declares(
                old(self)@,
                final(self)@,
                ElementKind::Info { message: message@ },
                old(self)@.parent,
            ),
            r@ == old(self)@.next_id,
    {
        self.record(ElementType::Info { message: message.to_owned() })
    }

    /// Display a JSON value given as its text, once it is known whether the
    /// text is JSON: a text that is not is refused and nothing is declared,
    /// so that it cannot break the batch it would travel in.
    pub fn json_if_valid(&mut self, value: &str, valid: bool) -> (r: Result<ElementId, Error>)
        requires
            old(self).wf(),
            valid ==> old(self).has_room(1),
        ensures
            final(self).wf(),
            r.is_ok() == valid,
            r.is_ok() ==> r.unwrap()@ == old(self)@.next_id && declares(
                old(self)@,
                final(self)@,
                ElementKind::Json { value: value@ },
                old(self)@.parent,
            ),
            !r.is_ok() ==> final(self)@ == old(self)@ && (r matches Err(Error::InvalidWidgetValue(_))),
    {
        if !valid {
            return Err(Error::InvalidWidgetValue("not a JSON text".to_owned()));
        }
        Ok(self.record(ElementType::Json { value: value.to_owned() }))
    }

    /// Display a JSON value given as its text; a text that is not JSON is
    /// refused and nothing is declared.
    pub fn json(&mut self, value: &str) -> (r: Result<ElementId, Error>)
        requires
            old(self).wf(),
            old(self).has_room(1),
        ensures
            final(self).wf(),
            r.is_ok() == is_json_text(value@),
            r.is_ok() ==> r.unwrap()@ == old(self)@.next_id && declares(
                old(self)@,
                final(self)@,
                ElementKind::Json { value: value@ },
                old(self)@.parent,
            ),
            !r.is_ok() ==> final(self)@ == old(self)@,
    {
        let valid = json_text_valid(value);
        self.json_if_valid(value, valid)
    }

    /// Display an image.
    pub fn image(&mut self, src: &str, caption: Option<String>, width: Option<u32>) -> (r: ElementId)
        requires
            old(self).wf(),
            old(self).has_room(1),
        ensures
            final(self).wf(),
            declares(
                old(self)@,
                final(self)@,
                ElementKind::Image { src: src@, caption: opt_view(caption), width },
                old(self)@.parent,
            ),
            r@ == old(self)@.next_id,
    {
        self.record(ElementType::Image { src: src.to_owned(), caption, width })
    }

    /// Display a progress bar at a percentage.
    pub fn progress(&mut self, value: u32) -> (r: ElementId)
        requires
            old(self).wf(),
            old(self).has_room(1),
        ensures
            final(self).wf(),
            declares(
                old(self)@,
                final(self)@,
                ElementKind::Progress { value },
                old(self)@.parent,
            ),
            r@ == old(self)@.next_id,
    {
        self.record(ElementType::Progress { value })
    }

    /// Display a divider.
    pub fn divider(&mut self) -> (r: ElementId)
        requires
            old(self).wf(),
            old(self).has_room(1),
        ensures
            final(self).wf(),
            declares(
                old(self)@,
                final(self)@,
                ElementKind::Divider,
                old(self)@.parent,
            ),
            r@ == old(self)@.next_id,
    {
        self.record(ElementType::Divider)
    }

    /// Display an empty placeholder.
    pub fn empty(&mut self) -> (r: ElementId)
        requires
            old(self).wf(),
            old(self).has_room(1),
        ensures
            final(self).wf(),
            declares(
                old(self)@,
                final(self)@,
                ElementKind::Empty,
                old(self)@.parent,
            ),
            r@ == old(self)@.next_id,
    {
        self.record(ElementType::Empty)
    }

    /// Display a metric with an optional change.
    pub fn metric(&mut self, label: &str, value: &str, delta: Option<String>) -> (r: ElementId)
        requires
            old(self).wf(),
            old(self).has_room(1),
        ensures
            final(self).wf(),
            declares(
                old(self)@,
                final(self)@,
                ElementKind::Metric { label: label@, value: value@, delta: opt_view(delta) },
                old(self)@.parent,
            ),
            r@ == old(self)@.next_id,
    {
        self.record(ElementType::Metric { label: label.to_owned(), value: value.to_owned(), delta })
    }

    /// Display a table.
    pub fn table(&mut self, headers: Vec<&str>, rows: Vec<Vec<&str>>)
        requires
            old(self).wf(),
            old(self).has_room(1),
        ensures
            final(self).wf(),
            declares(
                old(self)@,
                final(self)@,
                ElementKind::Table {
                    headers: strs_view(headers@),
                    rows: rows@.map_values(|r: Vec<&str>| strs_view(r@)),
                },
                old(self)@.parent,
            ),
    {
        let owned_headers = to_strings(&headers);
        let mut owned_rows: Vec<Vec<String>> = Vec::new();
        let mut i: usize = 0;
        while i < rows.len()
            invariant
                i <= rows@.len(),
                owned_rows@.len() == i,
                forall|j: int| 0 <= j < i ==> strings_view((#[trigger] owned_rows@[j])@) == strs_view(rows@[j]@),
            decreases rows@.len() - i,
        {
            owned_rows.push(to_strings(&rows[i]));
            i = i + 1;
        }
        assert(rows_view(owned_rows@) =~= rows@.map_values(|r: Vec<&str>| strs_view(r@)));
        self.record(ElementType::Table { headers: owned_headers, rows: owned_rows });
    }

    /// Display a dataframe, given as JSON text.
    pub fn dataframe(&mut self, data: &str)
        requires
            old(self).wf(),
            old(self).has_room(1),
        ensures
            final(self).wf(),
            declares(
                old(self)@,
                final(self)@,
                ElementKind::Dataframe { data: data@ },
                old(self)@.parent,
            ),
    {
        self.record(ElementType::Dataframe { data: data.to_owned() });
    }

    /// Declare a container; returns its handle.
    pub fn container(&mut self) -> (r: Container)
        requires
            old(self).wf(),
            old(self).has_room(1),
        ensures
            final(self).wf(),
            declares(
                old(self)@,
                final(self)@,
                ElementKind::Container { children: Seq::<ElementId>::empty() },
                old(self)@.parent,
            ),
            r.id@ == old(self)@.next_id,
    {
        let id = self.record(ElementType::Container { children: Vec::new() });
        Container::new(id)
    }

    /// Declare a collapsed expander; returns its handle.
    pub fn expander(&mut self, label: &str) -> (r: Container)
        requires
            old(self).wf(),
            old(self).has_room(1),
        ensures
            final(self).wf(),
            declares(
                old(self)@,
                final(self)@,
                ElementKind::Expander { label: label@, expanded: false, children: Seq::<ElementId>::empty() },
                old(self)@.parent,
            ),
            r.id@ == old(self)@.next_id,
    {
        let id = self.record(ElementType::Expander { label: label.to_owned(), expanded: false, children: Vec::new() });
        Container::new(id)
    }

    /// Declare `n` elements of one kind, attached to `parent`.
    fn declare_many(&mut self, n: usize, kind: &ElementType, parent: Option<ElementId>) -> (r: Vec<
        Container,
    >)
        requires
            old(self).wf(),
            old(self).has_room(n as nat),
        ensures
            final(self).wf(),
            r@.len() == n,
            forall|i: int| 0 <= i < n ==> (#[trigger] r@[i]).id@ == old(self)@.next_id + i,
            final(self)@.next_id == old(self)@.next_id + n,
            final(self)@.elements == with_repeated(old(self)@.elements, old(self)@.next_id, n as nat, kind@),
            final(self)@.widgets == old(self)@.widgets,
            final(self)@.deltas == old(self)@.deltas + repeated_adds(
                old(self)@.next_id,
                n as nat,
                kind@,
                parent,
            ),
            final(self)@.parent == old(self)@.parent,
            final(self)@.scopes == old(self)@.scopes,
    {
        let mut r: Vec<Container> = Vec::new();
        let mut i: usize = 0;
        let ghost start = self@.next_id;
        assert(old(self)@.deltas + repeated_adds(start, 0, kind@, parent) =~= old(self)@.deltas);
        assert(with_repeated(old(self)@.elements, start, 0, kind@) =~= old(self)@.elements);
        while i < n
            invariant
                self.wf(),
                i <= n,
                start == old(self)@.next_id,
                start + n <= u64::MAX,
                r@.len() == i,
                forall|j: int| 0 <= j < i ==> (#[trigger] r@[j]).id@ == start + j,
                self@.next_id == start + i,
                self@.elements == with_repeated(old(self)@.elements, start, i as nat, kind@),
                self@.widgets == old(self)@.widgets,
                self@.deltas == old(self)@.deltas + repeated_adds(start, i as nat, kind@, parent),
                self@.parent == old(self)@.parent,
                self@.scopes == old(self)@.scopes,
            decreases n - i,
        {
            let id = self.delta_gen.add_element(kind.clone(), parent);
            r.push(Container::new(id));
            assert(self@.deltas =~= old(self)@.deltas + repeated_adds(start, (i + 1) as nat, kind@, parent));
            assert(self@.elements =~= with_repeated(old(self)@.elements, start, (i + 1) as nat, kind@));
            i = i + 1;
        }
        r
    }

    /// Declare `count` columns side by side, each with an equal share of the
    /// width; returns their handles in order.
    pub fn columns(&mut self, count: usize) -> (r: Vec<Container>)
        requires
            old(self).wf(),
            old(self).has_room(count as nat),
        ensures
            final(self).wf(),
            r@.len() == count,
            forall|i: int| 0 <= i < count ==> (#[trigger] r@[i]).id@ == old(self)@.next_id + i,
            final(self)@.next_id == old(self)@.next_id + count,
            final(self)@.elements == with_repeated(
                old(self)@.elements,
                old(self)@.next_id,
                count as nat,
                column_kind(count as nat),
            ),
            final(self)@.widgets == old(self)@.widgets,
            final(self)@.deltas == old(self)@.deltas + repeated_adds(
                old(self)@.next_id,
                count as nat,
                column_kind(count as nat),
                old(self)@.parent,
            ),
            final(self)@.parent == old(self)@.parent,
            final(self)@.scopes == old(self)@.scopes,
    {
        let width: u32 = if count == 0 {
            0
        } else {
            (100 / count) as u32
        };
        let kind = ElementType::Column { children: Vec::new(), width: Some(width) };
        let parent = self.current_container;
        let r = self.declare_many(count, &kind, parent);
        proof {
            if count == 0 {
                assert(repeated_adds(old(self)@.next_id, 0, kind@, parent) =~= repeated_adds(
                    old(self)@.next_id,
                    0,
                    column_kind(0),
                    parent,
                ));
                assert(with_repeated(old(self)@.elements, old(self)@.next_id, 0, kind@)
                    =~= with_repeated(old(self)@.elements, old(self)@.next_id, 0, column_kind(0)));
            }
        }
        r
    }

    /// Declare a tab group with one tab per label; returns the handles of
    /// the tabs, in order, each a container inside the group.
    pub fn tabs(&mut self, labels: Vec<&str>) -> (r: Vec<Container>)
        requires
            old(self).wf(),
            old(self).has_room(labels@.len() + 1),
        ensures
            final(self).wf(),
            r@.len() == labels@.len(),
            forall|i: int|
                0 <= i < labels@.len() ==> (#[trigger] r@[i]).id@ == old(self)@.next_id + 1 + i,
            final(self)@.next_id == old(self)@.next_id + 1 + labels@.len(),
            final(self)@.elements == with_repeated(
                old(self)@.elements.insert(
                    old(self)@.next_id,
                    ElementKind::Tabs { tabs: empty_tabs(strs_view(labels@)) },
                ),
                (old(self)@.next_id + 1) as u64,
                labels@.len(),
                ElementKind::Container { children: Seq::<ElementId>::empty() },
            ),
            final(self)@.widgets == old(self)@.widgets,
            final(self)@.deltas == old(self)@.deltas.push(
                DeltaView::AddElement {
                    id: ElementId(old(self)@.next_id),
                    element: ElementKind::Tabs { tabs: empty_tabs(strs_view(labels@)) },
                    parent_id: old(self)@.parent,
                },
            ) + repeated_adds(
                (old(self)@.next_id + 1) as u64,
                labels@.len(),
                ElementKind::Container { children: Seq::<ElementId>::empty() },
                Some(ElementId(old(self)@.next_id)),
            ),
            final(self)@.parent == old(self)@.parent,
            final(self)@.scopes == old(self)@.scopes,
    {
        let mut data: Vec<(String, Vec<ElementId>)> = Vec::new();
        let mut i: usize = 0;
        while i < labels.len()
            invariant
                i <= labels@.len(),
                data@.len() == i,
                forall|j: int|
                    0 <= j < i ==> (#[trigger] data@[j]).0@ == labels@[j]@ && data@[j].1@ == Seq::<
                        ElementId,
                    >::empty(),
            decreases labels@.len() - i,
        {
            data.push((labels[i].to_owned(), Vec::new()));
            i = i + 1;
        }
        assert(crate::element::tabs_view(data@) =~= empty_tabs(strs_view(labels@)));
        let id = self.record(ElementType::Tabs { tabs: data });
        let kind = ElementType::Container { children: Vec::new() };
        self.declare_many(labels.len(), &kind, Some(id))
    }

    /// Declare the sidebar, always at top level; returns its handle.
    pub fn sidebar(&mut self) -> (r: Container)
        requires
            old(self).wf(),
            old(self).has_room(1),
        ensures
            final(self).wf(),
            r.id@ == old(self)@.next_id,
            declares(
                old(self)@,
                final(self)@,
                ElementKind::Sidebar { children: Seq::<ElementId>::empty() },
                None,
            ),
    {
        let id = self.delta_gen.add_element(ElementType::Sidebar { children: Vec::new() }, None);
        Container::new(id)
    }

    /// Hand out the recorded deltas, in order, and empty the log.
    pub fn take_deltas(&mut self) -> (r: Vec<Delta>)
        requires
            old(self).wf(),
        ensures
            final(self).wf(),
            deltas_view(r@) == old(self)@.deltas,
            final(self)@.deltas == Seq::<DeltaView>::empty(),
            final(self)@.elements == old(self)@.elements,
            final(self)@.widgets == old(self)@.widgets,
            final(self)@.next_id == old(self)@.next_id,
            final(self)@.parent == old(self)@.parent,
            final(self)@.scopes == old(self)@.scopes,
    {
        self.delta_gen.take_deltas()
    }
}

impl Default for St {
    fn default() -> (r: St)
        ensures
            r.wf(),
            r@.elements == Map::<u64, ElementKind>::empty(),
            r@.widgets == Map::<Seq<char>, WidgetValueView>::empty(),
            r@.deltas == Seq::<DeltaView>::empty(),
            r@.next_id == 1,
            r@.parent.is_none(),
    {
        St::new()
    }
}

} // verus!
