//! Widget values and widgets that hold them.
use vstd::prelude::*;

verus! {

/// A value held by a widget.
///
/// Numbers are whole numbers; a JSON value is carried as its text.
#[derive(Debug, PartialEq)]
pub enum WidgetValue {
    /// Text (text input, selectbox, ...).
    String(String),
    /// Number (slider, number input, ...).
    Number(i64),
    /// Flag (checkbox, button).
    Bool(bool),
    /// List of strings (multiselect).
    StringArray(Vec<String>),
    /// List of numbers.
    NumberArray(Vec<i64>),
    /// JSON text.
    Json(String),
}

/// What a widget value holds, with each text and list as a sequence.
pub enum WidgetValueView {
    Text(Seq<char>),
    Number(i64),
    Bool(bool),
    TextList(Seq<Seq<char>>),
    NumberList(Seq<i64>),
    Json(Seq<char>),
}

impl View for WidgetValue {
    type V = WidgetValueView;

    open spec fn view(&self) -> WidgetValueView {
        match self {
            WidgetValue::String(s) => WidgetValueView::Text(s@),
            WidgetValue::Number(n) => WidgetValueView::Number(*n),
            WidgetValue::Bool(b) => WidgetValueView::Bool(*b),
            WidgetValue::StringArray(a) => WidgetValueView::TextList(a@.map_values(|s: String| s@)),
            WidgetValue::NumberArray(a) => WidgetValueView::NumberList(a@),
            WidgetValue::Json(s) => WidgetValueView::Json(s@),
        }
    }
}

/// Copies a vector of numbers.
pub fn clone_numbers(v: &Vec<i64>) -> (r: Vec<i64>)
    ensures
        r@ == v@,
{
    let mut r: Vec<i64> = Vec::new();
    let mut i: usize = 0;
    while i < v.len()
        invariant
            i <= v.len(),
            r@ == v@.subrange(0, i as int),
        decreases v.len() - i,
    {
        r.push(v[i]);
        i = i + 1;
    }
    assert(r@ =~= v@);
    r
}

impl Clone for WidgetValue {
    fn clone(&self) -> (r: Self)
        ensures
            r@ == self@,
    {
        match self {
            WidgetValue::String(s) => WidgetValue::String(s.clone()),
            WidgetValue::Number(n) => WidgetValue::Number(*n),
            WidgetValue::Bool(b) => WidgetValue::Bool(*b),
            WidgetValue::StringArray(a) => {
                let c = crate::element::clone_strings(a);
                WidgetValue::StringArray(c)
            },
            WidgetValue::NumberArray(a) => WidgetValue::NumberArray(clone_numbers(a)),
            WidgetValue::Json(s) => WidgetValue::Json(s.clone()),
        }
    }
}

impl WidgetValue {
    /// The text, if this is a text value.
    pub fn as_string(&self) -> (r: Option<&str>)
        ensures
            match self@ {
                WidgetValueView::Text(s) => r.is_some() && r.unwrap()@ == s,
                _ => r.is_none(),
            },
    {
        match self {
            WidgetValue::String(s) => Some(s.as_str()),
            _ => None,
        }
    }

    /// The number, if this is a number value.
    pub fn as_number(&self) -> (r: Option<i64>)
        ensures
            match self@ {
                WidgetValueView::Number(n) => r == Some(n),
                _ => r.is_none(),
            },
    {
        match self {
            WidgetValue::Number(n) => Some(*n),
            _ => None,
        }
    }

    /// The flag, if this is a flag value.
    pub fn as_bool(&self) -> (r: Option<bool>)
        ensures
            match self@ {
                WidgetValueView::Bool(b) => r == Some(b),
                _ => r.is_none(),
            },
    {
        match self {
            WidgetValue::Bool(b) => Some(*b),
            _ => None,
        }
    }

    /// The strings, if this is a list of strings.
    pub fn as_string_array(&self) -> (r: Option<&[String]>)
        ensures
            match self@ {
                WidgetValueView::TextList(a) => r.is_some() && r.unwrap()@.map_values(|s: String| s@) == a,
                _ => r.is_none(),
            },
    {
        match self {
            WidgetValue::StringArray(a) => Some(a.as_slice()),
            _ => None,
        }
    }

    /// The numbers, if this is a list of numbers.
    pub fn as_number_array(&self) -> (r: Option<&[i64]>)
        ensures
            match self@ {
                WidgetValueView::NumberList(a) => r.is_some() && r.unwrap()@ == a,
                _ => r.is_none(),
            },
    {
        match self {
            WidgetValue::NumberArray(a) => Some(a.as_slice()),
            _ => None,
        }
    }
}

impl From<String> for WidgetValue {
    fn from(s: String) -> (r: WidgetValue) {
        WidgetValue::String(s)
    }
}

impl vstd::std_specs::convert::FromSpecImpl<String> for WidgetValue {
    open spec fn obeys_from_spec() -> bool {
        true
    }

    open spec fn from_spec(v: String) -> WidgetValue {
        WidgetValue::String(v)
    }
}

impl From<&str> for WidgetValue {
    fn from(s: &str) -> (r: WidgetValue) {
        WidgetValue::String(s.to_owned())
    }
}

// Nothing is claimed of this conversion in contracts: a spec-level `String`
// cannot be built from a slice's characters, so `from_spec` names an arbitrary
// value that `obeys_from_spec` disowns.
impl vstd::std_specs::convert::FromSpecImpl<&str> for WidgetValue {
    open spec fn obeys_from_spec() -> bool {
        false
    }

    open spec fn from_spec(v: &str) -> WidgetValue {
        WidgetValue::Bool(false)
    }
}

impl From<i64> for WidgetValue {
    fn from(n: i64) -> (r: WidgetValue) {
        WidgetValue::Number(n)
    }
}

impl vstd::std_specs::convert::FromSpecImpl<i64> for WidgetValue {
    open spec fn obeys_from_spec() -> bool {
        true
    }

    open spec fn from_spec(v: i64) -> WidgetValue {
        WidgetValue::Number(v)
    }
}

impl From<bool> for WidgetValue {
    fn from(b: bool) -> (r: WidgetValue) {
        WidgetValue::Bool(b)
    }
}

impl vstd::std_specs::convert::FromSpecImpl<bool> for WidgetValue {
    open spec fn obeys_from_spec() -> bool {
        true
    }

    open spec fn from_spec(v: bool) -> WidgetValue {
        WidgetValue::Bool(v)
    }
}

impl From<Vec<String>> for WidgetValue {
    fn from(a: Vec<String>) -> (r: WidgetValue) {
        WidgetValue::StringArray(a)
    }
}

impl vstd::std_specs::convert::FromSpecImpl<Vec<String>> for WidgetValue {
    open spec fn obeys_from_spec() -> bool {
        true
    }

    open spec fn from_spec(v: Vec<String>) -> WidgetValue {
        WidgetValue::StringArray(v)
    }
}

impl From<Vec<i64>> for WidgetValue {
    fn from(a: Vec<i64>) -> (r: WidgetValue) {
        WidgetValue::NumberArray(a)
    }
}

impl vstd::std_specs::convert::FromSpecImpl<Vec<i64>> for WidgetValue {
    open spec fn obeys_from_spec() -> bool {
        true
    }

    open spec fn from_spec(v: Vec<i64>) -> WidgetValue {
        WidgetValue::NumberArray(v)
    }
}

/// A keyed widget whose value may be marked as changed in the current run.
pub trait Widget {
    spec fn spec_key(&self) -> Seq<char>;

    spec fn spec_value(&self) -> WidgetValueView;

    spec fn spec_changed(&self) -> bool;

    /// The widget key.
    fn key(&self) -> (r: &str)
        ensures
            r@ == self.spec_key(),
    ;

    /// The current value.
    fn value(&self) -> (r: &WidgetValue)
        ensures
            r@ == self.spec_value(),
    ;

    /// Replace the value.
    fn set_value(&mut self, value: WidgetValue)
        ensures
            final(self).spec_value() == value@,
            final(self).spec_key() == old(self).spec_key(),
            final(self).spec_changed() == old(self).spec_changed(),
    ;

    /// Whether the value changed in this run.
    fn changed(&self) -> (r: bool)
        ensures
            r == self.spec_changed(),
    ;

    /// Mark the value as changed.
    fn mark_changed(&mut self)
        ensures
            final(self).spec_changed(),
            final(self).spec_value() == old(self).spec_value(),
            final(self).spec_key() == old(self).spec_key(),
    ;

    /// Mark the value as unchanged.
    fn mark_unchanged(&mut self)
        ensures
            !final(self).spec_changed(),
            final(self).spec_value() == old(self).spec_value(),
            final(self).spec_key() == old(self).spec_key(),
    ;
}

/// A widget that holds its key, value and changed flag.
#[derive(Debug)]
pub struct SimpleWidget {
    key: String,
    value: WidgetValue,
    changed: bool,
}

impl SimpleWidget {
    /// Create an unchanged widget.
    pub fn new(key: String, value: WidgetValue) -> (r: SimpleWidget)
        ensures
            r.spec_key() == key@,
            r.spec_value() == value@,
            !r.spec_changed(),
    {
        SimpleWidget { key, value, changed: false }
    }
}

impl Clone for SimpleWidget {
    fn clone(&self) -> (r: Self)
        ensures
            r.spec_key() == self.spec_key(),
            r.spec_value() == self.spec_value(),
            r.spec_changed() == self.spec_changed(),
    {
        SimpleWidget { key: self.key.clone(), value: self.value.clone(), changed: self.changed }
    }
}

impl Widget for SimpleWidget {
    closed spec fn spec_key(&self) -> Seq<char> {
        self.key@
    }

    closed spec fn spec_value(&self) -> WidgetValueView {
        self.value@
    }

    closed spec fn spec_changed(&self) -> bool {
        self.changed
    }

    fn key(&self) -> (r: &str) {
        self.key.as_str()
    }

    fn value(&self) -> (r: &WidgetValue) {
        &self.value
    }

    fn set_value(&mut self, value: WidgetValue) {
        self.value = value;
    }

    fn changed(&self) -> (r: bool) {
        self.changed
    }

    fn mark_changed(&mut self) {
        self.changed = true;
    }

    fn mark_unchanged(&mut self) {
        self.changed = false;
    }
}

} // verus!
