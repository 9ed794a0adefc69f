//! More input widgets: radio groups, multiselects and date pickers.
use vstd::prelude::*;
use crate::base::{BaseElement, BaseView, empty_metadata};
use crate::element::{ElementId, opt_view, strings_view};
use crate::error::Error;
use crate::traits::{Renderable, Validatable};
use crate::widgets::{ChoiceView, position_of};

verus! {

/// A radio group: one of a non-empty list of options is selected.
pub struct RadioElement {
    base: BaseElement,
    label: String,
    options: Vec<String>,
    selected_index: usize,
    disabled: bool,
}

impl View for RadioElement {
    type V = ChoiceView;

    closed spec fn view(&self) -> ChoiceView {
        ChoiceView {
            base: self.base@,
            label: self.label@,
            options: strings_view(self.options@),
            selected_index: self.selected_index,
            disabled: self.disabled,
        }
    }
}

impl RadioElement {
    #[verifier::type_invariant]
    closed spec fn inv(self) -> bool {
        self.selected_index < self.options@.len()
    }

    /// A radio group named "radio" with its first option selected; an
    /// empty list of options is refused.
    pub fn new(id: ElementId, label: &str, options: Vec<String>) -> (r: Result<RadioElement, Error>)
        ensures
            r.is_ok() == (options@.len() > 0),
            r.is_ok() ==> r.unwrap()@ == (ChoiceView {
                base: BaseView { id, name: "radio"@, metadata: empty_metadata() },
                label: label@,
                options: strings_view(options@),
                selected_index: 0,
                disabled: false,
            }),
            !r.is_ok() ==> r matches Err(Error::StateError(_)),
    {
        if options.len() == 0 {
            return Err(Error::state("Radio must have at least one option"));
        }
        Ok(RadioElement {
            base: BaseElement::new(id, "radio"),
            label: label.to_owned(),
            options,
            selected_index: 0,
            disabled: false,
        })
    }

    /// The label.
    pub fn label(&self) -> (r: &str)
        ensures
            r@ == self@.label,
    {
        self.label.as_str()
    }

    /// The options.
    pub fn options(&self) -> (r: &[String])
        ensures
            strings_view(r@) == self@.options,
    {
        self.options.as_slice()
    }

    /// The selected option.
    pub fn selected_value(&self) -> (r: &str)
        ensures
            self@.selected_index < self@.options.len(),
            r@ == self@.options[self@.selected_index as int],
    {
        proof {
            use_type_invariant(self);
        }
        self.options[self.selected_index].as_str()
    }

    /// The position of the selected option.
    pub fn selected_index(&self) -> (r: usize)
        ensures
            r == self@.selected_index,
    {
        self.selected_index
    }

    /// Select the option at a position; a position past the options is
    /// refused and nothing changes.
    pub fn set_selected_index(&mut self, index: usize) -> (r: Result<(), Error>)
        ensures
            r.is_ok() == (index < old(self)@.options.len()),
            r.is_ok() ==> final(self)@ == (ChoiceView { selected_index: index, ..old(self)@ }),
            !r.is_ok() ==> final(self)@ == old(self)@ && r matches Err(Error::StateError(_)),
    {
        if index >= self.options.len() {
            return Err(Error::state("Index out of bounds"));
        }
        self.selected_index = index;
        Ok(())
    }

    /// Select the first option with this text; a text that is no option is
    /// refused and nothing changes.
    pub fn select(&mut self, value: &str) -> (r: Result<(), Error>)
        ensures
            r.is_ok() == old(self)@.options.contains(value@),
            r.is_ok() ==> final(self)@.options[final(self)@.selected_index as int] == value@
                && final(self)@ == (ChoiceView { selected_index: final(self)@.selected_index, ..old(self)@ }),
            !r.is_ok() ==> final(self)@ == old(self)@ && r matches Err(Error::StateError(_)),
    {
        match position_of(&self.options, value) {
            Some(i) => {
                self.selected_index = i;
                assert(self@.options[i as int] == value@);
                Ok(())
            },
            None => {
                assert(!self@.options.contains(value@)) by {
                    if self@.options.contains(value@) {
                        let j = choose|j: int| 0 <= j < self@.options.len() && self@.options[j] == value@;
                        assert(self.options@[j]@ == value@);
                    }
                }
                Err(Error::state("Value not found in options"))
            },
        }
    }

    /// Whether it is disabled.
    pub fn is_disabled(&self) -> (r: bool)
        ensures
            r == self@.disabled,
    {
        self.disabled
    }

    /// Enable or disable it.
    pub fn set_disabled(&mut self, disabled: bool)
        ensures
            final(self)@ == (ChoiceView { disabled, ..old(self)@ }),
    {
        proof {
            use_type_invariant(&*self);
        }
        self.disabled = disabled;
    }
}

impl Renderable for RadioElement {
    closed spec fn spec_id(&self) -> ElementId {
        self.base@.id
    }

    fn id(&self) -> (r: ElementId) {
        self.base.id()
    }

    fn name(&self) -> &str {
        self.base.name()
    }
}

impl Validatable for RadioElement {
    closed spec fn spec_valid(&self) -> bool {
        self.label@.len() > 0 && self.options@.len() > 0
    }

    fn validate(&self) -> (r: Result<(), Error>) {
        if self.label.as_str().is_empty() {
            return Err(Error::state("Radio label cannot be empty"));
        }
        if self.options.len() == 0 {
            return Err(Error::state("Radio must have at least one option"));
        }
        Ok(())
    }
}

/// What a multiselect element holds.
pub struct MultiselectView {
    pub base: BaseView,
    pub label: Seq<char>,
    pub options: Seq<Seq<char>>,
    pub selected_indices: Seq<usize>,
    pub disabled: bool,
}

/// A multiselect: any number of distinct options of a non-empty list are
/// selected, in the order they were picked.
pub struct MultiselectElement {
    base: BaseElement,
    label: String,
    options: Vec<String>,
    selected_indices: Vec<usize>,
    disabled: bool,
}

impl View for MultiselectElement {
    type V = MultiselectView;

    closed spec fn view(&self) -> MultiselectView {
        MultiselectView {
            base: self.base@,
            label: self.label@,
            options: strings_view(self.options@),
            selected_indices: self.selected_indices@,
            disabled: self.disabled,
        }
    }
}

impl MultiselectElement {
    #[verifier::type_invariant]
    closed spec fn inv(self) -> bool {
        &&& forall|i: int| 0 <= i < self.selected_indices@.len() ==> #[trigger] self.selected_indices@[i] < self.options@.len()
        &&& self.selected_indices@.no_duplicates()
    }

    /// A multiselect named "multiselect" with nothing selected; an empty
    /// list of options is refused.
    pub fn new(id: ElementId, label: &str, options: Vec<String>) -> (r: Result<MultiselectElement, Error>)
        ensures
            r.is_ok() == (options@.len() > 0),
            r.is_ok() ==> r.unwrap()@ == (MultiselectView {
                base: BaseView { id, name: "multiselect"@, metadata: empty_metadata() },
                label: label@,
                options: strings_view(options@),
                selected_indices: Seq::empty(),
                disabled: false,
            }),
            !r.is_ok() ==> r matches Err(Error::StateError(_)),
    {
        if options.len() == 0 {
            return Err(Error::state("Multiselect must have at least one option"));
        }
        Ok(MultiselectElement {
            base: BaseElement::new(id, "multiselect"),
            label: label.to_owned(),
            options,
            selected_indices: Vec::new(),
            disabled: false,
        })
    }

    /// The label.
    pub fn label(&self) -> (r: &str)
        ensures
            r@ == self@.label,
    {
        self.label.as_str()
    }

    /// The options.
    pub fn options(&self) -> (r: &[String])
        ensures
            strings_view(r@) == self@.options,
    {
        self.options.as_slice()
    }

    /// The selected options, in the order they were picked.
    pub fn selected_values(&self) -> (r: Vec<&str>)
        ensures
            r@.len() == self@.selected_indices.len(),
            forall|i: int|
                0 <= i < r@.len() ==> self@.selected_indices[i] < self@.options.len() && (#[trigger] r@[i])@
                    == self@.options[self@.selected_indices[i] as int],
    {
        proof {
            use_type_invariant(self);
        }
        let mut r: Vec<&str> = Vec::new();
        let mut i: usize = 0;
        while i < self.selected_indices.len()
            invariant
                i <= self.selected_indices@.len(),
                r@.len() == i,
                forall|j: int| 0 <= j < self.selected_indices@.len() ==> #[trigger] self.selected_indices@[j] < self.options@.len(),
                forall|j: int|
                    0 <= j < i ==> (#[trigger] r@[j])@ == self.options@[self.selected_indices@[j] as int]@,
            decreases self.selected_indices@.len() - i,
        {
            let k = self.selected_indices[i];
            r.push(self.options[k].as_str());
            i = i + 1;
        }
        r
    }

    /// The positions of the selected options.
    pub fn selected_indices(&self) -> (r: &[usize])
        ensures
            r@ == self@.selected_indices,
    {
        self.selected_indices.as_slice()
    }

    /// Select the option at a position, after the ones already selected; a
    /// position past the options is refused and nothing changes, and an
    /// option already selected stays where it is.
    pub fn add_selection(&mut self, index: usize) -> (r: Result<(), Error>)
        ensures
            r.is_ok() == (index < old(self)@.options.len()),
            r.is_ok() ==> final(self)@ == (MultiselectView {
                selected_indices: if old(self)@.selected_indices.contains(index) {
                    old(self)@.selected_indices
                } else {
                    old(self)@.selected_indices.push(index)
                },
                ..old(self)@
            }),
            !r.is_ok() ==> final(self)@ == old(self)@ && r matches Err(Error::StateError(_)),
    {
        proof {
            use_type_invariant(&*self);
        }
        if index >= self.options.len() {
            return Err(Error::state("Index out of bounds"));
        }
        let mut present = false;
        let mut i: usize = 0;
        while i < self.selected_indices.len()
            invariant
                i <= self.selected_indices@.len(),
                present == self.selected_indices@.subrange(0, i as int).contains(index),
            decreases self.selected_indices@.len() - i,
        {
            let ghost p = self.selected_indices@.subrange(0, i as int);
            let ghost x = self.selected_indices@[i as int];
            assert(self.selected_indices@.subrange(0, i + 1) =~= p.push(x));
            assert(p.push(x).contains(index) == (p.contains(index) || x == index)) by {
                if p.contains(index) {
                    let j = choose|j: int| 0 <= j < p.len() && p[j] == index;
                    assert(p.push(x)[j] == index);
                }
                if x == index {
                    assert(p.push(x)[p.len() as int] == index);
                }
                if p.push(x).contains(index) {
                    let j = choose|j: int| 0 <= j < p.push(x).len() && p.push(x)[j] == index;
                    if j < p.len() {
                        assert(p[j] == index);
                    }
                }
            }
            if self.selected_indices[i] == index {
                present = true;
            }
            i = i + 1;
        }
        assert(self.selected_indices@.subrange(0, self.selected_indices@.len() as int) =~= self.selected_indices@);
        if !present {
            let mut taken: Vec<usize> = Vec::new();
            std::mem::swap(&mut taken, &mut self.selected_indices);
            taken.push(index);
            self.selected_indices = taken;
        }
        Ok(())
    }

    /// Deselect the option at a position, if selected.
    pub fn remove_selection(&mut self, index: usize) -> (r: Result<(), Error>)
        ensures
            r.is_ok(),
            final(self)@ == (MultiselectView {
                selected_indices: old(self)@.selected_indices.filter(|i: usize| i != index),
                ..old(self)@
            }),
    {
        proof {
            use_type_invariant(&*self);
        }
        let mut kept: Vec<usize> = Vec::new();
        let mut i: usize = 0;
        while i < self.selected_indices.len()
            invariant
                i <= self.selected_indices@.len(),
                kept@ == self.selected_indices@.subrange(0, i as int).filter(|x: usize| x != index),
                kept@.no_duplicates(),
                forall|j: int| 0 <= j < kept@.len() ==> #[trigger] kept@[j] < self.options@.len(),
                forall|j: int| 0 <= j < kept@.len() ==> self.selected_indices@.subrange(0, i as int).contains(#[trigger] kept@[j]),
                forall|j: int| 0 <= j < self.selected_indices@.len() ==> #[trigger] self.selected_indices@[j] < self.options@.len(),
                self.selected_indices@.no_duplicates(),
            decreases self.selected_indices@.len() - i,
        {
            let c = self.selected_indices[i];
            proof {
                reveal_with_fuel(Seq::filter, 1);
                assert(self.selected_indices@.subrange(0, i + 1).drop_last() =~= self.selected_indices@.subrange(0, i as int));
            }
            let ghost before = kept@;
            let ghost prefix = self.selected_indices@.subrange(0, i as int);
            if c != index {
                proof {
                    assert(!before.contains(c)) by {
                        if before.contains(c) {
                            let j = choose|j: int| 0 <= j < before.len() && before[j] == c;
                            assert(prefix.contains(before[j]));
                            let k = choose|k: int| 0 <= k < prefix.len() && prefix[k] == c;
                            assert(self.selected_indices@[k] == self.selected_indices@[i as int]);
                        }
                    }
                }
                kept.push(c);
            }
            assert forall|j: int| 0 <= j < kept@.len() implies self.selected_indices@.subrange(0, i + 1).contains(#[trigger] kept@[j]) by {
                if j < before.len() {
                    let k = choose|k: int| 0 <= k < prefix.len() && prefix[k] == kept@[j];
                    assert(self.selected_indices@.subrange(0, i + 1)[k] == kept@[j]);
                } else {
                    assert(self.selected_indices@.subrange(0, i + 1)[i as int] == kept@[j]);
                }
            }
            i = i + 1;
        }
        assert(self.selected_indices@.subrange(0, self.selected_indices@.len() as int) =~= self.selected_indices@);
        let mut empty: Vec<usize> = Vec::new();
        std::mem::swap(&mut empty, &mut self.selected_indices);
        self.selected_indices = kept;
        Ok(())
    }

    /// Deselect everything.
    pub fn clear_selections(&mut self)
        ensures
            final(self)@ == (MultiselectView { selected_indices: Seq::empty(), ..old(self)@ }),
    {
        let mut empty: Vec<usize> = Vec::new();
        std::mem::swap(&mut empty, &mut self.selected_indices);
    }
}

impl Renderable for MultiselectElement {
    closed spec fn spec_id(&self) -> ElementId {
        self.base@.id
    }

    fn id(&self) -> (r: ElementId) {
        self.base.id()
    }

    fn name(&self) -> &str {
        self.base.name()
    }
}

impl Validatable for MultiselectElement {
    closed spec fn spec_valid(&self) -> bool {
        self.label@.len() > 0 && self.options@.len() > 0
    }

    fn validate(&self) -> (r: Result<(), Error>) {
        if self.label.as_str().is_empty() {
            return Err(Error::state("Multiselect label cannot be empty"));
        }
        if self.options.len() == 0 {
            return Err(Error::state("Multiselect must have at least one option"));
        }
        Ok(())
    }
}

/// What a date picker holds.
pub struct DatePickerView {
    pub base: BaseView,
    pub label: Seq<char>,
    pub value: Seq<char>,
    pub min_date: Option<Seq<char>>,
    pub max_date: Option<Seq<char>>,
    pub disabled: bool,
}

/// A date picker; dates are texts in the form YYYY-MM-DD.
pub struct DatePickerElement {
    base: BaseElement,
    label: String,
    value: String,
    min_date: Option<String>,
    max_date: Option<String>,
    disabled: bool,
}

impl View for DatePickerElement {
    type V = DatePickerView;

    closed spec fn view(&self) -> DatePickerView {
        DatePickerView {
            base: self.base@,
            label: self.label@,
            value: self.value@,
            min_date: opt_view(self.min_date),
            max_date: opt_view(self.max_date),
            disabled: self.disabled,
        }
    }
}

impl DatePickerElement {
    /// An empty date picker named "date_picker", with no bounds.
    pub fn new(id: ElementId, label: &str) -> (r: DatePickerElement)
        ensures
            r@ == (DatePickerView {
                base: BaseView { id, name: "date_picker"@, metadata: empty_metadata() },
                label: label@,
                value: Seq::empty(),
                min_date: None,
                max_date: None,
                disabled: false,
            }),
    {
        DatePickerElement {
            base: BaseElement::new(id, "date_picker"),
            label: label.to_owned(),
            value: String::new(),
            min_date: None,
            max_date: None,
            disabled: false,
        }
    }

    /// The label.
    pub fn label(&self) -> (r: &str)
        ensures
            r@ == self@.label,
    {
        self.label.as_str()
    }

    /// The chosen date.
    pub fn value(&self) -> (r: &str)
        ensures
            r@ == self@.value,
    {
        self.value.as_str()
    }

    /// Choose a date.
    pub fn set_date(&mut self, date: &str)
        ensures
            final(self)@ == (DatePickerView { value: date@, ..old(self)@ }),
    {
        self.value = date.to_owned();
    }

    /// Set the earliest date.
    pub fn set_min_date(&mut self, date: &str)
        ensures
            final(self)@ == (DatePickerView { min_date: Some(date@), ..old(self)@ }),
    {
        self.min_date = Some(date.to_owned());
    }

    /// Set the latest date.
    pub fn set_max_date(&mut self, date: &str)
        ensures
            final(self)@ == (DatePickerView { max_date: Some(date@), ..old(self)@ }),
    {
        self.max_date = Some(date.to_owned());
    }
}

impl Renderable for DatePickerElement {
    closed spec fn spec_id(&self) -> ElementId {
        self.base@.id
    }

    fn id(&self) -> (r: ElementId) {
        self.base.id()
    }

    fn name(&self) -> &str {
        self.base.name()
    }
}

impl Validatable for DatePickerElement {
    closed spec fn spec_valid(&self) -> bool {
        self.label@.len() > 0
    }

    fn validate(&self) -> (r: Result<(), Error>) {
        if self.label.as_str().is_empty() {
            return Err(Error::state("DatePicker label cannot be empty"));
        }
        Ok(())
    }
}

} // verus!
