//! Input widgets with a value of their own: checkbox, select box, slider.
use vstd::prelude::*;
use crate::base::{BaseElement, BaseView, empty_metadata};
use crate::element::{ElementId, strings_view};
use crate::error::Error;
use crate::text::str_eq;
use crate::traits::{Renderable, Validatable};

verus! {

/// Position of the first option with this text, if any.
pub fn position_of(options: &Vec<String>, value: &str) -> (r: Option<usize>)
    ensures
        match r {
            Some(i) => i < options@.len() && options@[i as int]@ == value@ && forall|j: int|
                0 <= j < i ==> (#[trigger] options@[j])@ != value@,
            None => forall|j: int| 0 <= j < options@.len() ==> (#[trigger] options@[j])@ != value@,
        },
{
    let mut i: usize = 0;
    while i < options.len()
        invariant
            i <= options@.len(),
            forall|j: int| 0 <= j < i ==> (#[trigger] options@[j])@ != value@,
        decreases options@.len() - i,
    {
        if str_eq(options[i].as_str(), value) {
            return Some(i);
        }
        i = i + 1;
    }
    None
}

/// What a checkbox element holds.
pub struct CheckboxView {
    pub base: BaseView,
    pub label: Seq<char>,
    pub checked: bool,
    pub disabled: bool,
}

/// A checkbox.
pub struct CheckboxElement {
    base: BaseElement,
    label: String,
    checked: bool,
    disabled: bool,
}

impl View for CheckboxElement {
    type V = CheckboxView;

    closed spec fn view(&self) -> CheckboxView {
        CheckboxView { base: self.base@, label: self.label@, checked: self.checked, disabled: self.disabled }
    }
}

impl CheckboxElement {
    /// An unchecked, enabled checkbox named "checkbox".
    pub fn new(id: ElementId, label: &str) -> (r: CheckboxElement)
        ensures
            r@ == (CheckboxView {
                base: BaseView { id, name: "checkbox"@, metadata: empty_metadata() },
                label: label@,
                checked: false,
                disabled: false,
            }),
    {
        CheckboxElement {
            base: BaseElement::new(id, "checkbox"),
            label: label.to_owned(),
            checked: false,
            disabled: false,
        }
    }

    /// The label.
    pub fn label(&self) -> (r: &str)
        ensures
            r@ == self@.label,
    {
        self.label.as_str()
    }

    /// Whether it is checked.
    pub fn is_checked(&self) -> (r: bool)
        ensures
            r == self@.checked,
    {
        self.checked
    }

    /// Check or uncheck it.
    pub fn set_checked(&mut self, checked: bool)
        ensures
            final(self)@ == (CheckboxView { checked, ..old(self)@ }),
    {
        self.checked = checked;
    }

    /// Whether it is disabled.
    pub fn is_disabled(&self) -> (r: bool)
        ensures
            r == self@.disabled,
    {
        self.disabled
    }

    /// Enable or disable it.
    pub fn set_disabled(&mut self, disabled: bool)
        ensures
            final(self)@ == (CheckboxView { disabled, ..old(self)@ }),
    {
        self.disabled = disabled;
    }
}

impl Renderable for CheckboxElement {
    closed spec fn spec_id(&self) -> ElementId {
        self.base@.id
    }

    fn id(&self) -> (r: ElementId) {
        self.base.id()
    }

    fn name(&self) -> &str {
        self.base.name()
    }
}

impl Validatable for CheckboxElement {
    closed spec fn spec_valid(&self) -> bool {
        self.label@.len() > 0
    }

    fn validate(&self) -> (r: Result<(), Error>) {
        if self.label.as_str().is_empty() {
            return Err(Error::state("Checkbox label cannot be empty"));
        }
        Ok(())
    }
}

/// What a single-choice element holds.
pub struct ChoiceView {
    pub base: BaseView,
    pub label: Seq<char>,
    pub options: Seq<Seq<char>>,
    pub selected_index: usize,
    pub disabled: bool,
}

/// A select box: one of a non-empty list of options is selected.
pub struct SelectboxElement {
    base: BaseElement,
    label: String,
    options: Vec<String>,
    selected_index: usize,
    disabled: bool,
}

impl View for SelectboxElement {
    type V = ChoiceView;

    closed spec fn view(&self) -> ChoiceView {
        ChoiceView {
            base: self.base@,
            label: self.label@,
            options: strings_view(self.options@),
            selected_index: self.selected_index,
            disabled: self.disabled,
        }
    }
}

impl SelectboxElement {
    #[verifier::type_invariant]
    closed spec fn inv(self) -> bool {
        self.selected_index < self.options@.len()
    }

    /// A select box named "selectbox" with its first option selected; an
    /// empty list of options is refused.
    pub fn new(id: ElementId, label: &str, options: Vec<String>) -> (r: Result<SelectboxElement, Error>)
        ensures
            r.is_ok() == (options@.len() > 0),
            r.is_ok() ==> r.unwrap()@ == (ChoiceView {
                base: BaseView { id, name: "selectbox"@, metadata: empty_metadata() },
                label: label@,
                options: strings_view(options@),
                selected_index: 0,
                disabled: false,
            }),
            !r.is_ok() ==> r matches Err(Error::StateError(_)),
    {
        if options.len() == 0 {
            return Err(Error::state("Selectbox must have at least one option"));
        }
        Ok(SelectboxElement {
            base: BaseElement::new(id, "selectbox"),
            label: label.to_owned(),
            options,
            selected_index: 0,
            disabled: false,
        })
    }

    /// The label.
    pub fn label(&self) -> (r: &str)
        ensures
            r@ == self@.label,
    {
        self.label.as_str()
    }

    /// The options.
    pub fn options(&self) -> (r: &[String])
        ensures
            strings_view(r@) == self@.options,
    {
        self.options.as_slice()
    }

    /// The selected option.
    pub fn selected_value(&self) -> (r: &str)
        ensures
            self@.selected_index < self@.options.len(),
            r@ == self@.options[self@.selected_index as int],
    {
        proof {
            use_type_invariant(self);
        }
        self.options[self.selected_index].as_str()
    }

    /// The position of the selected option.
    pub fn selected_index(&self) -> (r: usize)
        ensures
            r == self@.selected_index,
    {
        self.selected_index
    }

    /// Select the option at a position; a position past the options is
    /// refused and nothing changes.
    pub fn set_selected_index(&mut self, index: usize) -> (r: Result<(), Error>)
        ensures
            r.is_ok() == (index < old(self)@.options.len()),
            r.is_ok() ==> final(self)@ == (ChoiceView { selected_index: index, ..old(self)@ }),
            !r.is_ok() ==> final(self)@ == old(self)@ && r matches Err(Error::StateError(_)),
    {
        if index >= self.options.len() {
            return Err(Error::state("Index out of bounds"));
        }
        self.selected_index = index;
        Ok(())
    }

    /// Select the first option with this text; a text that is no option is
    /// refused and nothing changes.
    pub fn select(&mut self, value: &str) -> (r: Result<(), Error>)
        ensures
            r.is_ok() == old(self)@.options.contains(value@),
            r.is_ok() ==> final(self)@.options[final(self)@.selected_index as int] == value@
                && final(self)@ == (ChoiceView { selected_index: final(self)@.selected_index, ..old(self)@ }),
            !r.is_ok() ==> final(self)@ == old(self)@ && r matches Err(Error::StateError(_)),
    {
        match position_of(&self.options, value) {
            Some(i) => {
                self.selected_index = i;
                assert(self@.options[i as int] == value@);
                Ok(())
            },
            None => {
                assert(!self@.options.contains(value@)) by {
                    if self@.options.contains(value@) {
                        let j = choose|j: int| 0 <= j < self@.options.len() && self@.options[j] == value@;
                        assert(self.options@[j]@ == value@);
                    }
                }
                Err(Error::state("Value not found in options"))
            },
        }
    }

    /// Whether it is disabled.
    pub fn is_disabled(&self) -> (r: bool)
        ensures
            r == self@.disabled,
    {
        self.disabled
    }

    /// Enable or disable it.
    pub fn set_disabled(&mut self, disabled: bool)
        ensures
            final(self)@ == (ChoiceView { disabled, ..old(self)@ }),
    {
        proof {
            use_type_invariant(&*self);
        }
        self.disabled = disabled;
    }
}

impl Renderable for SelectboxElement {
    closed spec fn spec_id(&self) -> ElementId {
        self.base@.id
    }

    fn id(&self) -> (r: ElementId) {
        self.base.id()
    }

    fn name(&self) -> &str {
        self.base.name()
    }
}

impl Validatable for SelectboxElement {
    closed spec fn spec_valid(&self) -> bool {
        self.label@.len() > 0 && self.options@.len() > 0
    }

    fn validate(&self) -> (r: Result<(), Error>) {
        if self.label.as_str().is_empty() {
            return Err(Error::state("Selectbox label cannot be empty"));
        }
        if self.options.len() == 0 {
            return Err(Error::state("Selectbox must have at least one option"));
        }
        Ok(())
    }
}

/// What a slider element holds.
pub struct SliderView {
    pub base: BaseView,
    pub label: Seq<char>,
    pub value: i64,
    pub min: i64,
    pub max: i64,
    pub step: i64,
    pub disabled: bool,
}

/// A slider over a range of whole numbers.
pub struct SliderElement {
    base: BaseElement,
    label: String,
    value: i64,
    min: i64,
    max: i64,
    step: i64,
    disabled: bool,
}

impl View for SliderElement {
    type V = SliderView;

    closed spec fn view(&self) -> SliderView {
        SliderView {
            base: self.base@,
            label: self.label@,
            value: self.value,
            min: self.min,
            max: self.max,
            step: self.step,
            disabled: self.disabled,
        }
    }
}

impl SliderElement {
    /// A slider named "slider" at its minimum, with step 1; a range whose
    /// minimum is not below its maximum is refused.
    pub fn new(id: ElementId, label: &str, min: i64, max: i64) -> (r: Result<SliderElement, Error>)
        ensures
            r.is_ok() == (min < max),
            r.is_ok() ==> r.unwrap()@ == (SliderView {
                base: BaseView { id, name: "slider"@, metadata: empty_metadata() },
                label: label@,
                value: min,
                min,
                max,
                step: 1,
                disabled: false,
            }),
            !r.is_ok() ==> r matches Err(Error::StateError(_)),
    {
        if min >= max {
            return Err(Error::state("min must be less than max"));
        }
        Ok(SliderElement {
            base: BaseElement::new(id, "slider"),
            label: label.to_owned(),
            value: min,
            min,
            max,
            step: 1,
            disabled: false,
        })
    }

    /// Set the step.
    pub fn set_step(&mut self, step: i64)
        ensures
            final(self)@ == (SliderView { step, ..old(self)@ }),
    {
        self.step = step;
    }

    /// The current value.
    pub fn value(&self) -> (r: i64)
        ensures
            r == self@.value,
    {
        self.value
    }

    /// The minimum.
    pub fn min(&self) -> (r: i64)
        ensures
            r == self@.min,
    {
        self.min
    }

    /// The maximum.
    pub fn max(&self) -> (r: i64)
        ensures
            r == self@.max,
    {
        self.max
    }

    /// Move to a value; a value outside the range is refused, not clamped,
    /// and nothing changes.
    pub fn set_number(&mut self, value: i64) -> (r: Result<(), Error>)
        ensures
            r.is_ok() == (old(self)@.min <= value <= old(self)@.max),
            r.is_ok() ==> final(self)@ == (SliderView { value, ..old(self)@ }),
            !r.is_ok() ==> final(self)@ == old(self)@ && r matches Err(Error::StateError(_)),
    {
        if value < self.min || value > self.max {
            return Err(Error::state("Value is outside the slider range"));
        }
        self.value = value;
        Ok(())
    }
}

impl Renderable for SliderElement {
    closed spec fn spec_id(&self) -> ElementId {
        self.base@.id
    }

    fn id(&self) -> (r: ElementId) {
        self.base.id()
    }

    fn name(&self) -> &str {
        self.base.name()
    }
}

impl Validatable for SliderElement {
    closed spec fn spec_valid(&self) -> bool {
        self.min <= self.value <= self.max
    }

    fn validate(&self) -> (r: Result<(), Error>) {
        if self.value < self.min || self.value > self.max {
            return Err(Error::state("Value is outside the slider range"));
        }
        Ok(())
    }
}

} // verus!
