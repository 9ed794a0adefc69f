//! Input elements: buttons and text inputs.
use vstd::prelude::*;
use crate::base::{BaseElement, BaseView, empty_metadata};
use crate::element::{ElementId, opt_view};
use crate::error::Error;
use crate::traits::{Renderable, Styleable, Validatable};
use vstd::string::StrSliceExecFns;

verus! {

/// What a button element holds.
pub struct ButtonView {
    pub base: BaseView,
    pub label: Seq<char>,
    pub disabled: bool,
    pub click_count: u32,
}

/// A button that counts its clicks.
pub struct ButtonElement {
    base: BaseElement,
    label: String,
    disabled: bool,
    click_count: u32,
}

impl View for ButtonElement {
    type V = ButtonView;

    closed spec fn view(&self) -> ButtonView {
        ButtonView {
            base: self.base@,
            label: self.label@,
            disabled: self.disabled,
            click_count: self.click_count,
        }
    }
}

impl ButtonElement {
    /// An enabled button named "button", not clicked yet.
    pub fn new(id: ElementId, label: &str) -> (r: ButtonElement)
        ensures
            r@ == (ButtonView {
                base: BaseView { id, name: "button"@, metadata: empty_metadata() },
                label: label@,
                disabled: false,
                click_count: 0,
            }),
    {
        ButtonElement {
            base: BaseElement::new(id, "button"),
            label: label.to_owned(),
            disabled: false,
            click_count: 0,
        }
    }

    /// The label.
    pub fn label(&self) -> (r: &str)
        ensures
            r@ == self@.label,
    {
        self.label.as_str()
    }

    /// Replace the label.
    pub fn set_label(&mut self, label: &str)
        ensures
            final(self)@ == (ButtonView { label: label@, ..old(self)@ }),
    {
        self.label = label.to_owned();
    }

    /// The number of clicks.
    pub fn click_count(&self) -> (r: u32)
        ensures
            r == self@.click_count,
    {
        self.click_count
    }

    /// Forget the clicks.
    pub fn reset_click_count(&mut self)
        ensures
            final(self)@ == (ButtonView { click_count: 0, ..old(self)@ }),
    {
        self.click_count = 0;
    }

    /// Count a click, unless the button is disabled; the count stays at its
    /// largest value once there.
    pub fn click(&mut self)
        ensures
            final(self)@ == (ButtonView {
                click_count: if !old(self)@.disabled && old(self)@.click_count < u32::MAX {
                    (old(self)@.click_count + 1) as u32
                } else {
                    old(self)@.click_count
                },
                ..old(self)@
            }),
    {
        if !self.disabled && self.click_count < u32::MAX {
            self.click_count = self.click_count + 1;
        }
    }

    /// Whether the button is disabled.
    pub fn is_disabled(&self) -> (r: bool)
        ensures
            r == self@.disabled,
    {
        self.disabled
    }

    /// Enable or disable the button.
    pub fn set_disabled(&mut self, disabled: bool)
        ensures
            final(self)@ == (ButtonView { disabled, ..old(self)@ }),
    {
        self.disabled = disabled;
    }
}

impl Renderable for ButtonElement {
    closed spec fn spec_id(&self) -> ElementId {
        self.base@.id
    }

    fn id(&self) -> (r: ElementId) {
        self.base.id()
    }

    fn name(&self) -> &str {
        self.base.name()
    }
}

impl Validatable for ButtonElement {
    closed spec fn spec_valid(&self) -> bool {
        self.label@.len() > 0
    }

    fn validate(&self) -> (r: Result<(), Error>) {
        if self.label.as_str().is_empty() {
            return Err(Error::state("Button label cannot be empty"));
        }
        Ok(())
    }
}

impl Styleable for ButtonElement {
    fn css_classes(&self) -> Vec<&str> {
        self.base.css_classes()
    }

    fn inline_styles(&self) -> Vec<(&str, &str)> {
        self.base.inline_styles()
    }

    fn theme_variant(&self) -> Option<&str> {
        Some("button")
    }
}

/// What a text input element holds.
pub struct TextInputView {
    pub base: BaseView,
    pub label: Seq<char>,
    pub value: Seq<char>,
    pub placeholder: Option<Seq<char>>,
    pub disabled: bool,
    pub required: bool,
    pub max_length: Option<usize>,
}

/// A single-line text input.
pub struct TextInputElement {
    base: BaseElement,
    label: String,
    value: String,
    placeholder: Option<String>,
    disabled: bool,
    required: bool,
    max_length: Option<usize>,
}

impl View for TextInputElement {
    type V = TextInputView;

    closed spec fn view(&self) -> TextInputView {
        TextInputView {
            base: self.base@,
            label: self.label@,
            value: self.value@,
            placeholder: opt_view(self.placeholder),
            disabled: self.disabled,
            required: self.required,
            max_length: self.max_length,
        }
    }
}

/// Whether a text fits a length limit, counted in characters.
pub open spec fn fits(value: Seq<char>, max_length: Option<usize>) -> bool {
    match max_length {
        Some(m) => value.len() <= m,
        None => true,
    }
}

impl TextInputElement {
    /// An empty, optional, enabled text input named "text_input".
    pub fn new(id: ElementId, label: &str) -> (r: TextInputElement)
        ensures
            r@ == (TextInputView {
                base: BaseView { id, name: "text_input"@, metadata: empty_metadata() },
                label: label@,
                value: Seq::empty(),
                placeholder: None,
                disabled: false,
                required: false,
                max_length: None,
            }),
    {
        TextInputElement {
            base: BaseElement::new(id, "text_input"),
            label: label.to_owned(),
            value: String::new(),
            placeholder: None,
            disabled: false,
            required: false,
            max_length: None,
        }
    }

    /// The label.
    pub fn label(&self) -> (r: &str)
        ensures
            r@ == self@.label,
    {
        self.label.as_str()
    }

    /// The current text.
    pub fn value(&self) -> (r: &str)
        ensures
            r@ == self@.value,
    {
        self.value.as_str()
    }

    /// Set the placeholder.
    pub fn set_placeholder(&mut self, placeholder: &str)
        ensures
            final(self)@ == (TextInputView { placeholder: Some(placeholder@), ..old(self)@ }),
    {
        self.placeholder = Some(placeholder.to_owned());
    }

    /// Set the largest length of the text, in characters.
    pub fn set_max_length(&mut self, max_length: usize)
        ensures
            final(self)@ == (TextInputView { max_length: Some(max_length), ..old(self)@ }),
    {
        self.max_length = Some(max_length);
    }

    /// Make a text required or optional.
    pub fn set_required(&mut self, required: bool)
        ensures
            final(self)@ == (TextInputView { required, ..old(self)@ }),
    {
        self.required = required;
    }

    /// Replace the text; a text longer than the limit is refused and nothing
    /// changes.
    pub fn set_text(&mut self, value: &str) -> (r: Result<(), Error>)
        ensures
            r.is_ok() == fits(value@, old(self)@.max_length),
            r.is_ok() ==> final(self)@ == (TextInputView { value: value@, ..old(self)@ }),
            !r.is_ok() ==> final(self)@ == old(self)@ && r matches Err(Error::StateError(_)),
    {
        match self.max_length {
            Some(m) => {
                if value.unicode_len() > m {
                    return Err(Error::state("Value exceeds maximum length"));
                }
            },
            None => {},
        }
        self.value = value.to_owned();
        Ok(())
    }
}

impl Renderable for TextInputElement {
    closed spec fn spec_id(&self) -> ElementId {
        self.base@.id
    }

    fn id(&self) -> (r: ElementId) {
        self.base.id()
    }

    fn name(&self) -> &str {
        self.base.name()
    }
}

impl Validatable for TextInputElement {
    closed spec fn spec_valid(&self) -> bool {
        &&& self.label@.len() > 0
        &&& !(self.required && self.value@.len() == 0)
        &&& fits(self.value@, self.max_length)
    }

    fn validate(&self) -> (r: Result<(), Error>) {
        if self.label.as_str().is_empty() {
            return Err(Error::state("Input label cannot be empty"));
        }
        if self.required && self.value.as_str().is_empty() {
            return Err(Error::state("This field is required"));
        }
        match self.max_length {
            Some(m) => {
                if self.value.as_str().unicode_len() > m {
                    return Err(Error::state("Value exceeds maximum length"));
                }
            },
            None => {},
        }
        Ok(())
    }
}

impl Styleable for TextInputElement {
    fn css_classes(&self) -> Vec<&str> {
        self.base.css_classes()
    }

    fn inline_styles(&self) -> Vec<(&str, &str)> {
        self.base.inline_styles()
    }
}

} // verus!
