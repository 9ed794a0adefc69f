//! Builders that make element implementations for a given id.
use vstd::prelude::*;
use crate::base::{BaseView, empty_metadata};
use crate::display::{HeadingElement, HeadingView, ImageElement, ImageView, TextElement, TextView, decimal};
use crate::element::ElementId;
use crate::error::Error;
use crate::feedback::{FeedbackElement, FeedbackType, FeedbackView, MetricElement, MetricView, feedback_name};
use crate::input::{ButtonElement, ButtonView, TextInputElement, TextInputView};
use crate::layout::{ContainerElement, ContainerView};

verus! {

/// Makes one element implementation for an id.
pub struct ElementBuilder {
    id: ElementId,
}

impl ElementBuilder {
    /// The id the element will have.
    pub closed spec fn spec_id(&self) -> ElementId {
        self.id
    }

    /// A builder for this id.
    pub fn new(id: ElementId) -> (r: ElementBuilder)
        ensures
            r.spec_id() == id,
    {
        ElementBuilder { id }
    }

    /// A text element.
    pub fn text(self, content: &str) -> (r: TextElement)
        ensures
            r@ == (TextView { base: BaseView { id: self.spec_id(), name: "text"@, metadata: empty_metadata() }, content: content@ }),
    {
        TextElement::new(self.id, content)
    }

    /// A heading; a level outside 1 to 6 is refused.
    pub fn heading(self, content: &str, level: u32) -> (r: Result<HeadingElement, Error>)
        ensures
            r.is_ok() == (1 <= level <= 6),
            r.is_ok() ==> r.unwrap()@ == (HeadingView {
                base: BaseView { id: self.spec_id(), name: "heading_"@ + decimal(level as nat), metadata: empty_metadata() },
                content: content@,
                level,
            }),
    {
        HeadingElement::new(self.id, content, level)
    }

    /// An image.
    pub fn image(self, src: &str, alt: &str) -> (r: ImageElement)
        ensures
            r@ == (ImageView {
                base: BaseView { id: self.spec_id(), name: "image"@, metadata: empty_metadata() },
                src: src@,
                alt: alt@,
                width: None,
                height: None,
            }),
    {
        ImageElement::new(self.id, src, alt)
    }

    /// A button.
    pub fn button(self, label: &str) -> (r: ButtonElement)
        ensures
            r@ == (ButtonView {
                base: BaseView { id: self.spec_id(), name: "button"@, metadata: empty_metadata() },
                label: label@,
                disabled: false,
                click_count: 0,
            }),
    {
        ButtonElement::new(self.id, label)
    }

    /// A text input.
    pub fn text_input(self, label: &str) -> (r: TextInputElement)
        ensures
            r@ == (TextInputView {
                base: BaseView { id: self.spec_id(), name: "text_input"@, metadata: empty_metadata() },
                label: label@,
                value: Seq::empty(),
                placeholder: None,
                disabled: false,
                required: false,
                max_length: None,
            }),
    {
        TextInputElement::new(self.id, label)
    }

    /// A container.
    pub fn container(self) -> (r: ContainerElement)
        ensures
            r@ == (ContainerView {
                base: BaseView { id: self.spec_id(), name: "container"@, metadata: empty_metadata() },
                children: Seq::empty(),
            }),
    {
        ContainerElement::new(self.id)
    }

    /// A success message.
    pub fn success(self, message: &str) -> (r: FeedbackElement)
        ensures
            r@ == (FeedbackView {
                base: BaseView {
                    id: self.spec_id(),
                    name: "feedback_"@ + feedback_name(FeedbackType::Success),
                    metadata: empty_metadata(),
                },
                feedback_type: FeedbackType::Success,
                message: message@,
            }),
    {
        FeedbackElement::new(self.id, FeedbackType::Success, message)
    }

    /// A error message.
    pub fn error(self, message: &str) -> (r: FeedbackElement)
        ensures
            r@ == (FeedbackView {
                base: BaseView {
                    id: self.spec_id(),
                    name: "feedback_"@ + feedback_name(FeedbackType::Error),
                    metadata: empty_metadata(),
                },
                feedback_type: FeedbackType::Error,
                message: message@,
            }),
    {
        FeedbackElement::new(self.id, FeedbackType::Error, message)
    }

    /// A warning message.
    pub fn warning(self, message: &str) -> (r: FeedbackElement)
        ensures
            r@ == (FeedbackView {
                base: BaseView {
                    id: self.spec_id(),
                    name: "feedback_"@ + feedback_name(FeedbackType::Warning),
                    metadata: empty_metadata(),
                },
                feedback_type: FeedbackType::Warning,
                message: message@,
            }),
    {
        FeedbackElement::new(self.id, FeedbackType::Warning, message)
    }

    /// A info message.
    pub fn info(self, message: &str) -> (r: FeedbackElement)
        ensures
            r@ == (FeedbackView {
                base: BaseView {
                    id: self.spec_id(),
                    name: "feedback_"@ + feedback_name(FeedbackType::Info),
                    metadata: empty_metadata(),
                },
                feedback_type: FeedbackType::Info,
                message: message@,
            }),
    {
        FeedbackElement::new(self.id, FeedbackType::Info, message)
    }

    /// A metric.
    pub fn metric(self, label: &str, value: &str) -> (r: MetricElement)
        ensures
            r@ == (MetricView {
                base: BaseView { id: self.spec_id(), name: "metric"@, metadata: empty_metadata() },
                label: label@,
                value: value@,
                delta: None,
            }),
    {
        MetricElement::new(self.id, label, value)
    }
}

/// Makes element implementations from an id in one call.
pub struct ElementFactory;

impl ElementFactory {
    /// A builder for this id.
    pub fn build(id: ElementId) -> (r: ElementBuilder)
        ensures
            r.spec_id() == id,
    {
        ElementBuilder::new(id)
    }

    /// A text element.
    pub fn text(id: ElementId, content: &str) -> (r: TextElement)
        ensures
            r@ == (TextView { base: BaseView { id: id, name: "text"@, metadata: empty_metadata() }, content: content@ }),
    {
        TextElement::new(id, content)
    }

    /// A heading; a level outside 1 to 6 is refused.
    pub fn heading(id: ElementId, content: &str, level: u32) -> (r: Result<HeadingElement, Error>)
        ensures
            r.is_ok() == (1 <= level <= 6),
            r.is_ok() ==> r.unwrap()@ == (HeadingView {
                base: BaseView { id: id, name: "heading_"@ + decimal(level as nat), metadata: empty_metadata() },
                content: content@,
                level,
            }),
    {
        HeadingElement::new(id, content, level)
    }

    /// An image.
    pub fn image(id: ElementId, src: &str, alt: &str) -> (r: ImageElement)
        ensures
            r@ == (ImageView {
                base: BaseView { id: id, name: "image"@, metadata: empty_metadata() },
                src: src@,
                alt: alt@,
                width: None,
                height: None,
            }),
    {
        ImageElement::new(id, src, alt)
    }

    /// A button.
    pub fn button(id: ElementId, label: &str) -> (r: ButtonElement)
        ensures
            r@ == (ButtonView {
                base: BaseView { id: id, name: "button"@, metadata: empty_metadata() },
                label: label@,
                disabled: false,
                click_count: 0,
            }),
    {
        ButtonElement::new(id, label)
    }

    /// A text input.
    pub fn text_input(id: ElementId, label: &str) -> (r: TextInputElement)
        ensures
            r@ == (TextInputView {
                base: BaseView { id: id, name: "text_input"@, metadata: empty_metadata() },
                label: label@,
                value: Seq::empty(),
                placeholder: None,
                disabled: false,
                required: false,
                max_length: None,
            }),
    {
        TextInputElement::new(id, label)
    }

    /// A container.
    pub fn container(id: ElementId) -> (r: ContainerElement)
        ensures
            r@ == (ContainerView {
                base: BaseView { id: id, name: "container"@, metadata: empty_metadata() },
                children: Seq::empty(),
            }),
    {
        ContainerElement::new(id)
    }

    /// A success message.
    pub fn success(id: ElementId, message: &str) -> (r: FeedbackElement)
        ensures
            r@ == (FeedbackView {
                base: BaseView {
                    id: id,
                    name: "feedback_"@ + feedback_name(FeedbackType::Success),
                    metadata: empty_metadata(),
                },
                feedback_type: FeedbackType::Success,
                message: message@,
            }),
    {
        FeedbackElement::new(id, FeedbackType::Success, message)
    }

    /// A error message.
    pub fn error(id: ElementId, message: &str) -> (r: FeedbackElement)
        ensures
            r@ == (FeedbackView {
                base: BaseView {
                    id: id,
                    name: "feedback_"@ + feedback_name(FeedbackType::Error),
                    metadata: empty_metadata(),
                },
                feedback_type: FeedbackType::Error,
                message: message@,
            }),
    {
        FeedbackElement::new(id, FeedbackType::Error, message)
    }

    /// A warning message.
    pub fn warning(id: ElementId, message: &str) -> (r: FeedbackElement)
        ensures
            r@ == (FeedbackView {
                base: BaseView {
                    id: id,
                    name: "feedback_"@ + feedback_name(FeedbackType::Warning),
                    metadata: empty_metadata(),
                },
                feedback_type: FeedbackType::Warning,
                message: message@,
            }),
    {
        FeedbackElement::new(id, FeedbackType::Warning, message)
    }

    /// A info message.
    pub fn info(id: ElementId, message: &str) -> (r: FeedbackElement)
        ensures
            r@ == (FeedbackView {
                base: BaseView {
                    id: id,
                    name: "feedback_"@ + feedback_name(FeedbackType::Info),
                    metadata: empty_metadata(),
                },
                feedback_type: FeedbackType::Info,
                message: message@,
            }),
    {
        FeedbackElement::new(id, FeedbackType::Info, message)
    }

    /// A metric.
    pub fn metric(id: ElementId, label: &str, value: &str) -> (r: MetricElement)
        ensures
            r@ == (MetricView {
                base: BaseView { id: id, name: "metric"@, metadata: empty_metadata() },
                label: label@,
                value: value@,
                delta: None,
            }),
    {
        MetricElement::new(id, label, value)
    }
}

} // verus!
