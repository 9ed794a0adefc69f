//! Feedback messages and metrics.
use vstd::prelude::*;
use crate::base::{BaseElement, BaseView, empty_metadata};
use crate::element::{ElementId, opt_view};
use crate::text::joined;
use crate::traits::Renderable;

verus! {

/// The kind of a feedback message.
#[derive(Debug, Clone, Copy, PartialEq, Eq, Structural)]
pub enum FeedbackType {
    Success,
    Error,
    Warning,
    Info,
}

/// The lower-case name of a feedback kind.
pub open spec fn feedback_name(t: FeedbackType) -> Seq<char> {
    match t {
        FeedbackType::Success => "success"@,
        FeedbackType::Error => "error"@,
        FeedbackType::Warning => "warning"@,
        FeedbackType::Info => "info"@,
    }
}

/// What a feedback element holds.
pub struct FeedbackView {
    pub base: BaseView,
    pub feedback_type: FeedbackType,
    pub message: Seq<char>,
}

/// A success, error, warning or informational message.
pub struct FeedbackElement {
    base: BaseElement,
    feedback_type: FeedbackType,
    message: String,
}

impl View for FeedbackElement {
    type V = FeedbackView;

    closed spec fn view(&self) -> FeedbackView {
        FeedbackView { base: self.base@, feedback_type: self.feedback_type, message: self.message@ }
    }
}

impl FeedbackElement {
    /// A message named "feedback_" and the name of its kind.
    pub fn new(id: ElementId, feedback_type: FeedbackType, message: &str) -> (r: FeedbackElement)
        ensures
            r@ == (FeedbackView {
                base: BaseView {
                    id,
                    name: "feedback_"@ + feedback_name(feedback_type),
                    metadata: empty_metadata(),
                },
                feedback_type,
                message: message@,
            }),
    {
        let kind_name = match feedback_type {
            FeedbackType::Success => "success",
            FeedbackType::Error => "error",
            FeedbackType::Warning => "warning",
            FeedbackType::Info => "info",
        };
        let name = joined("feedback_", kind_name);
        FeedbackElement {
            base: BaseElement::new(id, name.as_str()),
            feedback_type,
            message: message.to_owned(),
        }
    }

    /// The kind of message.
    pub fn feedback_type(&self) -> (r: FeedbackType)
        ensures
            r == self@.feedback_type,
    {
        self.feedback_type
    }

    /// The message.
    pub fn message(&self) -> (r: &str)
        ensures
            r@ == self@.message,
    {
        self.message.as_str()
    }
}

impl Renderable for FeedbackElement {
    closed spec fn spec_id(&self) -> ElementId {
        self.base@.id
    }

    fn id(&self) -> (r: ElementId) {
        self.base.id()
    }

    fn name(&self) -> &str {
        self.base.name()
    }
}

/// What a metric element holds.
pub struct MetricView {
    pub base: BaseView,
    pub label: Seq<char>,
    pub value: Seq<char>,
    pub delta: Option<Seq<char>>,
}

/// A labelled value with an optional change.
pub struct MetricElement {
    base: BaseElement,
    label: String,
    value: String,
    delta: Option<String>,
}

impl View for MetricElement {
    type V = MetricView;

    closed spec fn view(&self) -> MetricView {
        MetricView {
            base: self.base@,
            label: self.label@,
            value: self.value@,
            delta: opt_view(self.delta),
        }
    }
}

impl MetricElement {
    /// A metric named "metric", with no change.
    pub fn new(id: ElementId, label: &str, value: &str) -> (r: MetricElement)
        ensures
            r@ == (MetricView {
                base: BaseView { id, name: "metric"@, metadata: empty_metadata() },
                label: label@,
                value: value@,
                delta: None,
            }),
    {
        MetricElement {
            base: BaseElement::new(id, "metric"),
            label: label.to_owned(),
            value: value.to_owned(),
            delta: None,
        }
    }

    /// Set the change.
    pub fn set_delta(&mut self, delta: &str)
        ensures
            final(self)@ == (MetricView { delta: Some(delta@), ..old(self)@ }),
    {
        self.delta = Some(delta.to_owned());
    }

    /// The label.
    pub fn label(&self) -> (r: &str)
        ensures
            r@ == self@.label,
    {
        self.label.as_str()
    }

    /// The value.
    pub fn value(&self) -> (r: &str)
        ensures
            r@ == self@.value,
    {
        self.value.as_str()
    }

    /// The change, if any.
    pub fn delta(&self) -> (r: Option<&str>)
        ensures
            match r {
                Some(s) => self@.delta == Some(s@),
                None => self@.delta.is_none(),
            },
    {
        match &self.delta {
            Some(d) => Some(d.as_str()),
            None => None,
        }
    }
}

impl Renderable for MetricElement {
    closed spec fn spec_id(&self) -> ElementId {
        self.base@.id
    }

    fn id(&self) -> (r: ElementId) {
        self.base.id()
    }

    fn name(&self) -> &str {
        self.base.name()
    }
}

} // verus!
