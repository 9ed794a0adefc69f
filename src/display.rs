//! Display elements: text, headings and images.
use vstd::prelude::*;
use crate::base::{BaseElement, BaseView, ElementMetadata, MetadataView, empty_metadata};
use crate::element::ElementId;
use crate::error::Error;
use crate::text::joined;
use crate::traits::{Cacheable, Renderable, Styleable, Validatable};

verus! {

/// What a text element holds.
pub struct TextView {
    pub base: BaseView,
    pub content: Seq<char>,
}

/// A paragraph of text.
pub struct TextElement {
    base: BaseElement,
    content: String,
}

impl View for TextElement {
    type V = TextView;

    closed spec fn view(&self) -> TextView {
        TextView { base: self.base@, content: self.content@ }
    }
}

impl TextElement {
    /// A text element named "text".
    pub fn new(id: ElementId, content: &str) -> (r: TextElement)
        ensures
            r@ == (TextView {
                base: BaseView { id, name: "text"@, metadata: empty_metadata() },
                content: content@,
            }),
    {
        TextElement { base: BaseElement::new(id, "text"), content: content.to_owned() }
    }

    /// The text.
    pub fn content(&self) -> (r: &str)
        ensures
            r@ == self@.content,
    {
        self.content.as_str()
    }

    /// Replace the text.
    pub fn set_content(&mut self, content: &str)
        ensures
            final(self)@ == (TextView { content: content@, ..old(self)@ }),
    {
        self.content = content.to_owned();
    }

    /// Add a CSS class.
    pub fn add_class(&mut self, class: &str)
        ensures
            final(self)@.content == old(self)@.content,
            final(self)@.base == (BaseView {
                metadata: MetadataView {
                    css_classes: old(self)@.base.metadata.css_classes.push(class@),
                    ..old(self)@.base.metadata
                },
                ..old(self)@.base
            }),
    {
        self.base.add_class(class);
    }

    /// Add an inline style.
    pub fn add_style(&mut self, property: &str, value: &str)
        ensures
            final(self)@.content == old(self)@.content,
            final(self)@.base == (BaseView {
                metadata: MetadataView {
                    inline_styles: old(self)@.base.metadata.inline_styles.push((property@, value@)),
                    ..old(self)@.base.metadata
                },
                ..old(self)@.base
            }),
    {
        self.base.add_style(property, value);
    }

    /// Set the ARIA label.
    pub fn set_aria_label(&mut self, label: &str)
        ensures
            final(self)@.content == old(self)@.content,
            final(self)@.base == (BaseView {
                metadata: MetadataView { aria_label: Some(label@), ..old(self)@.base.metadata },
                ..old(self)@.base
            }),
    {
        self.base.set_aria_label(label);
    }

    /// Set the ARIA role.
    pub fn set_aria_role(&mut self, role: &str)
        ensures
            final(self)@.content == old(self)@.content,
            final(self)@.base == (BaseView {
                metadata: MetadataView { aria_role: Some(role@), ..old(self)@.base.metadata },
                ..old(self)@.base
            }),
    {
        self.base.set_aria_role(role);
    }

    /// The metadata.
    pub fn metadata(&self) -> (r: &ElementMetadata)
        ensures
            r@ == self@.base.metadata,
    {
        self.base.metadata()
    }
}

impl Renderable for TextElement {
    closed spec fn spec_id(&self) -> ElementId {
        self.base@.id
    }

    fn id(&self) -> (r: ElementId) {
        self.base.id()
    }

    fn name(&self) -> &str {
        self.base.name()
    }
}

impl Validatable for TextElement {
    closed spec fn spec_valid(&self) -> bool {
        self.content@.len() > 0
    }

    fn validate(&self) -> (r: Result<(), Error>) {
        if self.content.as_str().is_empty() {
            return Err(Error::state("Text content cannot be empty"));
        }
        Ok(())
    }
}

impl Styleable for TextElement {
    fn css_classes(&self) -> Vec<&str> {
        self.base.css_classes()
    }

    fn inline_styles(&self) -> Vec<(&str, &str)> {
        self.base.inline_styles()
    }
}

impl Cacheable for TextElement {
    fn cache_key(&self) -> String {
        let id = self.base.id();
        joined("text_", id_text(id).as_str())
    }

    fn is_cache_valid(&self) -> bool {
        true
    }

    fn invalidate_cache(&mut self) {
    }
}

/// The decimal text of a number.
pub open spec fn decimal(n: nat) -> Seq<char>
    decreases n,
{
    if n < 10 {
        seq![digit(n)]
    } else {
        decimal(n / 10).push(digit(n % 10))
    }
}

/// The character of a decimal digit.
pub open spec fn digit(d: nat) -> char {
    if d == 0 {
        '0'
    } else if d == 1 {
        '1'
    } else if d == 2 {
        '2'
    } else if d == 3 {
        '3'
    } else if d == 4 {
        '4'
    } else if d == 5 {
        '5'
    } else if d == 6 {
        '6'
    } else if d == 7 {
        '7'
    } else if d == 8 {
        '8'
    } else {
        '9'
    }
}

fn digit_str(d: u64) -> (r: &'static str)
    requires
        d < 10,
    ensures
        r@ == seq![digit(d as nat)],
{
    proof {
        reveal_strlit("0");
        reveal_strlit("1");
        reveal_strlit("2");
        reveal_strlit("3");
        reveal_strlit("4");
        reveal_strlit("5");
        reveal_strlit("6");
        reveal_strlit("7");
        reveal_strlit("8");
        reveal_strlit("9");
    }
    if d == 0 {
        "0"
    } else if d == 1 {
        "1"
    } else if d == 2 {
        "2"
    } else if d == 3 {
        "3"
    } else if d == 4 {
        "4"
    } else if d == 5 {
        "5"
    } else if d == 6 {
        "6"
    } else if d == 7 {
        "7"
    } else if d == 8 {
        "8"
    } else {
        "9"
    }
}

/// The decimal text of a number.
pub fn decimal_text(n: u64) -> (r: String)
    ensures
        r@ == decimal(n as nat),
    decreases n,
{
    if n < 10 {
        digit_str(n).to_owned()
    } else {
        let mut s = decimal_text(n / 10);
        s.append(digit_str(n % 10));
        s
    }
}

/// The decimal text of an element id.
pub fn id_text(id: ElementId) -> (r: String)
    ensures
        r@ == decimal(id@ as nat),
{
    decimal_text(id.0)
}

/// What a heading element holds.
pub struct HeadingView {
    pub base: BaseView,
    pub content: Seq<char>,
    pub level: u32,
}

/// A heading of level 1 to 6.
pub struct HeadingElement {
    base: BaseElement,
    content: String,
    level: u32,
}

impl View for HeadingElement {
    type V = HeadingView;

    closed spec fn view(&self) -> HeadingView {
        HeadingView { base: self.base@, content: self.content@, level: self.level }
    }
}

impl HeadingElement {
    /// A heading named "heading_" and its level; a level outside 1 to 6 is
    /// refused.
    pub fn new(id: ElementId, content: &str, level: u32) -> (r: Result<HeadingElement, Error>)
        ensures
            r.is_ok() == (1 <= level <= 6),
            r.is_ok() ==> r.unwrap()@ == (HeadingView {
                base: BaseView {
                    id,
                    name: "heading_"@ + decimal(level as nat),
                    metadata: empty_metadata(),
                },
                content: content@,
                level,
            }),
            !r.is_ok() ==> r matches Err(Error::StateError(_)),
    {
        if level < 1 || level > 6 {
            return Err(Error::state("Heading level must be between 1 and 6"));
        }
        let name = joined("heading_", decimal_text(level as u64).as_str());
        Ok(HeadingElement { base: BaseElement::new(id, name.as_str()), content: content.to_owned(), level })
    }

    /// The level.
    pub fn level(&self) -> (r: u32)
        ensures
            r == self@.level,
    {
        self.level
    }

    /// The text.
    pub fn content(&self) -> (r: &str)
        ensures
            r@ == self@.content,
    {
        self.content.as_str()
    }
}

impl Renderable for HeadingElement {
    closed spec fn spec_id(&self) -> ElementId {
        self.base@.id
    }

    fn id(&self) -> (r: ElementId) {
        self.base.id()
    }

    fn name(&self) -> &str {
        self.base.name()
    }
}

impl Validatable for HeadingElement {
    closed spec fn spec_valid(&self) -> bool {
        self.content@.len() > 0 && 1 <= self.level <= 6
    }

    fn validate(&self) -> (r: Result<(), Error>) {
        if self.content.as_str().is_empty() {
            return Err(Error::state("Heading content cannot be empty"));
        }
        if self.level < 1 || self.level > 6 {
            return Err(Error::state("Heading level must be between 1 and 6"));
        }
        Ok(())
    }
}

impl Styleable for HeadingElement {
    fn css_classes(&self) -> Vec<&str> {
        self.base.css_classes()
    }

    fn inline_styles(&self) -> Vec<(&str, &str)> {
        self.base.inline_styles()
    }

    fn theme_variant(&self) -> Option<&str> {
        Some("heading")
    }
}

/// What an image element holds.
pub struct ImageView {
    pub base: BaseView,
    pub src: Seq<char>,
    pub alt: Seq<char>,
    pub width: Option<u32>,
    pub height: Option<u32>,
}

/// An image with its alternative text.
pub struct ImageElement {
    base: BaseElement,
    src: String,
    alt: String,
    width: Option<u32>,
    height: Option<u32>,
}

impl View for ImageElement {
    type V = ImageView;

    closed spec fn view(&self) -> ImageView {
        ImageView {
            base: self.base@,
            src: self.src@,
            alt: self.alt@,
            width: self.width,
            height: self.height,
        }
    }
}

impl ImageElement {
    /// An image named "image", with no size set.
    pub fn new(id: ElementId, src: &str, alt: &str) -> (r: ImageElement)
        ensures
            r@ == (ImageView {
                base: BaseView { id, name: "image"@, metadata: empty_metadata() },
                src: src@,
                alt: alt@,
                width: None,
                height: None,
            }),
    {
        ImageElement {
            base: BaseElement::new(id, "image"),
            src: src.to_owned(),
            alt: alt.to_owned(),
            width: None,
            height: None,
        }
    }

    /// Set the width.
    pub fn set_width(&mut self, width: u32)
        ensures
            final(self)@ == (ImageView { width: Some(width), ..old(self)@ }),
    {
        self.width = Some(width);
    }

    /// Set the height.
    pub fn set_height(&mut self, height: u32)
        ensures
            final(self)@ == (ImageView { height: Some(height), ..old(self)@ }),
    {
        self.height = Some(height);
    }

    /// The source.
    pub fn src(&self) -> (r: &str)
        ensures
            r@ == self@.src,
    {
        self.src.as_str()
    }

    /// The alternative text.
    pub fn alt(&self) -> (r: &str)
        ensures
            r@ == self@.alt,
    {
        self.alt.as_str()
    }
}

impl Renderable for ImageElement {
    closed spec fn spec_id(&self) -> ElementId {
        self.base@.id
    }

    fn id(&self) -> (r: ElementId) {
        self.base.id()
    }

    fn name(&self) -> &str {
        self.base.name()
    }
}

impl Validatable for ImageElement {
    closed spec fn spec_valid(&self) -> bool {
        self.src@.len() > 0 && self.alt@.len() > 0
    }

    fn validate(&self) -> (r: Result<(), Error>) {
        if self.src.as_str().is_empty() {
            return Err(Error::state("Image source cannot be empty"));
        }
        if self.alt.as_str().is_empty() {
            return Err(Error::state("Image alt text cannot be empty"));
        }
        Ok(())
    }
}

impl Styleable for ImageElement {
    fn css_classes(&self) -> Vec<&str> {
        self.base.css_classes()
    }

    fn inline_styles(&self) -> Vec<(&str, &str)> {
        self.base.inline_styles()
    }
}

impl Cacheable for ImageElement {
    fn cache_key(&self) -> String {
        joined("image_", self.src.as_str())
    }

    fn is_cache_valid(&self) -> bool {
        true
    }

    fn invalidate_cache(&mut self) {
    }
}

} // verus!
