//! Themes and elements that switch between them.
use vstd::prelude::*;
use crate::base::{BaseElement, BaseView, empty_metadata};
use crate::element::{ElementId, strings_view};
use crate::error::Error;
use crate::keyed::KeyedList;
use crate::text::{joined, str_eq};
use crate::traits::{Renderable, Themeable};

verus! {

/// A named set of colors, fonts and spacings.
pub struct Theme {
    pub name: String,
    pub colors: KeyedList<String>,
    pub fonts: KeyedList<String>,
    pub spacing: KeyedList<String>,
}

impl Theme {
    /// A theme with nothing set.
    pub fn new(name: &str) -> (r: Theme)
        ensures
            r.name@ == name@,
            r.colors@ == Map::<Seq<char>, String>::empty(),
            r.fonts@ == Map::<Seq<char>, String>::empty(),
            r.spacing@ == Map::<Seq<char>, String>::empty(),
    {
        Theme {
            name: name.to_owned(),
            colors: KeyedList::new(),
            fonts: KeyedList::new(),
            spacing: KeyedList::new(),
        }
    }

    /// Set a color, replacing an earlier one of the same key.
    pub fn add_color(&mut self, key: &str, value: &str)
        ensures
            final(self).name == old(self).name,
            final(self).fonts@ == old(self).fonts@,
            final(self).spacing@ == old(self).spacing@,
            final(self).colors@.contains_key(key@),
            final(self).colors@[key@]@ == value@,
            forall|k: Seq<char>| k != key@ ==> (#[trigger] final(self).colors@.contains_key(k)
                == old(self).colors@.contains_key(k)) && (old(self).colors@.contains_key(k)
                ==> final(self).colors@[k] == old(self).colors@[k]),
    {
        self.colors.insert(key.to_owned(), value.to_owned());
    }

    /// Set a font, replacing an earlier one of the same key.
    pub fn add_font(&mut self, key: &str, value: &str)
        ensures
            final(self).name == old(self).name,
            final(self).colors@ == old(self).colors@,
            final(self).spacing@ == old(self).spacing@,
            final(self).fonts@.contains_key(key@),
            final(self).fonts@[key@]@ == value@,
            forall|k: Seq<char>| k != key@ ==> (#[trigger] final(self).fonts@.contains_key(k)
                == old(self).fonts@.contains_key(k)) && (old(self).fonts@.contains_key(k)
                ==> final(self).fonts@[k] == old(self).fonts@[k]),
    {
        self.fonts.insert(key.to_owned(), value.to_owned());
    }

    /// Set a spacing, replacing an earlier one of the same key.
    pub fn add_spacing(&mut self, key: &str, value: &str)
        ensures
            final(self).name == old(self).name,
            final(self).colors@ == old(self).colors@,
            final(self).fonts@ == old(self).fonts@,
            final(self).spacing@.contains_key(key@),
            final(self).spacing@[key@]@ == value@,
            forall|k: Seq<char>| k != key@ ==> (#[trigger] final(self).spacing@.contains_key(k)
                == old(self).spacing@.contains_key(k)) && (old(self).spacing@.contains_key(k)
                ==> final(self).spacing@[k] == old(self).spacing@[k]),
    {
        self.spacing.insert(key.to_owned(), value.to_owned());
    }
}

/// Whether a theme name is among the given ones.
fn known_theme(themes: &Vec<String>, theme: &str) -> (r: bool)
    ensures
        r == strings_view(themes@).contains(theme@),
{
    let mut i: usize = 0;
    while i < themes.len()
        invariant
            i <= themes@.len(),
            forall|j: int| 0 <= j < i ==> (#[trigger] themes@[j])@ != theme@,
        decreases themes@.len() - i,
    {
        if str_eq(themes[i].as_str(), theme) {
            assert(strings_view(themes@)[i as int] == theme@);
            return true;
        }
        i = i + 1;
    }
    assert(!strings_view(themes@).contains(theme@)) by {
        if strings_view(themes@).contains(theme@) {
            let j = choose|j: int| 0 <= j < themes@.len() && strings_view(themes@)[j] == theme@;
            assert(themes@[j]@ == theme@);
        }
    }
    false
}

/// Borrowed views of owned strings.
fn borrowed(v: &Vec<String>) -> (r: Vec<&str>)
    ensures
        r@.map_values(|s: &str| s@) == strings_view(v@),
{
    let mut r: Vec<&str> = Vec::new();
    let mut i: usize = 0;
    while i < v.len()
        invariant
            i <= v@.len(),
            r@.len() == i,
            forall|j: int| 0 <= j < i ==> (#[trigger] r@[j])@ == v@[j]@,
        decreases v@.len() - i,
    {
        r.push(v[i].as_str());
        i = i + 1;
    }
    assert(r@.map_values(|s: &str| s@) =~= strings_view(v@));
    r
}

/// A button that follows a light or dark theme.
pub struct ThemedButtonElement {
    base: BaseElement,
    label: String,
    theme: String,
    available_themes: Vec<String>,
    current_theme: Theme,
}

impl ThemedButtonElement {
    /// The element's base.
    pub closed spec fn spec_base(&self) -> BaseView {
        self.base@
    }

    /// The label.
    pub closed spec fn spec_label(&self) -> Seq<char> {
        self.label@
    }

    /// The colors of the current theme.
    pub closed spec fn spec_colors(&self) -> Map<Seq<char>, String> {
        self.current_theme.colors@
    }

    /// A button named "themed_button" in the light theme, which can switch
    /// to dark.
    pub fn new(id: ElementId, label: &str) -> (r: ThemedButtonElement)
        ensures
            r.spec_base() == (BaseView { id, name: "themed_button"@, metadata: empty_metadata() }),
            r.spec_label() == label@,
            r.spec_theme() == "light"@,
            r.spec_themes() == seq!["light"@, "dark"@],
            r.spec_colors().contains_key("primary"@),
            r.spec_colors()["primary"@]@ == "#0066CC"@,
            r.spec_colors().contains_key("text"@),
            r.spec_colors()["text"@]@ == "#000000"@,
    {
        proof {
            reveal_strlit("primary");
            reveal_strlit("text");
            assert("primary"@.len() != "text"@.len());
        }
        let mut default_theme = Theme::new("light");
        default_theme.add_color("primary", "#0066CC");
        default_theme.add_color("text", "#000000");
        default_theme.add_spacing("padding", "8px 16px");
        let mut themes: Vec<String> = Vec::new();
        themes.push("light".to_owned());
        themes.push("dark".to_owned());
        let r = ThemedButtonElement {
            base: BaseElement::new(id, "themed_button"),
            label: label.to_owned(),
            theme: "light".to_owned(),
            available_themes: themes,
            current_theme: default_theme,
        };
        assert(r.spec_themes() =~= seq!["light"@, "dark"@]);
        r
    }

    /// The label.
    pub fn label(&self) -> (r: &str)
        ensures
            r@ == self.spec_label(),
    {
        self.label.as_str()
    }

    /// The colors of the current theme.
    pub fn theme_colors(&self) -> (r: &KeyedList<String>)
        ensures
            r@ == self.spec_colors(),
    {
        &self.current_theme.colors
    }
}

impl Renderable for ThemedButtonElement {
    closed spec fn spec_id(&self) -> ElementId {
        self.base@.id
    }

    fn id(&self) -> (r: ElementId) {
        self.base.id()
    }

    fn name(&self) -> &str {
        self.base.name()
    }
}

impl Themeable for ThemedButtonElement {
    closed spec fn spec_theme(&self) -> Seq<char> {
        self.theme@
    }

    closed spec fn spec_themes(&self) -> Seq<Seq<char>> {
        strings_view(self.available_themes@)
    }

    fn current_theme(&self) -> (r: &str) {
        self.theme.as_str()
    }

    fn set_theme(&mut self, theme: &str) -> (r: Result<(), Error>) {
        if !known_theme(&self.available_themes, theme) {
            return Err(Error::state("Theme not available"));
        }
        self.theme = theme.to_owned();
        if str_eq(theme, "dark") {
            self.current_theme.add_color("primary", "#3399FF");
            self.current_theme.add_color("text", "#FFFFFF");
        } else if str_eq(theme, "light") {
            self.current_theme.add_color("primary", "#0066CC");
            self.current_theme.add_color("text", "#000000");
        }
        Ok(())
    }

    fn available_themes(&self) -> (r: Vec<&str>) {
        borrowed(&self.available_themes)
    }
}

/// A text that follows a light, dark or high-contrast theme.
pub struct ThemedTextElement {
    base: BaseElement,
    content: String,
    theme: String,
    available_themes: Vec<String>,
}

impl ThemedTextElement {
    /// The element's base.
    pub closed spec fn spec_base(&self) -> BaseView {
        self.base@
    }

    /// The text.
    pub closed spec fn spec_content(&self) -> Seq<char> {
        self.content@
    }

    /// A text named "themed_text" in the light theme, which can switch to
    /// dark or high-contrast.
    pub fn new(id: ElementId, content: &str) -> (r: ThemedTextElement)
        ensures
            r.spec_base() == (BaseView { id, name: "themed_text"@, metadata: empty_metadata() }),
            r.spec_content() == content@,
            r.spec_theme() == "light"@,
            r.spec_themes() == seq!["light"@, "dark"@, "high-contrast"@],
    {
        let mut themes: Vec<String> = Vec::new();
        themes.push("light".to_owned());
        themes.push("dark".to_owned());
        themes.push("high-contrast".to_owned());
        let r = ThemedTextElement {
            base: BaseElement::new(id, "themed_text"),
            content: content.to_owned(),
            theme: "light".to_owned(),
            available_themes: themes,
        };
        assert(r.spec_themes() =~= seq!["light"@, "dark"@, "high-contrast"@]);
        r
    }

    /// The text.
    pub fn content(&self) -> (r: &str)
        ensures
            r@ == self.spec_content(),
    {
        self.content.as_str()
    }

    /// The CSS class of the current theme: "theme-" and its name.
    pub fn theme_css_class(&self) -> (r: String)
        ensures
            r@ == "theme-"@ + self.spec_theme(),
    {
        joined("theme-", self.theme.as_str())
    }
}

impl Renderable for ThemedTextElement {
    closed spec fn spec_id(&self) -> ElementId {
        self.base@.id
    }

    fn id(&self) -> (r: ElementId) {
        self.base.id()
    }

    fn name(&self) -> &str {
        self.base.name()
    }
}

impl Themeable for ThemedTextElement {
    closed spec fn spec_theme(&self) -> Seq<char> {
        self.theme@
    }

    closed spec fn spec_themes(&self) -> Seq<Seq<char>> {
        strings_view(self.available_themes@)
    }

    fn current_theme(&self) -> (r: &str) {
        self.theme.as_str()
    }

    fn set_theme(&mut self, theme: &str) -> (r: Result<(), Error>) {
        if !known_theme(&self.available_themes, theme) {
            return Err(Error::state("Theme not available"));
        }
        self.theme = theme.to_owned();
        Ok(())
    }

    fn available_themes(&self) -> (r: Vec<&str>) {
        borrowed(&self.available_themes)
    }
}

} // verus!
