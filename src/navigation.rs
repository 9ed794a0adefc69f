//! Pages of a multi-page app and navigation between them.
use vstd::prelude::*;
use crate::element::{clone_opt_string, opt_view};
use crate::keyed::KeyedList;

verus! {

/// A page of a multi-page app.
#[derive(Debug)]
pub struct Page {
    /// The page's name, which identifies it.
    pub name: String,
    /// The title shown for it.
    pub title: String,
    /// An icon, if any.
    pub icon: Option<String>,
    /// A description, if any.
    pub description: Option<String>,
}

impl Clone for Page {
    fn clone(&self) -> (r: Self)
        ensures
            r == *self,
    {
        Page {
            name: self.name.clone(),
            title: self.title.clone(),
            icon: clone_opt_string(&self.icon),
            description: clone_opt_string(&self.description),
        }
    }
}

impl Page {
    /// A page with no icon and no description.
    pub fn new(name: &str, title: &str) -> (r: Page)
        ensures
            r.name@ == name@,
            r.title@ == title@,
            r.icon.is_none(),
            r.description.is_none(),
    {
        Page { name: name.to_owned(), title: title.to_owned(), icon: None, description: None }
    }

    /// The page with this icon.
    pub fn with_icon(self, icon: &str) -> (r: Page)
        ensures
            r == (Page { icon: r.icon, ..self }),
            opt_view(r.icon) == Some(icon@),
    {
        let mut p = self;
        p.icon = Some(icon.to_owned());
        p
    }

    /// The page with this description.
    pub fn with_description(self, description: &str) -> (r: Page)
        ensures
            r == (Page { description: r.description, ..self }),
            opt_view(r.description) == Some(description@),
    {
        let mut p = self;
        p.description = Some(description.to_owned());
        p
    }
}

/// The pages of an app, by name, and the one being shown.
pub struct Navigation {
    pages: KeyedList<Page>,
    current_page: String,
}

/// What navigation holds.
pub struct NavigationView {
    /// The pages by name.
    pub pages: Map<Seq<char>, Page>,
    /// The names in the order the pages were first added.
    pub order: Seq<Seq<char>>,
    /// The name of the current page; empty before any page is added.
    pub current: Seq<char>,
}

impl View for Navigation {
    type V = NavigationView;

    closed spec fn view(&self) -> NavigationView {
        NavigationView {
            pages: self.pages@,
            order: self.pages.key_order(),
            current: self.current_page@,
        }
    }
}

/// The page under a name, if any.
pub open spec fn page_at(pages: Map<Seq<char>, Page>, name: Seq<char>) -> Option<Page> {
    if pages.contains_key(name) {
        Some(pages[name])
    } else {
        None
    }
}

impl Navigation {
    /// No pages.
    pub fn new() -> (r: Navigation)
        ensures
            r@.pages == Map::<Seq<char>, Page>::empty(),
            r@.order == Seq::<Seq<char>>::empty(),
            r@.current == Seq::<char>::empty(),
    {
        Navigation { pages: KeyedList::new(), current_page: String::new() }
    }

    /// Add a page, replacing one of the same name; the first page added
    /// becomes the current one.
    pub fn add_page(&mut self, page: Page)
        ensures
            final(self)@.pages == old(self)@.pages.insert(page.name@, page),
            final(self)@.current == if old(self)@.current.len() == 0 {
                page.name@
            } else {
                old(self)@.current
            },
            old(self)@.pages.contains_key(page.name@) ==> final(self)@.order == old(self)@.order,
            !old(self)@.pages.contains_key(page.name@) ==> final(self)@.order == old(self)@.order.push(
                page.name@,
            ),
            final(self)@.pages.len() == if old(self)@.pages.contains_key(page.name@) {
                old(self)@.pages.len()
            } else {
                old(self)@.pages.len() + 1
            },
    {
        if self.current_page.as_str().is_empty() {
            self.current_page = page.name.clone();
        }
        let name = page.name.clone();
        self.pages.insert(name, page);
    }

    /// Every page, in the order they were first added.
    pub fn pages(&self) -> (r: Vec<Page>)
        ensures
            r@.len() == self@.order.len(),
            forall|i: int| 0 <= i < r@.len() ==> #[trigger] r@[i] == self@.pages[self@.order[i]],
    {
        let n = self.pages.len();
        let mut r: Vec<Page> = Vec::new();
        let mut i: usize = 0;
        while i < n
            invariant
                i <= n,
                n == self.pages@.len(),
                self.pages.key_order().len() == n,
                r@.len() == i,
                forall|j: int| 0 <= j < i ==> #[trigger] r@[j] == self.pages@[self.pages.key_order()[j]],
            decreases n - i,
        {
            let (_, p) = self.pages.entry_at(i);
            r.push(p.clone());
            i = i + 1;
        }
        r
    }

    /// The current page, if there is one.
    pub fn current_page(&self) -> (r: Option<Page>)
        ensures
            r == page_at(self@.pages, self@.current),
    {
        match self.pages.get(self.current_page.as_str()) {
            Some(p) => Some(p.clone()),
            None => None,
        }
    }

    /// Make a page current; an unknown name is refused and nothing changes.
    pub fn navigate_to(&mut self, page_name: &str) -> (r: bool)
        ensures
            r == old(self)@.pages.contains_key(page_name@),
            r ==> final(self)@ == (NavigationView { current: page_name@, ..old(self)@ }),
            !r ==> final(self)@ == old(self)@,
    {
        if self.pages.contains_key(page_name) {
            self.current_page = page_name.to_owned();
            true
        } else {
            false
        }
    }

    /// The page with this name, if any.
    pub fn get_page(&self, name: &str) -> (r: Option<Page>)
        ensures
            r == page_at(self@.pages, name@),
    {
        match self.pages.get(name) {
            Some(p) => Some(p.clone()),
            None => None,
        }
    }

    /// The number of pages.
    pub fn page_count(&self) -> (r: usize)
        ensures
            r == self@.pages.len(),
    {
        self.pages.len()
    }
}

/// A link to a page.
#[derive(Debug)]
pub struct PageLink {
    pub label: String,
    pub page: String,
    pub icon: Option<String>,
}

impl PageLink {
    /// A link with no icon.
    pub fn new(label: &str, page: &str) -> (r: PageLink)
        ensures
            r.label@ == label@,
            r.page@ == page@,
            r.icon.is_none(),
    {
        PageLink { label: label.to_owned(), page: page.to_owned(), icon: None }
    }

    /// The link with this icon.
    pub fn with_icon(self, icon: &str) -> (r: PageLink)
        ensures
            r.label == self.label,
            r.page == self.page,
            opt_view(r.icon) == Some(icon@),
    {
        let mut l = self;
        l.icon = Some(icon.to_owned());
        l
    }
}

/// An app of several pages, each with its content.
pub struct MultiPageApp {
    navigation: Navigation,
    pages: KeyedList<String>,
}

impl MultiPageApp {
    /// The navigation.
    pub closed spec fn spec_navigation(&self) -> NavigationView {
        self.navigation@
    }

    /// The content of each page, by name.
    pub closed spec fn spec_contents(&self) -> Map<Seq<char>, String> {
        self.pages@
    }

    /// An app with no pages.
    pub fn new() -> (r: MultiPageApp)
        ensures
            r.spec_navigation().pages == Map::<Seq<char>, Page>::empty(),
            r.spec_navigation().current == Seq::<char>::empty(),
            r.spec_contents() == Map::<Seq<char>, String>::empty(),
    {
        MultiPageApp { navigation: Navigation::new(), pages: KeyedList::new() }
    }

    /// Add a page with its content.
    pub fn add_page(&mut self, page: Page, content: String)
        ensures
            final(self).spec_navigation().pages == old(self).spec_navigation().pages.insert(page.name@, page),
            final(self).spec_navigation().current == if old(self).spec_navigation().current.len() == 0 {
                page.name@
            } else {
                old(self).spec_navigation().current
            },
            final(self).spec_contents() == old(self).spec_contents().insert(page.name@, content),
    {
        let name = page.name.clone();
        self.navigation.add_page(page);
        self.pages.insert(name, content);
    }

    /// The navigation.
    pub fn navigation(&self) -> (r: &Navigation)
        ensures
            r@ == self.spec_navigation(),
    {
        &self.navigation
    }

    /// The navigation, to change in place.
    pub fn navigation_mut(&mut self) -> (r: &mut Navigation)
        ensures
            r@ == old(self).spec_navigation(),
            final(self).spec_navigation() == final(r)@,
            final(self).spec_contents() == old(self).spec_contents(),
    {
        &mut self.navigation
    }

    /// The content of a page, if any.
    pub fn get_page_content(&self, page_name: &str) -> (r: Option<String>)
        ensures
            r.is_some() == self.spec_contents().contains_key(page_name@),
            r.is_some() ==> r.unwrap() == self.spec_contents()[page_name@],
    {
        match self.pages.get(page_name) {
            Some(c) => Some(c.clone()),
            None => None,
        }
    }

    /// The content of the current page, if there is one.
    pub fn current_page_content(&self) -> (r: Option<String>)
        ensures
            r.is_some() == (self.spec_navigation().pages.contains_key(self.spec_navigation().current)
                && self.spec_contents().contains_key(
                self.spec_navigation().pages[self.spec_navigation().current].name@,
            )),
            r.is_some() ==> r.unwrap() == self.spec_contents()[self.spec_navigation().pages[self.spec_navigation().current].name@],
    {
        let current = self.navigation.current_page();
        match current {
            Some(p) => self.get_page_content(p.name.as_str()),
            None => None,
        }
    }

    /// Make a page current; an unknown name is refused.
    pub fn navigate(&mut self, page_name: &str) -> (r: bool)
        ensures
            r == old(self).spec_navigation().pages.contains_key(page_name@),
            r ==> final(self).spec_navigation() == (NavigationView {
                current: page_name@,
                ..old(self).spec_navigation()
            }),
            !r ==> final(self).spec_navigation() == old(self).spec_navigation(),
            final(self).spec_contents() == old(self).spec_contents(),
    {
        self.navigation.navigate_to(page_name)
    }
}

impl Default for Navigation {
    fn default() -> (r: Navigation)
        ensures
            r@.pages == Map::<Seq<char>, Page>::empty(),
            r@.current == Seq::<char>::empty(),
    {
        Navigation::new()
    }
}

impl Default for MultiPageApp {
    fn default() -> (r: MultiPageApp)
        ensures
            r.spec_navigation().pages == Map::<Seq<char>, Page>::empty(),
            r.spec_contents() == Map::<Seq<char>, String>::empty(),
    {
        MultiPageApp::new()
    }
}

} // verus!
