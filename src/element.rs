//! Element identifiers and the closed set of element kinds.
use vstd::prelude::*;

verus! {

/// Identifier of an element within one run context.
#[derive(Debug, Clone, Copy, PartialEq, Eq, Hash, Structural)]
pub struct ElementId(pub u64);

impl View for ElementId {
    type V = u64;

    open spec fn view(&self) -> u64 {
        self.0
    }
}

impl ElementId {
    /// Create an element id from its numeric value.
    pub fn new(id: u64) -> (r: ElementId)
        ensures
            r@ == id,
    {
        ElementId(id)
    }

    /// The numeric value of the id.
    pub fn inner(self) -> (r: u64)
        ensures
            r == self@,
    {
        self.0
    }

    /// Two ids are the same exactly when their numeric values are.
    pub proof fn lemma_view_injective(a: ElementId, b: ElementId)
        ensures
            (a@ == b@) == (a == b),
    {
    }
}

/// Copies a vector of strings.
pub fn clone_strings(v: &Vec<String>) -> (r: Vec<String>)
    ensures
        r@ == v@,
{
    let mut r: Vec<String> = Vec::new();
    let mut i: usize = 0;
    while i < v.len()
        invariant
            i <= v.len(),
            r@ == v@.subrange(0, i as int),
        decreases v.len() - i,
    {
        r.push(v[i].clone());
        i = i + 1;
    }
    assert(r@ =~= v@);
    r
}

/// Copies a vector of element ids.
pub fn clone_ids(v: &Vec<ElementId>) -> (r: Vec<ElementId>)
    ensures
        r@ == v@,
{
    let mut r: Vec<ElementId> = Vec::new();
    let mut i: usize = 0;
    while i < v.len()
        invariant
            i <= v.len(),
            r@ == v@.subrange(0, i as int),
        decreases v.len() - i,
    {
        r.push(v[i]);
        i = i + 1;
    }
    assert(r@ =~= v@);
    r
}

/// Copies an optional string.
pub fn clone_opt_string(o: &Option<String>) -> (r: Option<String>)
    ensures
        r == *o,
{
    match o {
        Some(s) => Some(s.clone()),
        None => None,
    }
}

/// Copies a table body.
pub fn clone_rows(rows: &Vec<Vec<String>>) -> (r: Vec<Vec<String>>)
    ensures
        rows_view(r@) == rows_view(rows@),
{
    let mut r: Vec<Vec<String>> = Vec::new();
    let mut i: usize = 0;
    while i < rows.len()
        invariant
            i <= rows.len(),
            r@.len() == i,
            forall|j: int| 0 <= j < i ==> #[trigger] r@[j]@ == rows@[j]@,
        decreases rows.len() - i,
    {
        r.push(clone_strings(&rows[i]));
        i = i + 1;
    }
    assert(rows_view(r@) =~= rows_view(rows@));
    r
}

/// Copies the labelled children lists of a tab group.
pub fn clone_tabs(tabs: &Vec<(String, Vec<ElementId>)>) -> (r: Vec<(String, Vec<ElementId>)>)
    ensures
        tabs_view(r@) == tabs_view(tabs@),
{
    let mut r: Vec<(String, Vec<ElementId>)> = Vec::new();
    let mut i: usize = 0;
    while i < tabs.len()
        invariant
            i <= tabs.len(),
            r@.len() == i,
            forall|j: int| 0 <= j < i ==> (#[trigger] r@[j]).0 == tabs@[j].0 && r@[j].1@ == tabs@[j].1@,
        decreases tabs.len() - i,
    {
        let t = &tabs[i];
        r.push((t.0.clone(), clone_ids(&t.1)));
        i = i + 1;
    }
    assert(tabs_view(r@) =~= tabs_view(tabs@));
    r
}

/// The closed set of element kinds, each with the data needed to render it.
///
/// Numbers are whole numbers; a progress value and a column width are
/// percentages; a JSON payload is carried as its text.
#[derive(Debug, PartialEq)]
pub enum ElementType {
    Text { value: String },
    Markdown { value: String },
    Code { value: String, language: Option<String> },
    Heading { value: String, level: u32 },
    Button { label: String, key: Option<String> },
    TextInput { label: String, value: String, key: Option<String> },
    TextArea { label: String, value: String, key: Option<String> },
    NumberInput { label: String, value: i64, key: Option<String> },
    Slider { label: String, value: i64, min: i64, max: i64, key: Option<String> },
    Checkbox { label: String, value: bool, key: Option<String> },
    Radio { label: String, options: Vec<String>, value: Option<String>, key: Option<String> },
    Selectbox { label: String, options: Vec<String>, value: Option<String>, key: Option<String> },
    Multiselect { label: String, options: Vec<String>, values: Vec<String>, key: Option<String> },
    DateInput { label: String, value: String, key: Option<String> },
    TimeInput { label: String, value: String, key: Option<String> },
    ColorPicker { label: String, value: String, key: Option<String> },
    FileUploader { label: String, key: Option<String> },
    Json { value: String },
    Dataframe { data: String },
    Table { headers: Vec<String>, rows: Vec<Vec<String>> },
    CameraInput { label: String, key: Option<String> },
    Container { children: Vec<ElementId> },
    Column { children: Vec<ElementId>, width: Option<u32> },
    Row { children: Vec<ElementId> },
    Tab { label: String, children: Vec<ElementId> },
    Expander { label: String, expanded: bool, children: Vec<ElementId> },
    Image { src: String, caption: Option<String>, width: Option<u32> },
    Audio { src: String },
    Video { src: String },
    Success { message: String },
    Error { message: String },
    Warning { message: String },
    Info { message: String },
    Progress { value: u32 },
    Tabs { tabs: Vec<(String, Vec<ElementId>)> },
    Sidebar { children: Vec<ElementId> },
    Metric { label: String, value: String, delta: Option<String> },
    LineChart { data: String, title: Option<String> },
    BarChart { data: String, title: Option<String> },
    AreaChart { data: String, title: Option<String> },
    ScatterChart { data: String, title: Option<String> },
    PieChart { data: String, title: Option<String> },
    PlotlyChart { spec: String },
    VegaLiteChart { spec: String },
    BokehChart { spec: String },
    Empty,
    Divider,
}

/// The view of an optional string.
pub open spec fn opt_view(o: Option<String>) -> Option<Seq<char>> {
    match o {
        Some(s) => Some(s@),
        None => None,
    }
}

/// The views of a sequence of strings.
pub open spec fn strings_view(s: Seq<String>) -> Seq<Seq<char>> {
    s.map_values(|x: String| x@)
}

/// The views of the rows of a table.
pub open spec fn rows_view(s: Seq<Vec<String>>) -> Seq<Seq<Seq<char>>> {
    s.map_values(|r: Vec<String>| strings_view(r@))
}

/// The views of the labelled children lists of a tab group.
pub open spec fn tabs_view(s: Seq<(String, Vec<ElementId>)>) -> Seq<(Seq<char>, Seq<ElementId>)> {
    s.map_values(|t: (String, Vec<ElementId>)| (t.0@, t.1@))
}

/// What an element kind holds, with each text and list as a sequence.
pub enum ElementKind {
    Text { value: Seq<char> },
    Markdown { value: Seq<char> },
    Code { value: Seq<char>, language: Option<Seq<char>> },
    Heading { value: Seq<char>, level: u32 },
    Button { label: Seq<char>, key: Option<Seq<char>> },
    TextInput { label: Seq<char>, value: Seq<char>, key: Option<Seq<char>> },
    TextArea { label: Seq<char>, value: Seq<char>, key: Option<Seq<char>> },
    NumberInput { label: Seq<char>, value: i64, key: Option<Seq<char>> },
    Slider { label: Seq<char>, value: i64, min: i64, max: i64, key: Option<Seq<char>> },
    Checkbox { label: Seq<char>, value: bool, key: Option<Seq<char>> },
    Radio { label: Seq<char>, options: Seq<Seq<char>>, value: Option<Seq<char>>, key: Option<Seq<char>> },
    Selectbox { label: Seq<char>, options: Seq<Seq<char>>, value: Option<Seq<char>>, key: Option<Seq<char>> },
    Multiselect { label: Seq<char>, options: Seq<Seq<char>>, values: Seq<Seq<char>>, key: Option<Seq<char>> },
    DateInput { label: Seq<char>, value: Seq<char>, key: Option<Seq<char>> },
    TimeInput { label: Seq<char>, value: Seq<char>, key: Option<Seq<char>> },
    ColorPicker { label: Seq<char>, value: Seq<char>, key: Option<Seq<char>> },
    FileUploader { label: Seq<char>, key: Option<Seq<char>> },
    Json { value: Seq<char> },
    Dataframe { data: Seq<char> },
    Table { headers: Seq<Seq<char>>, rows: Seq<Seq<Seq<char>>> },
    CameraInput { label: Seq<char>, key: Option<Seq<char>> },
    Container { children: Seq<ElementId> },
    Column { children: Seq<ElementId>, width: Option<u32> },
    Row { children: Seq<ElementId> },
    Tab { label: Seq<char>, children: Seq<ElementId> },
    Expander { label: Seq<char>, expanded: bool, children: Seq<ElementId> },
    Image { src: Seq<char>, caption: Option<Seq<char>>, width: Option<u32> },
    Audio { src: Seq<char> },
    Video { src: Seq<char> },
    Success { message: Seq<char> },
    Error { message: Seq<char> },
    Warning { message: Seq<char> },
    Info { message: Seq<char> },
    Progress { value: u32 },
    Tabs { tabs: Seq<(Seq<char>, Seq<ElementId>)> },
    Sidebar { children: Seq<ElementId> },
    Metric { label: Seq<char>, value: Seq<char>, delta: Option<Seq<char>> },
    LineChart { data: Seq<char>, title: Option<Seq<char>> },
    BarChart { data: Seq<char>, title: Option<Seq<char>> },
    AreaChart { data: Seq<char>, title: Option<Seq<char>> },
    ScatterChart { data: Seq<char>, title: Option<Seq<char>> },
    PieChart { data: Seq<char>, title: Option<Seq<char>> },
    PlotlyChart { spec: Seq<char> },
    VegaLiteChart { spec: Seq<char> },
    BokehChart { spec: Seq<char> },
    Empty,
    Divider,
}

impl View for ElementType {
    type V = ElementKind;

    open spec fn view(&self) -> ElementKind {
        match self {
            ElementType::Text { value } => ElementKind::Text { value: value@ },
            ElementType::Markdown { value } => ElementKind::Markdown { value: value@ },
            ElementType::Code { value, language } => ElementKind::Code { value: value@, language: opt_view(*language) },
            ElementType::Heading { value, level } => ElementKind::Heading { value: value@, level: *level },
            ElementType::Button { label, key } => ElementKind::Button { label: label@, key: opt_view(*key) },
            ElementType::TextInput { label, value, key } => ElementKind::TextInput { label: label@, value: value@, key: opt_view(*key) },
            ElementType::TextArea { label, value, key } => ElementKind::TextArea { label: label@, value: value@, key: opt_view(*key) },
            ElementType::NumberInput { label, value, key } => ElementKind::NumberInput { label: label@, value: *value, key: opt_view(*key) },
            ElementType::Slider { label, value, min, max, key } => ElementKind::Slider { label: label@, value: *value, min: *min, max: *max, key: opt_view(*key) },
            ElementType::Checkbox { label, value, key } => ElementKind::Checkbox { label: label@, value: *value, key: opt_view(*key) },
            ElementType::Radio { label, options, value, key } => ElementKind::Radio { label: label@, options: strings_view(options@), value: opt_view(*value), key: opt_view(*key) },
            ElementType::Selectbox { label, options, value, key } => ElementKind::Selectbox { label: label@, options: strings_view(options@), value: opt_view(*value), key: opt_view(*key) },
            ElementType::Multiselect { label, options, values, key } => ElementKind::Multiselect { label: label@, options: strings_view(options@), values: strings_view(values@), key: opt_view(*key) },
            ElementType::DateInput { label, value, key } => ElementKind::DateInput { label: label@, value: value@, key: opt_view(*key) },
            ElementType::TimeInput { label, value, key } => ElementKind::TimeInput { label: label@, value: value@, key: opt_view(*key) },
            ElementType::ColorPicker { label, value, key } => ElementKind::ColorPicker { label: label@, value: value@, key: opt_view(*key) },
            ElementType::FileUploader { label, key } => ElementKind::FileUploader { label: label@, key: opt_view(*key) },
            ElementType::Json { value } => ElementKind::Json { value: value@ },
            ElementType::Dataframe { data } => ElementKind::Dataframe { data: data@ },
            ElementType::Table { headers, rows } => ElementKind::Table { headers: strings_view(headers@), rows: rows_view(rows@) },
            ElementType::CameraInput { label, key } => ElementKind::CameraInput { label: label@, key: opt_view(*key) },
            ElementType::Container { children } => ElementKind::Container { children: children@ },
            ElementType::Column { children, width } => ElementKind::Column { children: children@, width: *width },
            ElementType::Row { children } => ElementKind::Row { children: children@ },
            ElementType::Tab { label, children } => ElementKind::Tab { label: label@, children: children@ },
            ElementType::Expander { label, expanded, children } => ElementKind::Expander { label: label@, expanded: *expanded, children: children@ },
            ElementType::Image { src, caption, width } => ElementKind::Image { src: src@, caption: opt_view(*caption), width: *width },
            ElementType::Audio { src } => ElementKind::Audio { src: src@ },
            ElementType::Video { src } => ElementKind::Video { src: src@ },
            ElementType::Success { message } => ElementKind::Success { message: message@ },
            ElementType::Error { message } => ElementKind::Error { message: message@ },
            ElementType::Warning { message } => ElementKind::Warning { message: message@ },
            ElementType::Info { message } => ElementKind::Info { message: message@ },
            ElementType::Progress { value } => ElementKind::Progress { value: *value },
            ElementType::Tabs { tabs } => ElementKind::Tabs { tabs: tabs_view(tabs@) },
            ElementType::Sidebar { children } => ElementKind::Sidebar { children: children@ },
            ElementType::Metric { label, value, delta } => ElementKind::Metric { label: label@, value: value@, delta: opt_view(*delta) },
            ElementType::LineChart { data, title } => ElementKind::LineChart { data: data@, title: opt_view(*title) },
            ElementType::BarChart { data, title } => ElementKind::BarChart { data: data@, title: opt_view(*title) },
            ElementType::AreaChart { data, title } => ElementKind::AreaChart { data: data@, title: opt_view(*title) },
            ElementType::ScatterChart { data, title } => ElementKind::ScatterChart { data: data@, title: opt_view(*title) },
            ElementType::PieChart { data, title } => ElementKind::PieChart { data: data@, title: opt_view(*title) },
            ElementType::PlotlyChart { spec } => ElementKind::PlotlyChart { spec: spec@ },
            ElementType::VegaLiteChart { spec } => ElementKind::VegaLiteChart { spec: spec@ },
            ElementType::BokehChart { spec } => ElementKind::BokehChart { spec: spec@ },
            ElementType::Empty => ElementKind::Empty,
            ElementType::Divider => ElementKind::Divider,
        }
    }
}

impl Clone for ElementType {
    fn clone(&self) -> (r: Self)
        ensures
            r@ == self@,
    {
        match self {
            ElementType::Text { value } => ElementType::Text { value: value.clone() },
            ElementType::Markdown { value } => ElementType::Markdown { value: value.clone() },
            ElementType::Code { value, language } => ElementType::Code { value: value.clone(), language: clone_opt_string(language) },
            ElementType::Heading { value, level } => ElementType::Heading { value: value.clone(), level: *level },
            ElementType::Button { label, key } => ElementType::Button { label: label.clone(), key: clone_opt_string(key) },
            ElementType::TextInput { label, value, key } => ElementType::TextInput { label: label.clone(), value: value.clone(), key: clone_opt_string(key) },
            ElementType::TextArea { label, value, key } => ElementType::TextArea { label: label.clone(), value: value.clone(), key: clone_opt_string(key) },
            ElementType::NumberInput { label, value, key } => ElementType::NumberInput { label: label.clone(), value: *value, key: clone_opt_string(key) },
            ElementType::Slider { label, value, min, max, key } => ElementType::Slider { label: label.clone(), value: *value, min: *min, max: *max, key: clone_opt_string(key) },
            ElementType::Checkbox { label, value, key } => ElementType::Checkbox { label: label.clone(), value: *value, key: clone_opt_string(key) },
            ElementType::Radio { label, options, value, key } => ElementType::Radio { label: label.clone(), options: clone_strings(options), value: clone_opt_string(value), key: clone_opt_string(key) },
            ElementType::Selectbox { label, options, value, key } => ElementType::Selectbox { label: label.clone(), options: clone_strings(options), value: clone_opt_string(value), key: clone_opt_string(key) },
            ElementType::Multiselect { label, options, values, key } => ElementType::Multiselect { label: label.clone(), options: clone_strings(options), values: clone_strings(values), key: clone_opt_string(key) },
            ElementType::DateInput { label, value, key } => ElementType::DateInput { label: label.clone(), value: value.clone(), key: clone_opt_string(key) },
            ElementType::TimeInput { label, value, key } => ElementType::TimeInput { label: label.clone(), value: value.clone(), key: clone_opt_string(key) },
            ElementType::ColorPicker { label, value, key } => ElementType::ColorPicker { label: label.clone(), value: value.clone(), key: clone_opt_string(key) },
            ElementType::FileUploader { label, key } => ElementType::FileUploader { label: label.clone(), key: clone_opt_string(key) },
            ElementType::Json { value } => ElementType::Json { value: value.clone() },
            ElementType::Dataframe { data } => ElementType::Dataframe { data: data.clone() },
            ElementType::Table { headers, rows } => ElementType::Table { headers: clone_strings(headers), rows: clone_rows(rows) },
            ElementType::CameraInput { label, key } => ElementType::CameraInput { label: label.clone(), key: clone_opt_string(key) },
            ElementType::Container { children } => ElementType::Container { children: clone_ids(children) },
            ElementType::Column { children, width } => ElementType::Column { children: clone_ids(children), width: *width },
            ElementType::Row { children } => ElementType::Row { children: clone_ids(children) },
            ElementType::Tab { label, children } => ElementType::Tab { label: label.clone(), children: clone_ids(children) },
            ElementType::Expander { label, expanded, children } => ElementType::Expander { label: label.clone(), expanded: *expanded, children: clone_ids(children) },
            ElementType::Image { src, caption, width } => ElementType::Image { src: src.clone(), caption: clone_opt_string(caption), width: *width },
            ElementType::Audio { src } => ElementType::Audio { src: src.clone() },
            ElementType::Video { src } => ElementType::Video { src: src.clone() },
            ElementType::Success { message } => ElementType::Success { message: message.clone() },
            ElementType::Error { message } => ElementType::Error { message: message.clone() },
            ElementType::Warning { message } => ElementType::Warning { message: message.clone() },
            ElementType::Info { message } => ElementType::Info { message: message.clone() },
            ElementType::Progress { value } => ElementType::Progress { value: *value },
            ElementType::Tabs { tabs } => ElementType::Tabs { tabs: clone_tabs(tabs) },
            ElementType::Sidebar { children } => ElementType::Sidebar { children: clone_ids(children) },
            ElementType::Metric { label, value, delta } => ElementType::Metric { label: label.clone(), value: value.clone(), delta: clone_opt_string(delta) },
            ElementType::LineChart { data, title } => ElementType::LineChart { data: data.clone(), title: clone_opt_string(title) },
            ElementType::BarChart { data, title } => ElementType::BarChart { data: data.clone(), title: clone_opt_string(title) },
            ElementType::AreaChart { data, title } => ElementType::AreaChart { data: data.clone(), title: clone_opt_string(title) },
            ElementType::ScatterChart { data, title } => ElementType::ScatterChart { data: data.clone(), title: clone_opt_string(title) },
            ElementType::PieChart { data, title } => ElementType::PieChart { data: data.clone(), title: clone_opt_string(title) },
            ElementType::PlotlyChart { spec } => ElementType::PlotlyChart { spec: spec.clone() },
            ElementType::VegaLiteChart { spec } => ElementType::VegaLiteChart { spec: spec.clone() },
            ElementType::BokehChart { spec } => ElementType::BokehChart { spec: spec.clone() },
            ElementType::Empty => ElementType::Empty,
            ElementType::Divider => ElementType::Divider,
        }
    }
}

/// A UI element: an id and the kind it was declared with.
pub trait Element {
    /// The element id.
    fn id(&self) -> ElementId;

    /// The element kind.
    fn element_type(&self) -> &ElementType;
}

/// An element that holds its id and kind.
#[derive(Debug)]
pub struct SimpleElement {
    pub id: ElementId,
    pub element_type: ElementType,
}

impl SimpleElement {
    /// Create an element from its id and kind.
    pub fn new(id: ElementId, element_type: ElementType) -> (r: SimpleElement)
        ensures
            r.id == id,
            r.element_type == element_type,
    {
        SimpleElement { id, element_type }
    }
}

impl Clone for SimpleElement {
    fn clone(&self) -> (r: Self)
        ensures
            r.id == self.id,
            r.element_type@ == self.element_type@,
    {
        SimpleElement { id: self.id, element_type: self.element_type.clone() }
    }
}

impl Element for SimpleElement {
    fn id(&self) -> ElementId {
        self.id
    }

    fn element_type(&self) -> &ElementType {
        &self.element_type
    }
}

} // verus!
