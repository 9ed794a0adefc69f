//! The wire encoding of deltas: JSON text for the client.
use vstd::prelude::*;
use crate::display::{decimal, decimal_text};
use crate::element::{ElementId, ElementKind, ElementType, strings_view, rows_view, tabs_view};
use crate::secrets::join_texts;
use crate::session::hex_digit;
use crate::state::{Delta, DeltaView, deltas_view};

verus! {

/// How a character stands inside a JSON string: `"` and `\` escaped, the
/// control characters with a short escape written so, any other control
/// character as `\u00` and two lower-case hexadecimal digits.
pub open spec fn json_escape_char(c: char) -> Seq<char> {
    if c == '"' {
        seq!['\\', '"']
    } else if c == '\\' {
        seq!['\\', '\\']
    } else if c == '\u{8}' {
        seq!['\\', 'b']
    } else if c == '\t' {
        seq!['\\', 't']
    } else if c == '\n' {
        seq!['\\', 'n']
    } else if c == '\u{c}' {
        seq!['\\', 'f']
    } else if c == '\r' {
        seq!['\\', 'r']
    } else if (c as u32) < 32 {
        seq!['\\', 'u', '0', '0', hex_digit((c as u32 / 16) as nat), hex_digit((c as u32 % 16) as nat)]
    } else {
        seq![c]
    }
}

/// The characters of a text as they stand inside a JSON string.
pub open spec fn json_escaped(s: Seq<char>) -> Seq<char>
    decreases s.len(),
{
    if s.len() == 0 {
        Seq::empty()
    } else {
        json_escaped(s.drop_last()) + json_escape_char(s.last())
    }
}

/// The JSON string literal of a text: quoted, with its characters escaped.
pub open spec fn json_quoted(s: Seq<char>) -> Seq<char> {
    seq!['"'] + json_escaped(s) + seq!['"']
}

/// Relies on `serde_json::to_string` on a `str`: the text quoted, with `"`
/// and `\` escaped, `\b \t \n \f \r` for those control characters, any other
/// below U+0020 as `\u00` and two lower-case hexadecimal digits, and every
/// other character as it is. Serializing a string slice does not fail.
#[verifier::external_body]
fn quote_json(s: &str) -> (r: String)
    ensures
        r@ == json_quoted(s@),
{
    match serde_json::to_string(s) {
        Ok(t) => t,
        Err(_) => String::new(),
    }
}

/// A JSON string.
pub open spec fn jstr(s: Seq<char>) -> Seq<char> {
    json_quoted(s)
}

/// A JSON string, or null.
pub open spec fn jopt(o: Option<Seq<char>>) -> Seq<char> {
    match o {
        Some(s) => jstr(s),
        None => "null"@,
    }
}

/// A JSON integer.
pub open spec fn jint(n: int) -> Seq<char> {
    if n < 0 {
        "-"@ + decimal((-n) as nat)
    } else {
        decimal(n as nat)
    }
}

/// A JSON integer, or null.
pub open spec fn jopt_int(o: Option<u32>) -> Seq<char> {
    match o {
        Some(n) => jint(n as int),
        None => "null"@,
    }
}

/// A JSON boolean.
pub open spec fn jbool(b: bool) -> Seq<char> {
    if b {
        "true"@
    } else {
        "false"@
    }
}

/// A JSON array of already encoded items.
pub open spec fn jlist(items: Seq<Seq<char>>) -> Seq<char> {
    "["@ + join_texts(items, ","@) + "]"@
}

/// A JSON array of strings.
pub open spec fn jstrs(s: Seq<Seq<char>>) -> Seq<char> {
    jlist(s.map_values(|x: Seq<char>| jstr(x)))
}

/// A JSON array of rows of strings.
pub open spec fn jrows(rows: Seq<Seq<Seq<char>>>) -> Seq<char> {
    jlist(rows.map_values(|r: Seq<Seq<char>>| jstrs(r)))
}

/// A JSON array of element ids.
pub open spec fn jids(ids: Seq<ElementId>) -> Seq<char> {
    jlist(ids.map_values(|i: ElementId| jint(i@ as int)))
}

/// A JSON array of tabs, each a label and its children.
pub open spec fn jtabs(tabs: Seq<(Seq<char>, Seq<ElementId>)>) -> Seq<char> {
    jlist(tabs.map_values(|t: (Seq<char>, Seq<ElementId>)| jlist(seq![jstr(t.0), jids(t.1)])))
}

/// The JSON object of an element kind.
pub open spec fn element_json(k: ElementKind) -> Seq<char> {
    match k {
        ElementKind::Text { value } => "{"@ + jstr("type"@) + ":"@ + jstr("text"@) + ","@ + jstr("value"@) + ":"@ + jstr(value) + "}"@,
        ElementKind::Markdown { value } => "{"@ + jstr("type"@) + ":"@ + jstr("markdown"@) + ","@ + jstr("value"@) + ":"@ + jstr(value) + "}"@,
        ElementKind::Code { value, language } => "{"@ + jstr("type"@) + ":"@ + jstr("code"@) + ","@ + jstr("value"@) + ":"@ + jstr(value) + ","@ + jstr("language"@) + ":"@ + jopt(language) + "}"@,
        ElementKind::Heading { value, level } => "{"@ + jstr("type"@) + ":"@ + jstr("heading"@) + ","@ + jstr("value"@) + ":"@ + jstr(value) + ","@ + jstr("level"@) + ":"@ + jint(level as int) + "}"@,
        ElementKind::Button { label, key } => "{"@ + jstr("type"@) + ":"@ + jstr("button"@) + ","@ + jstr("label"@) + ":"@ + jstr(label) + ","@ + jstr("key"@) + ":"@ + jopt(key) + "}"@,
        ElementKind::TextInput { label, value, key } => "{"@ + jstr("type"@) + ":"@ + jstr("text_input"@) + ","@ + jstr("label"@) + ":"@ + jstr(label) + ","@ + jstr("value"@) + ":"@ + jstr(value) + ","@ + jstr("key"@) + ":"@ + jopt(key) + "}"@,
        ElementKind::TextArea { label, value, key } => "{"@ + jstr("type"@) + ":"@ + jstr("text_area"@) + ","@ + jstr("label"@) + ":"@ + jstr(label) + ","@ + jstr("value"@) + ":"@ + jstr(value) + ","@ + jstr("key"@) + ":"@ + jopt(key) + "}"@,
        ElementKind::NumberInput { label, value, key } => "{"@ + jstr("type"@) + ":"@ + jstr("number_input"@) + ","@ + jstr("label"@) + ":"@ + jstr(label) + ","@ + jstr("value"@) + ":"@ + jint(value as int) + ","@ + jstr("key"@) + ":"@ + jopt(key) + "}"@,
        ElementKind::Slider { label, value, min, max, key } => "{"@ + jstr("type"@) + ":"@ + jstr("slider"@) + ","@ + jstr("label"@) + ":"@ + jstr(label) + ","@ + jstr("value"@) + ":"@ + jint(value as int) + ","@ + jstr("min"@) + ":"@ + jint(min as int) + ","@ + jstr("max"@) + ":"@ + jint(max as int) + ","@ + jstr("key"@) + ":"@ + jopt(key) + "}"@,
        ElementKind::Checkbox { label, value, key } => "{"@ + jstr("type"@) + ":"@ + jstr("checkbox"@) + ","@ + jstr("label"@) + ":"@ + jstr(label) + ","@ + jstr("value"@) + ":"@ + jbool(value) + ","@ + jstr("key"@) + ":"@ + jopt(key) + "}"@,
        ElementKind::Selectbox { label, options, value, key } => "{"@ + jstr("type"@) + ":"@ + jstr("selectbox"@) + ","@ + jstr("label"@) + ":"@ + jstr(label) + ","@ + jstr("options"@) + ":"@ + jstrs(options) + ","@ + jstr("value"@) + ":"@ + jopt(value) + ","@ + jstr("key"@) + ":"@ + jopt(key) + "}"@,
        ElementKind::Multiselect { label, options, values, key } => "{"@ + jstr("type"@) + ":"@ + jstr("multiselect"@) + ","@ + jstr("label"@) + ":"@ + jstr(label) + ","@ + jstr("options"@) + ":"@ + jstrs(options) + ","@ + jstr("values"@) + ":"@ + jstrs(values) + ","@ + jstr("key"@) + ":"@ + jopt(key) + "}"@,
        ElementKind::Json { value } => "{"@ + jstr("type"@) + ":"@ + jstr("json"@) + ","@ + jstr("value"@) + ":"@ + value + "}"@,
        ElementKind::Image { src, caption, width } => "{"@ + jstr("type"@) + ":"@ + jstr("image"@) + ","@ + jstr("src"@) + ":"@ + jstr(src) + ","@ + jstr("caption"@) + ":"@ + jopt(caption) + ","@ + jstr("width"@) + ":"@ + jopt_int(width) + "}"@,
        ElementKind::Divider => "{"@ + jstr("type"@) + ":"@ + jstr("divider"@) + "}"@,
        ElementKind::Empty => "{"@ + jstr("type"@) + ":"@ + jstr("empty"@) + "}"@,
        ElementKind::Success { message } => "{"@ + jstr("type"@) + ":"@ + jstr("success"@) + ","@ + jstr("message"@) + ":"@ + jstr(message) + "}"@,
        ElementKind::Error { message } => "{"@ + jstr("type"@) + ":"@ + jstr("error"@) + ","@ + jstr("message"@) + ":"@ + jstr(message) + "}"@,
        ElementKind::Warning { message } => "{"@ + jstr("type"@) + ":"@ + jstr("warning"@) + ","@ + jstr("message"@) + ":"@ + jstr(message) + "}"@,
        ElementKind::Info { message } => "{"@ + jstr("type"@) + ":"@ + jstr("info"@) + ","@ + jstr("message"@) + ":"@ + jstr(message) + "}"@,
        ElementKind::Metric { label, value, delta } => "{"@ + jstr("type"@) + ":"@ + jstr("metric"@) + ","@ + jstr("label"@) + ":"@ + jstr(label) + ","@ + jstr("value"@) + ":"@ + jstr(value) + ","@ + jstr("delta"@) + ":"@ + jopt(delta) + "}"@,
        ElementKind::Progress { value } => "{"@ + jstr("type"@) + ":"@ + jstr("progress"@) + ","@ + jstr("value"@) + ":"@ + jint(value as int) + "}"@,
        ElementKind::Column { .. } => "{"@ + jstr("type"@) + ":"@ + jstr("column"@) + "}"@,
        ElementKind::Row { .. } => "{"@ + jstr("type"@) + ":"@ + jstr("row"@) + "}"@,
        ElementKind::Tab { .. } => "{"@ + jstr("type"@) + ":"@ + jstr("tab"@) + "}"@,
        ElementKind::Expander { .. } => "{"@ + jstr("type"@) + ":"@ + jstr("expander"@) + "}"@,
        ElementKind::Sidebar { .. } => "{"@ + jstr("type"@) + ":"@ + jstr("sidebar"@) + "}"@,
        ElementKind::Container { .. } => "{"@ + jstr("type"@) + ":"@ + jstr("container"@) + "}"@,
        ElementKind::Radio { label, options, value, key } => "{"@ + jstr("type"@) + ":"@ + jstr("radio"@) + ","@ + jstr("label"@) + ":"@ + jstr(label) + ","@ + jstr("options"@) + ":"@ + jstrs(options) + ","@ + jstr("value"@) + ":"@ + jopt(value) + ","@ + jstr("key"@) + ":"@ + jopt(key) + "}"@,
        ElementKind::DateInput { label, value, key } => "{"@ + jstr("type"@) + ":"@ + jstr("date_input"@) + ","@ + jstr("label"@) + ":"@ + jstr(label) + ","@ + jstr("value"@) + ":"@ + jstr(value) + ","@ + jstr("key"@) + ":"@ + jopt(key) + "}"@,
        ElementKind::TimeInput { label, value, key } => "{"@ + jstr("type"@) + ":"@ + jstr("time_input"@) + ","@ + jstr("label"@) + ":"@ + jstr(label) + ","@ + jstr("value"@) + ":"@ + jstr(value) + ","@ + jstr("key"@) + ":"@ + jopt(key) + "}"@,
        ElementKind::ColorPicker { label, value, key } => "{"@ + jstr("type"@) + ":"@ + jstr("color_picker"@) + ","@ + jstr("label"@) + ":"@ + jstr(label) + ","@ + jstr("value"@) + ":"@ + jstr(value) + ","@ + jstr("key"@) + ":"@ + jopt(key) + "}"@,
        ElementKind::FileUploader { label, key } => "{"@ + jstr("type"@) + ":"@ + jstr("file_uploader"@) + ","@ + jstr("label"@) + ":"@ + jstr(label) + ","@ + jstr("key"@) + ":"@ + jopt(key) + "}"@,
        ElementKind::Dataframe { data } => "{"@ + jstr("type"@) + ":"@ + jstr("dataframe"@) + ","@ + jstr("data"@) + ":"@ + jstr(data) + "}"@,
        ElementKind::Table { headers, rows } => "{"@ + jstr("type"@) + ":"@ + jstr("table"@) + ","@ + jstr("headers"@) + ":"@ + jstrs(headers) + ","@ + jstr("rows"@) + ":"@ + jrows(rows) + "}"@,
        ElementKind::CameraInput { label, key } => "{"@ + jstr("type"@) + ":"@ + jstr("camera_input"@) + ","@ + jstr("label"@) + ":"@ + jstr(label) + ","@ + jstr("key"@) + ":"@ + jopt(key) + "}"@,
        ElementKind::Audio { src } => "{"@ + jstr("type"@) + ":"@ + jstr("audio"@) + ","@ + jstr("src"@) + ":"@ + jstr(src) + "}"@,
        ElementKind::Video { src } => "{"@ + jstr("type"@) + ":"@ + jstr("video"@) + ","@ + jstr("src"@) + ":"@ + jstr(src) + "}"@,
        ElementKind::Tabs { tabs } => "{"@ + jstr("type"@) + ":"@ + jstr("tabs"@) + ","@ + jstr("tabs"@) + ":"@ + jtabs(tabs) + "}"@,
        ElementKind::LineChart { .. } => "{"@ + jstr("type"@) + ":"@ + jstr("line_chart"@) + "}"@,
        ElementKind::BarChart { .. } => "{"@ + jstr("type"@) + ":"@ + jstr("bar_chart"@) + "}"@,
        ElementKind::AreaChart { .. } => "{"@ + jstr("type"@) + ":"@ + jstr("area_chart"@) + "}"@,
        ElementKind::ScatterChart { .. } => "{"@ + jstr("type"@) + ":"@ + jstr("scatter_chart"@) + "}"@,
        ElementKind::PieChart { .. } => "{"@ + jstr("type"@) + ":"@ + jstr("pie_chart"@) + "}"@,
        ElementKind::PlotlyChart { .. } => "{"@ + jstr("type"@) + ":"@ + jstr("plotly_chart"@) + "}"@,
        ElementKind::VegaLiteChart { .. } => "{"@ + jstr("type"@) + ":"@ + jstr("vega_lite_chart"@) + "}"@,
        ElementKind::BokehChart { .. } => "{"@ + jstr("type"@) + ":"@ + jstr("bokeh_chart"@) + "}"@,
    }
}

/// The JSON text of an optional parent id.
pub open spec fn jparent(p: Option<ElementId>) -> Seq<char> {
    match p {
        Some(p) => jstr(decimal(p@ as nat)),
        None => "null"@,
    }
}

/// The JSON object of a delta; ids are given as strings.
pub open spec fn delta_json(d: DeltaView) -> Seq<char> {
    match d {
        DeltaView::AddElement { id, element, parent_id } => "{"@ + jstr("type"@) + ":"@ + jstr("add_element"@) + ","@ + jstr("id"@) + ":"@ + jstr(decimal(id@ as nat)) + ","@ + jstr("parent_id"@) + ":"@ + jparent(parent_id) + ","@ + jstr("element"@) + ":"@ + element_json(element) + "}"@,
        DeltaView::UpdateElement { id, element } => "{"@ + jstr("type"@) + ":"@ + jstr("update_element"@) + ","@ + jstr("id"@) + ":"@ + jstr(decimal(id@ as nat)) + ","@ + jstr("element"@) + ":"@ + element_json(element) + "}"@,
        DeltaView::RemoveElement { id } => "{"@ + jstr("type"@) + ":"@ + jstr("remove_element"@) + ","@ + jstr("id"@) + ":"@ + jstr(decimal(id@ as nat)) + "}"@,
        DeltaView::ClearContainer { id } => "{"@ + jstr("type"@) + ":"@ + jstr("clear_container"@) + ","@ + jstr("id"@) + ":"@ + jstr(decimal(id@ as nat)) + "}"@,
    }
}

/// The JSON message that carries a batch of deltas, in order.
pub open spec fn deltas_json(ds: Seq<DeltaView>) -> Seq<char> {
    "{"@ + jstr("type"@) + ":"@ + jstr("delta"@) + ","@ + jstr("elements"@) + ":"@ + jlist(ds.map_values(|d: DeltaView| delta_json(d))) + "}"@
}

/// One more item of a separated list.
pub proof fn lemma_join_step(items: Seq<Seq<char>>, i: int, sep: Seq<char>)
    requires
        0 <= i < items.len(),
    ensures
        join_texts(items.subrange(0, i + 1), sep) == if i == 0 {
            items[0]
        } else {
            join_texts(items.subrange(0, i), sep) + sep + items[i]
        },
{
    assert(items.subrange(0, i + 1).drop_last() =~= items.subrange(0, i));
    if i == 0 {
        assert(items.subrange(0, 1)[0] == items[0]);
    }
}

/// Append a JSON string.
pub fn push_jstr(out: &mut String, s: &str)
    ensures
        final(out)@ == old(out)@ + jstr(s@),
{
    let q = quote_json(s);
    out.append(q.as_str());
}

/// Append a JSON string, or null.
fn push_jopt(out: &mut String, o: &Option<String>)
    ensures
        final(out)@ == old(out)@ + jopt(crate::element::opt_view(*o)),
{
    match o {
        Some(s) => push_jstr(out, s.as_str()),
        None => out.append("null"),
    }
}

/// Append a JSON integer.
fn push_int(out: &mut String, n: i64)
    ensures
        final(out)@ == old(out)@ + jint(n as int),
{
    if n < 0 {
        out.append("-");
        let m: u64 = (-(n as i128)) as u64;
        out.append(decimal_text(m).as_str());
    } else {
        out.append(decimal_text(n as u64).as_str());
    }
    assert(final(out)@ =~= old(out)@ + jint(n as int));
}

/// Append a JSON integer, or null.
fn push_jopt_int(out: &mut String, o: Option<u32>)
    ensures
        final(out)@ == old(out)@ + jopt_int(o),
{
    match o {
        Some(n) => push_int(out, n as i64),
        None => out.append("null"),
    }
}

/// Append a JSON boolean.
fn push_jbool(out: &mut String, b: bool)
    ensures
        final(out)@ == old(out)@ + jbool(b),
{
    if b {
        out.append("true");
    } else {
        out.append("false");
    }
}

/// Append a JSON array of strings.
fn push_jstrs(out: &mut String, v: &Vec<String>)
    ensures
        final(out)@ == old(out)@ + jstrs(strings_view(v@)),
{
    let ghost items = strings_view(v@).map_values(|x: Seq<char>| jstr(x));
    out.append("[");
    let mut i: usize = 0;
    while i < v.len()
        invariant
            i <= v@.len(),
            items == strings_view(v@).map_values(|x: Seq<char>| jstr(x)),
            out@ == old(out)@ + "["@ + join_texts(items.subrange(0, i as int), ","@),
        decreases v@.len() - i,
    {
        proof {
            lemma_join_step(items, i as int, ","@);
        }
        if i > 0 {
            out.append(",");
        }
        push_jstr(out, v[i].as_str());
        proof {
            if i == 0 {
                assert(join_texts(items.subrange(0, 0), ","@) =~= Seq::<char>::empty());
            }
        }
        assert(out@ =~= old(out)@ + "["@ + join_texts(items.subrange(0, i + 1), ","@));
        i = i + 1;
    }
    assert(items.subrange(0, v@.len() as int) =~= items);
    out.append("]");
    assert(final(out)@ =~= old(out)@ + jstrs(strings_view(v@)));
}

/// Append a JSON array of rows of strings.
fn push_jrows(out: &mut String, rows: &Vec<Vec<String>>)
    ensures
        final(out)@ == old(out)@ + jrows(rows_view(rows@)),
{
    let ghost items = rows_view(rows@).map_values(|r: Seq<Seq<char>>| jstrs(r));
    out.append("[");
    let mut i: usize = 0;
    while i < rows.len()
        invariant
            i <= rows@.len(),
            items == rows_view(rows@).map_values(|r: Seq<Seq<char>>| jstrs(r)),
            out@ == old(out)@ + "["@ + join_texts(items.subrange(0, i as int), ","@),
        decreases rows@.len() - i,
    {
        proof {
            lemma_join_step(items, i as int, ","@);
        }
        if i > 0 {
            out.append(",");
        }
        push_jstrs(out, &rows[i]);
        proof {
            if i == 0 {
                assert(join_texts(items.subrange(0, 0), ","@) =~= Seq::<char>::empty());
            }
        }
        assert(out@ =~= old(out)@ + "["@ + join_texts(items.subrange(0, i + 1), ","@));
        i = i + 1;
    }
    assert(items.subrange(0, rows@.len() as int) =~= items);
    out.append("]");
    assert(final(out)@ =~= old(out)@ + jrows(rows_view(rows@)));
}

/// Append a JSON array of element ids.
fn push_jids(out: &mut String, ids: &Vec<ElementId>)
    ensures
        final(out)@ == old(out)@ + jids(ids@),
{
    let ghost items = ids@.map_values(|x: ElementId| jint(x@ as int));
    out.append("[");
    let mut i: usize = 0;
    while i < ids.len()
        invariant
            i <= ids@.len(),
            items == ids@.map_values(|x: ElementId| jint(x@ as int)),
            out@ == old(out)@ + "["@ + join_texts(items.subrange(0, i as int), ","@),
        decreases ids@.len() - i,
    {
        proof {
            lemma_join_step(items, i as int, ","@);
        }
        if i > 0 {
            out.append(",");
        }
        out.append(decimal_text(ids[i].0).as_str());
        proof {
            if i == 0 {
                assert(join_texts(items.subrange(0, 0), ","@) =~= Seq::<char>::empty());
            }
        }
        assert(out@ =~= old(out)@ + "["@ + join_texts(items.subrange(0, i + 1), ","@));
        i = i + 1;
    }
    assert(items.subrange(0, ids@.len() as int) =~= items);
    out.append("]");
    assert(final(out)@ =~= old(out)@ + jids(ids@));
}

/// Append a JSON array of tabs.
fn push_jtabs(out: &mut String, tabs: &Vec<(String, Vec<ElementId>)>)
    ensures
        final(out)@ == old(out)@ + jtabs(tabs_view(tabs@)),
{
    let ghost items = tabs_view(tabs@).map_values(|t: (Seq<char>, Seq<ElementId>)| jlist(seq![jstr(t.0), jids(t.1)]));
    out.append("[");
    let mut i: usize = 0;
    while i < tabs.len()
        invariant
            i <= tabs@.len(),
            items == tabs_view(tabs@).map_values(|t: (Seq<char>, Seq<ElementId>)| jlist(seq![jstr(t.0), jids(t.1)])),
            out@ == old(out)@ + "["@ + join_texts(items.subrange(0, i as int), ","@),
        decreases tabs@.len() - i,
    {
        proof {
            lemma_join_step(items, i as int, ","@);
        }
        if i > 0 {
            out.append(",");
        }
        let ghost before = out@;
        out.append("[");
        push_jstr(out, tabs[i].0.as_str());
        out.append(",");
        push_jids(out, &tabs[i].1);
        out.append("]");
        proof {
            let pair = seq![jstr(tabs@[i as int].0@), jids(tabs@[i as int].1@)];
            lemma_join_step(pair, 0, ","@);
            lemma_join_step(pair, 1, ","@);
            assert(pair.subrange(0, 2) =~= pair);
            assert(out@ =~= before + jlist(pair));
        }
        proof {
            if i == 0 {
                assert(join_texts(items.subrange(0, 0), ","@) =~= Seq::<char>::empty());
            }
        }
        assert(out@ =~= old(out)@ + "["@ + join_texts(items.subrange(0, i + 1), ","@));
        i = i + 1;
    }
    assert(items.subrange(0, tabs@.len() as int) =~= items);
    out.append("]");
    assert(final(out)@ =~= old(out)@ + jtabs(tabs_view(tabs@)));
}


/// The JSON object of an element kind.
#[verifier::spinoff_prover]
#[verifier::rlimit(100)]
pub fn element_json_text(element: &ElementType) -> (r: String)
    ensures
        r@ == element_json(element@),
{
    let mut s = String::new();
    s.append("{");
    assert(s@ =~= "{"@);
    match element {
        ElementType::Text { value } => {
            push_jstr(&mut s, "type");
            s.append(":");
            push_jstr(&mut s, "text");
            s.append(",");
            push_jstr(&mut s, "value");
            s.append(":");
            push_jstr(&mut s, value.as_str());
            s.append("}");
        },
        ElementType::Markdown { value } => {
            push_jstr(&mut s, "type");
            s.append(":");
            push_jstr(&mut s, "markdown");
            s.append(",");
            push_jstr(&mut s, "value");
            s.append(":");
            push_jstr(&mut s, value.as_str());
            s.append("}");
        },
        ElementType::Code { value, language } => {
            push_jstr(&mut s, "type");
            s.append(":");
            push_jstr(&mut s, "code");
            s.append(",");
            push_jstr(&mut s, "value");
            s.append(":");
            push_jstr(&mut s, value.as_str());
            s.append(",");
            push_jstr(&mut s, "language");
            s.append(":");
            push_jopt(&mut s, language);
            s.append("}");
        },
        ElementType::Heading { value, level } => {
            push_jstr(&mut s, "type");
            s.append(":");
            push_jstr(&mut s, "heading");
            s.append(",");
            push_jstr(&mut s, "value");
            s.append(":");
            push_jstr(&mut s, value.as_str());
            s.append(",");
            push_jstr(&mut s, "level");
            s.append(":");
            push_int(&mut s, *level as i64);
            s.append("}");
        },
        ElementType::Button { label, key } => {
            push_jstr(&mut s, "type");
            s.append(":");
            push_jstr(&mut s, "button");
            s.append(",");
            push_jstr(&mut s, "label");
            s.append(":");
            push_jstr(&mut s, label.as_str());
            s.append(",");
            push_jstr(&mut s, "key");
            s.append(":");
            push_jopt(&mut s, key);
            s.append("}");
        },
        ElementType::TextInput { label, value, key } => {
            push_jstr(&mut s, "type");
            s.append(":");
            push_jstr(&mut s, "text_input");
            s.append(",");
            push_jstr(&mut s, "label");
            s.append(":");
            push_jstr(&mut s, label.as_str());
            s.append(",");
            push_jstr(&mut s, "value");
            s.append(":");
            push_jstr(&mut s, value.as_str());
            s.append(",");
            push_jstr(&mut s, "key");
            s.append(":");
            push_jopt(&mut s, key);
            s.append("}");
        },
        ElementType::TextArea { label, value, key } => {
            push_jstr(&mut s, "type");
            s.append(":");
            push_jstr(&mut s, "text_area");
            s.append(",");
            push_jstr(&mut s, "label");
            s.append(":");
            push_jstr(&mut s, label.as_str());
            s.append(",");
            push_jstr(&mut s, "value");
            s.append(":");
            push_jstr(&mut s, value.as_str());
            s.append(",");
            push_jstr(&mut s, "key");
            s.append(":");
            push_jopt(&mut s, key);
            s.append("}");
        },
        ElementType::NumberInput { label, value, key } => {
            push_jstr(&mut s, "type");
            s.append(":");
            push_jstr(&mut s, "number_input");
            s.append(",");
            push_jstr(&mut s, "label");
            s.append(":");
            push_jstr(&mut s, label.as_str());
            s.append(",");
            push_jstr(&mut s, "value");
            s.append(":");
            push_int(&mut s, *value);
            s.append(",");
            push_jstr(&mut s, "key");
            s.append(":");
            push_jopt(&mut s, key);
            s.append("}");
        },
        ElementType::Slider { label, value, min, max, key } => {
            push_jstr(&mut s, "type");
            s.append(":");
            push_jstr(&mut s, "slider");
            s.append(",");
            push_jstr(&mut s, "label");
            s.append(":");
            push_jstr(&mut s, label.as_str());
            s.append(",");
            push_jstr(&mut s, "value");
            s.append(":");
            push_int(&mut s, *value);
            s.append(",");
            push_jstr(&mut s, "min");
            s.append(":");
            push_int(&mut s, *min);
            s.append(",");
            push_jstr(&mut s, "max");
            s.append(":");
            push_int(&mut s, *max);
            s.append(",");
            push_jstr(&mut s, "key");
            s.append(":");
            push_jopt(&mut s, key);
            s.append("}");
        },
        ElementType::Checkbox { label, value, key } => {
            push_jstr(&mut s, "type");
            s.append(":");
            push_jstr(&mut s, "checkbox");
            s.append(",");
            push_jstr(&mut s, "label");
            s.append(":");
            push_jstr(&mut s, label.as_str());
            s.append(",");
            push_jstr(&mut s, "value");
            s.append(":");
            push_jbool(&mut s, *value);
            s.append(",");
            push_jstr(&mut s, "key");
            s.append(":");
            push_jopt(&mut s, key);
            s.append("}");
        },
        ElementType::Selectbox { label, options, value, key } => {
            push_jstr(&mut s, "type");
            s.append(":");
            push_jstr(&mut s, "selectbox");
            s.append(",");
            push_jstr(&mut s, "label");
            s.append(":");
            push_jstr(&mut s, label.as_str());
            s.append(",");
            push_jstr(&mut s, "options");
            s.append(":");
            push_jstrs(&mut s, options);
            s.append(",");
            push_jstr(&mut s, "value");
            s.append(":");
            push_jopt(&mut s, value);
            s.append(",");
            push_jstr(&mut s, "key");
            s.append(":");
            push_jopt(&mut s, key);
            s.append("}");
        },
        ElementType::Multiselect { label, options, values, key } => {
            push_jstr(&mut s, "type");
            s.append(":");
            push_jstr(&mut s, "multiselect");
            s.append(",");
            push_jstr(&mut s, "label");
            s.append(":");
            push_jstr(&mut s, label.as_str());
            s.append(",");
            push_jstr(&mut s, "options");
            s.append(":");
            push_jstrs(&mut s, options);
            s.append(",");
            push_jstr(&mut s, "values");
            s.append(":");
            push_jstrs(&mut s, values);
            s.append(",");
            push_jstr(&mut s, "key");
            s.append(":");
            push_jopt(&mut s, key);
            s.append("}");
        },
        ElementType::Json { value } => {
            push_jstr(&mut s, "type");
            s.append(":");
            push_jstr(&mut s, "json");
            s.append(",");
            push_jstr(&mut s, "value");
            s.append(":");
            s.append(value.as_str());
            s.append("}");
        },
        ElementType::Image { src, caption, width } => {
            push_jstr(&mut s, "type");
            s.append(":");
            push_jstr(&mut s, "image");
            s.append(",");
            push_jstr(&mut s, "src");
            s.append(":");
            push_jstr(&mut s, src.as_str());
            s.append(",");
            push_jstr(&mut s, "caption");
            s.append(":");
            push_jopt(&mut s, caption);
            s.append(",");
            push_jstr(&mut s, "width");
            s.append(":");
            push_jopt_int(&mut s, *width);
            s.append("}");
        },
        ElementType::Divider => {
            push_jstr(&mut s, "type");
            s.append(":");
            push_jstr(&mut s, "divider");
            s.append("}");
        },
        ElementType::Empty => {
            push_jstr(&mut s, "type");
            s.append(":");
            push_jstr(&mut s, "empty");
            s.append("}");
        },
        ElementType::Success { message } => {
            push_jstr(&mut s, "type");
            s.append(":");
            push_jstr(&mut s, "success");
            s.append(",");
            push_jstr(&mut s, "message");
            s.append(":");
            push_jstr(&mut s, message.as_str());
            s.append("}");
        },
        ElementType::Error { message } => {
            push_jstr(&mut s, "type");
            s.append(":");
            push_jstr(&mut s, "error");
            s.append(",");
            push_jstr(&mut s, "message");
            s.append(":");
            push_jstr(&mut s, message.as_str());
            s.append("}");
        },
        ElementType::Warning { message } => {
            push_jstr(&mut s, "type");
            s.append(":");
            push_jstr(&mut s, "warning");
            s.append(",");
            push_jstr(&mut s, "message");
            s.append(":");
            push_jstr(&mut s, message.as_str());
            s.append("}");
        },
        ElementType::Info { message } => {
            push_jstr(&mut s, "type");
            s.append(":");
            push_jstr(&mut s, "info");
            s.append(",");
            push_jstr(&mut s, "message");
            s.append(":");
            push_jstr(&mut s, message.as_str());
            s.append("}");
        },
        ElementType::Metric { label, value, delta } => {
            push_jstr(&mut s, "type");
            s.append(":");
            push_jstr(&mut s, "metric");
            s.append(",");
            push_jstr(&mut s, "label");
            s.append(":");
            push_jstr(&mut s, label.as_str());
            s.append(",");
            push_jstr(&mut s, "value");
            s.append(":");
            push_jstr(&mut s, value.as_str());
            s.append(",");
            push_jstr(&mut s, "delta");
            s.append(":");
            push_jopt(&mut s, delta);
            s.append("}");
        },
        ElementType::Progress { value } => {
            push_jstr(&mut s, "type");
            s.append(":");
            push_jstr(&mut s, "progress");
            s.append(",");
            push_jstr(&mut s, "value");
            s.append(":");
            push_int(&mut s, *value as i64);
            s.append("}");
        },
        ElementType::Column { .. } => {
            push_jstr(&mut s, "type");
            s.append(":");
            push_jstr(&mut s, "column");
            s.append("}");
        },
        ElementType::Row { .. } => {
            push_jstr(&mut s, "type");
            s.append(":");
            push_jstr(&mut s, "row");
            s.append("}");
        },
        ElementType::Tab { .. } => {
            push_jstr(&mut s, "type");
            s.append(":");
            push_jstr(&mut s, "tab");
            s.append("}");
        },
        ElementType::Expander { .. } => {
            push_jstr(&mut s, "type");
            s.append(":");
            push_jstr(&mut s, "expander");
            s.append("}");
        },
        ElementType::Sidebar { .. } => {
            push_jstr(&mut s, "type");
            s.append(":");
            push_jstr(&mut s, "sidebar");
            s.append("}");
        },
        ElementType::Container { .. } => {
            push_jstr(&mut s, "type");
            s.append(":");
            push_jstr(&mut s, "container");
            s.append("}");
        },
        ElementType::Radio { label, options, value, key } => {
            push_jstr(&mut s, "type");
            s.append(":");
            push_jstr(&mut s, "radio");
            s.append(",");
            push_jstr(&mut s, "label");
            s.append(":");
            push_jstr(&mut s, label.as_str());
            s.append(",");
            push_jstr(&mut s, "options");
            s.append(":");
            push_jstrs(&mut s, options);
            s.append(",");
            push_jstr(&mut s, "value");
            s.append(":");
            push_jopt(&mut s, value);
            s.append(",");
            push_jstr(&mut s, "key");
            s.append(":");
            push_jopt(&mut s, key);
            s.append("}");
        },
        ElementType::DateInput { label, value, key } => {
            push_jstr(&mut s, "type");
            s.append(":");
            push_jstr(&mut s, "date_input");
            s.append(",");
            push_jstr(&mut s, "label");
            s.append(":");
            push_jstr(&mut s, label.as_str());
            s.append(",");
            push_jstr(&mut s, "value");
            s.append(":");
            push_jstr(&mut s, value.as_str());
            s.append(",");
            push_jstr(&mut s, "key");
            s.append(":");
            push_jopt(&mut s, key);
            s.append("}");
        },
        ElementType::TimeInput { label, value, key } => {
            push_jstr(&mut s, "type");
            s.append(":");
            push_jstr(&mut s, "time_input");
            s.append(",");
            push_jstr(&mut s, "label");
            s.append(":");
            push_jstr(&mut s, label.as_str());
            s.append(",");
            push_jstr(&mut s, "value");
            s.append(":");
            push_jstr(&mut s, value.as_str());
            s.append(",");
            push_jstr(&mut s, "key");
            s.append(":");
            push_jopt(&mut s, key);
            s.append("}");
        },
        ElementType::ColorPicker { label, value, key } => {
            push_jstr(&mut s, "type");
            s.append(":");
            push_jstr(&mut s, "color_picker");
            s.append(",");
            push_jstr(&mut s, "label");
            s.append(":");
            push_jstr(&mut s, label.as_str());
            s.append(",");
            push_jstr(&mut s, "value");
            s.append(":");
            push_jstr(&mut s, value.as_str());
            s.append(",");
            push_jstr(&mut s, "key");
            s.append(":");
            push_jopt(&mut s, key);
            s.append("}");
        },
        ElementType::FileUploader { label, key } => {
            push_jstr(&mut s, "type");
            s.append(":");
            push_jstr(&mut s, "file_uploader");
            s.append(",");
            push_jstr(&mut s, "label");
            s.append(":");
            push_jstr(&mut s, label.as_str());
            s.append(",");
            push_jstr(&mut s, "key");
            s.append(":");
            push_jopt(&mut s, key);
            s.append("}");
        },
        ElementType::Dataframe { data } => {
            push_jstr(&mut s, "type");
            s.append(":");
            push_jstr(&mut s, "dataframe");
            s.append(",");
            push_jstr(&mut s, "data");
            s.append(":");
            push_jstr(&mut s, data.as_str());
            s.append("}");
        },
        ElementType::Table { headers, rows } => {
            push_jstr(&mut s, "type");
            s.append(":");
            push_jstr(&mut s, "table");
            s.append(",");
            push_jstr(&mut s, "headers");
            s.append(":");
            push_jstrs(&mut s, headers);
            s.append(",");
            push_jstr(&mut s, "rows");
            s.append(":");
            push_jrows(&mut s, rows);
            s.append("}");
        },
        ElementType::CameraInput { label, key } => {
            push_jstr(&mut s, "type");
            s.append(":");
            push_jstr(&mut s, "camera_input");
            s.append(",");
            push_jstr(&mut s, "label");
            s.append(":");
            push_jstr(&mut s, label.as_str());
            s.append(",");
            push_jstr(&mut s, "key");
            s.append(":");
            push_jopt(&mut s, key);
            s.append("}");
        },
        ElementType::Audio { src } => {
            push_jstr(&mut s, "type");
            s.append(":");
            push_jstr(&mut s, "audio");
            s.append(",");
            push_jstr(&mut s, "src");
            s.append(":");
            push_jstr(&mut s, src.as_str());
            s.append("}");
        },
        ElementType::Video { src } => {
            push_jstr(&mut s, "type");
            s.append(":");
            push_jstr(&mut s, "video");
            s.append(",");
            push_jstr(&mut s, "src");
            s.append(":");
            push_jstr(&mut s, src.as_str());
            s.append("}");
        },
        ElementType::Tabs { tabs } => {
            push_jstr(&mut s, "type");
            s.append(":");
            push_jstr(&mut s, "tabs");
            s.append(",");
            push_jstr(&mut s, "tabs");
            s.append(":");
            push_jtabs(&mut s, tabs);
            s.append("}");
        },
        ElementType::LineChart { .. } => {
            push_jstr(&mut s, "type");
            s.append(":");
            push_jstr(&mut s, "line_chart");
            s.append("}");
        },
        ElementType::BarChart { .. } => {
            push_jstr(&mut s, "type");
            s.append(":");
            push_jstr(&mut s, "bar_chart");
            s.append("}");
        },
        ElementType::AreaChart { .. } => {
            push_jstr(&mut s, "type");
            s.append(":");
            push_jstr(&mut s, "area_chart");
            s.append("}");
        },
        ElementType::ScatterChart { .. } => {
            push_jstr(&mut s, "type");
            s.append(":");
            push_jstr(&mut s, "scatter_chart");
            s.append("}");
        },
        ElementType::PieChart { .. } => {
            push_jstr(&mut s, "type");
            s.append(":");
            push_jstr(&mut s, "pie_chart");
            s.append("}");
        },
        ElementType::PlotlyChart { .. } => {
            push_jstr(&mut s, "type");
            s.append(":");
            push_jstr(&mut s, "plotly_chart");
            s.append("}");
        },
        ElementType::VegaLiteChart { .. } => {
            push_jstr(&mut s, "type");
            s.append(":");
            push_jstr(&mut s, "vega_lite_chart");
            s.append("}");
        },
        ElementType::BokehChart { .. } => {
            push_jstr(&mut s, "type");
            s.append(":");
            push_jstr(&mut s, "bokeh_chart");
            s.append("}");
        },
    }
    s
}

/// Append the JSON object of an element kind.
pub fn push_element_json(out: &mut String, element: &ElementType)
    ensures
        final(out)@ == old(out)@ + element_json(element@),
{
    let s = element_json_text(element);
    out.append(s.as_str());
}

/// The JSON object of a delta.
pub fn delta_json_text(delta: &Delta) -> (r: String)
    ensures
        r@ == delta_json(delta@),
{
    let mut s = String::new();
    s.append("{");
    assert(s@ =~= "{"@);
    match delta {
        Delta::AddElement { id, element, parent_id } => {
            push_jstr(&mut s, "type");
            s.append(":");
            push_jstr(&mut s, "add_element");
            s.append(",");
            push_jstr(&mut s, "id");
            s.append(":");
            push_jstr(&mut s, decimal_text(id.0).as_str());
            s.append(",");
            push_jstr(&mut s, "parent_id");
            s.append(":");
            push_parent(&mut s, parent_id);
            s.append(",");
            push_jstr(&mut s, "element");
            s.append(":");
            push_element_json(&mut s, element);
            s.append("}");
        },
        Delta::UpdateElement { id, element } => {
            push_jstr(&mut s, "type");
            s.append(":");
            push_jstr(&mut s, "update_element");
            s.append(",");
            push_jstr(&mut s, "id");
            s.append(":");
            push_jstr(&mut s, decimal_text(id.0).as_str());
            s.append(",");
            push_jstr(&mut s, "element");
            s.append(":");
            push_element_json(&mut s, element);
            s.append("}");
        },
        Delta::RemoveElement { id } => {
            push_jstr(&mut s, "type");
            s.append(":");
            push_jstr(&mut s, "remove_element");
            s.append(",");
            push_jstr(&mut s, "id");
            s.append(":");
            push_jstr(&mut s, decimal_text(id.0).as_str());
            s.append("}");
        },
        Delta::ClearContainer { id } => {
            push_jstr(&mut s, "type");
            s.append(":");
            push_jstr(&mut s, "clear_container");
            s.append(",");
            push_jstr(&mut s, "id");
            s.append(":");
            push_jstr(&mut s, decimal_text(id.0).as_str());
            s.append("}");
        },
    }
    s
}

/// Append the JSON object of a delta.
pub fn push_delta_json(out: &mut String, delta: &Delta)
    ensures
        final(out)@ == old(out)@ + delta_json(delta@),
{
    let s = delta_json_text(delta);
    out.append(s.as_str());
}

/// Append the JSON text of an optional parent id.
fn push_parent(out: &mut String, p: &Option<ElementId>)
    ensures
        final(out)@ == old(out)@ + jparent(*p),
{
    match p {
        Some(p) => push_jstr(out, decimal_text(p.0).as_str()),
        None => out.append("null"),
    }
}

/// The JSON message that carries a batch of deltas to the client, in order.
pub fn deltas_to_json(deltas: &Vec<Delta>) -> (r: String)
    ensures
        r@ == deltas_json(deltas_view(deltas@)),
{
    let ghost items = deltas_view(deltas@).map_values(|d: DeltaView| delta_json(d));
    let mut out = String::new();
    out.append("{");
    assert(out@ =~= "{"@);
    push_jstr(&mut out, "type");
    out.append(":");
    push_jstr(&mut out, "delta");
    out.append(",");
    push_jstr(&mut out, "elements");
    out.append(":");
    let ghost head = out@;
    out.append("[");
    let mut i: usize = 0;
    while i < deltas.len()
        invariant
            i <= deltas@.len(),
            items == deltas_view(deltas@).map_values(|d: DeltaView| delta_json(d)),
            out@ == head + "["@ + join_texts(items.subrange(0, i as int), ","@),
        decreases deltas@.len() - i,
    {
        proof {
            lemma_join_step(items, i as int, ","@);
        }
        if i > 0 {
            out.append(",");
        }
        push_delta_json(&mut out, &deltas[i]);
        proof {
            if i == 0 {
                assert(join_texts(items.subrange(0, 0), ","@) =~= Seq::<char>::empty());
            }
        }
        assert(out@ =~= head + "["@ + join_texts(items.subrange(0, i + 1), ","@));
        i = i + 1;
    }
    assert(items.subrange(0, deltas@.len() as int) =~= items);
    out.append("]");
    out.append("}");
    out
}

} // verus!
