use platypus::connection::{ClientEvent, JsonScalar, SessionAction, next_action, raw_text, step};
use platypus::context::St;
use platypus::element::{ElementId, ElementType};
use platypus::error::Error;
use platypus::executor::ScriptExecutor;
use platypus::session::{Session, SessionId, SessionStore};
use platypus::state::{Delta, DeltaGenerator};
use platypus::widget::{SimpleWidget, Widget, WidgetValue};

fn added(d: &Delta) -> (u64, ElementType, Option<ElementId>) {
    match d {
        Delta::AddElement { id, element, parent_id } => (id.inner(), element.clone(), *parent_id),
        other => panic!("not an addition: {:?}", other),
    }
}

#[test]
fn test_element_id() {
    let id = ElementId::new(42);
    assert_eq!(id.inner(), 42);
    assert_eq!(platypus::display::id_text(id), "42");
}

#[test]
fn test_widget_value_conversions() {
    let s: WidgetValue = "hello".into();
    assert_eq!(s.as_string(), Some("hello"));

    let n: WidgetValue = 42i64.into();
    assert_eq!(n.as_number(), Some(42));

    let b: WidgetValue = true.into();
    assert_eq!(b.as_bool(), Some(true));
    assert_eq!(b.as_number(), None);
    assert_eq!(s.as_bool(), None);
}

#[test]
fn test_simple_widget() {
    let mut widget = SimpleWidget::new("test".to_string(), WidgetValue::String("value".to_string()));
    assert_eq!(widget.key(), "test");
    assert!(!widget.changed());

    widget.mark_changed();
    assert!(widget.changed());
    widget.mark_unchanged();
    assert!(!widget.changed());
}

#[test]
fn test_delta_generator() {
    let mut g = DeltaGenerator::new();
    let id1 = g.next_element_id();
    let id2 = g.next_element_id();
    assert_ne!(id1, id2);
}

#[test]
fn ids_strictly_increase_from_one() {
    let mut g = DeltaGenerator::new();
    let mut last = 0;
    for _ in 0..50 {
        let id = g.next_element_id().inner();
        assert!(id > last);
        last = id;
    }
    let mut g = DeltaGenerator::new();
    assert_eq!(g.next_element_id().inner(), 1);
}

#[test]
fn test_add_element() {
    let mut g = DeltaGenerator::new();
    let id = g.add_element(ElementType::Text { value: "Hello".to_string() }, None);
    assert!(g.get_element(id).is_some());
}

#[test]
fn test_deltas() {
    let mut g = DeltaGenerator::new();
    g.add_element(ElementType::Text { value: "Hello".to_string() }, None);
    let deltas = g.take_deltas();
    assert_eq!(deltas.len(), 1);
    assert!(g.take_deltas().is_empty());
}

#[test]
fn test_widgets() {
    let mut g = DeltaGenerator::new();
    g.set_widget("test".to_string(), WidgetValue::String("value".to_string()));
    assert_eq!(g.get_widget("test"), Some(WidgetValue::String("value".to_string())));
}

#[test]
fn widget_store_last_write_wins() {
    let mut g = DeltaGenerator::new();
    g.set_widget("k".to_string(), WidgetValue::Number(1));
    g.set_widget("k".to_string(), WidgetValue::Bool(true));
    assert_eq!(g.get_widget("k"), Some(WidgetValue::Bool(true)));
    assert_eq!(g.widgets().len(), 1);
    assert_eq!(g.get_widget("other"), None);
}

#[test]
fn update_remove_and_clear_are_logged_in_order() {
    let mut g = DeltaGenerator::new();
    let a = g.add_element(ElementType::Container { children: vec![] }, None);
    g.update_element(a, ElementType::Container { children: vec![ElementId::new(9)] });
    g.clear_container(a);
    g.remove_element(a);
    assert!(g.get_element(a).is_none());
    let deltas = g.take_deltas();
    assert_eq!(deltas.len(), 4);
    assert!(matches!(deltas[1], Delta::UpdateElement { .. }));
    assert!(matches!(deltas[2], Delta::ClearContainer { .. }));
    assert_eq!(deltas[3], Delta::RemoveElement { id: a });
}

#[test]
fn test_st_write() {
    let mut st = St::new();
    let id = st.write("Hello, World!");
    assert!(st.delta_gen().get_element(id).is_some());
}

#[test]
fn test_st_title() {
    let mut st = St::new();
    let id = st.title("My App");
    assert!(st.delta_gen().get_element(id).is_some());
}

#[test]
fn test_st_button() {
    let mut st = St::new();
    let clicked = st.button("Click me", Some("btn".to_string()));
    assert!(!clicked);
}

#[test]
fn test_st_text_input() {
    let mut st = St::new();
    let value = st.text_input("Name", "John", Some("name".to_string()));
    assert_eq!(value, "John");
}

#[test]
fn test_st_deltas() {
    let mut st = St::new();
    st.write("Hello");
    let deltas = st.take_deltas();
    assert_eq!(deltas.len(), 1);
}

#[test]
fn key_determinism_for_unkeyed_widgets() {
    let mut st = St::new();
    st.set_widget("text_input_Name".to_string(), WidgetValue::String("Ada".to_string()));
    let first = st.text_input("Name", "World", None);
    let second = st.text_input("Name", "World", None);
    assert_eq!(first, "Ada");
    assert_eq!(second, first);
}

#[test]
fn value_carry_forward_for_slider() {
    let mut st = St::new();
    assert_eq!(st.slider("S", 0, 100, 50, Some("k".to_string())), 50);
    let mut st = St::new();
    st.set_widget("k".to_string(), WidgetValue::Number(75));
    assert_eq!(st.slider("S", 0, 100, 50, Some("k".to_string())), 75);
}

#[test]
fn type_incompatible_value_falls_back_to_default() {
    let mut st = St::new();
    st.set_widget("k".to_string(), WidgetValue::String("x".to_string()));
    assert_eq!(st.number_input("N", 7, Some("k".to_string())), 7);
    assert!(st.checkbox("C", true, Some("k".to_string())));
}

#[test]
fn button_pulse_semantics() {
    let store_holder = SessionStore::new();
    let mut store = store_holder;
    let sid = store.create_session("hash".to_string());
    let mut exec = ScriptExecutor::new();

    let run = |exec: &mut ScriptExecutor, store: &SessionStore| -> bool {
        let mut st = exec.begin_run();
        let clicked = st.button("Go", Some("k".to_string()));
        exec.finish_run(&mut st);
        clicked
    };
    assert!(!run(&mut exec, &store));
    exec.record_widget_change("k", "true");
    assert!(run(&mut exec, &store));
    assert!(!run(&mut exec, &store));
    assert!(exec.execute_script(&store, sid).is_ok());
}

#[test]
fn demo_button_click_shows_message_once() {
    let mut store = SessionStore::new();
    let sid = store.create_session("hash".to_string());
    let mut exec = ScriptExecutor::new();
    let deltas = exec.handle_widget_change(&store, sid, "demo_button", "true").unwrap();
    assert_eq!(deltas.len(), 6);
    assert_eq!(added(&deltas[5]).1, ElementType::Success { message: "Button clicked!".to_string() });
    let deltas = exec.execute_script(&store, sid).unwrap();
    assert_eq!(deltas.len(), 5);
}

#[test]
fn replay_gives_identical_deltas() {
    let mut store = SessionStore::new();
    let sid = store.create_session("hash".to_string());
    let mut exec = ScriptExecutor::new();
    exec.record_widget_change("name_input", "Bob");
    let first = exec.execute_script(&store, sid).unwrap();
    let second = exec.execute_script(&store, sid).unwrap();
    assert_eq!(first, second);
    assert_eq!(added(&first[0]).0, 1);
}

#[test]
fn container_scoping_sets_parent() {
    let mut st = St::new();
    let top = st.write("top");
    let c = st.container();
    st.enter(&c);
    st.write("inside");
    let cols = st.columns(2);
    st.enter(&cols[1]);
    st.markdown("in column");
    st.leave();
    st.write("inside again");
    st.leave();
    st.write("outside");
    let deltas = st.take_deltas();
    assert_eq!(added(&deltas[0]).2, None);
    assert_eq!(top.inner(), 1);
    assert_eq!(added(&deltas[2]).2, Some(c.id()));
    assert_eq!(added(&deltas[3]).2, Some(c.id()));
    assert_eq!(added(&deltas[4]).2, Some(c.id()));
    assert_eq!(added(&deltas[5]).2, Some(cols[1].id()));
    assert_eq!(added(&deltas[6]).2, Some(c.id()));
    assert_eq!(added(&deltas[7]).2, None);
    assert_eq!(added(&deltas[3]).1, ElementType::Column { children: vec![], width: Some(50) });
}

#[test]
fn tabs_and_expander_and_sidebar() {
    let mut st = St::new();
    let outer = st.container();
    st.enter(&outer);
    let tabs = st.tabs(vec!["A", "B"]);
    let exp = st.expander("More");
    let side = st.sidebar();
    st.enter(&tabs[0]);
    st.write("in tab");
    let deltas = st.take_deltas();
    assert_eq!(tabs.len(), 2);
    assert_eq!(added(&deltas[1]).2, Some(outer.id()));
    assert_eq!(added(&deltas[2]).2, Some(ElementId::new(2)));
    assert_eq!(added(&deltas[3]).2, Some(ElementId::new(2)));
    assert_eq!(added(&deltas[4]).0, exp.id().inner());
    assert_eq!(added(&deltas[5]).2, None);
    assert_eq!(added(&deltas[5]).0, side.id().inner());
    assert_eq!(added(&deltas[6]).2, Some(tabs[0].id()));
}

#[test]
fn rejection_cases() {
    let mut st = St::new();
    assert!(matches!(st.heading("h", 0), Err(Error::StateError(_))));
    assert!(st.heading("h", 7).is_err());
    assert!(st.heading("h", 6).is_ok());
    assert!(st.selectbox("S", vec![], 0, None).is_err());
    assert!(st.selectbox("S", vec!["a".to_string()], 1, None).is_err());
    assert!(st.radio("R", vec!["a", "b"], 2, None).is_err());
    assert_eq!(st.radio("R", vec!["a", "b"], 1, None).unwrap(), "b");
    assert_eq!(st.take_deltas().len(), 2);
}

#[test]
fn end_to_end_scenario() {
    let script = |st: &mut St| -> String {
        st.title("T");
        let name = st.text_input("Name", "World", Some("n".to_string()));
        st.write(&format!("Hello, {}!", name));
        name
    };
    let mut store = SessionStore::new();
    let sid = store.create_session("hash".to_string());
    let mut exec = ScriptExecutor::new();
    assert!(store.get_session(sid).is_ok());

    let mut st = exec.begin_run();
    let name = script(&mut st);
    let deltas = exec.finish_run(&mut st);
    assert_eq!(deltas.len(), 3);
    assert!(deltas.iter().all(|d| matches!(d, Delta::AddElement { .. })));
    assert_eq!(name, "World");

    exec.record_widget_change("n", "Ada");
    let mut st = exec.begin_run();
    let name = script(&mut st);
    let deltas = exec.finish_run(&mut st);
    assert_eq!(name, "Ada");
    assert_eq!(added(&deltas[2]).1, ElementType::Text { value: "Hello, Ada!".to_string() });
}

#[test]
fn number_widgets_read_text_by_their_type() {
    let mut st = St::new();
    st.set_widget("a".to_string(), WidgetValue::String("42".to_string()));
    st.set_widget("b".to_string(), WidgetValue::String("-7".to_string()));
    st.set_widget("c".to_string(), WidgetValue::String("4.5".to_string()));
    assert_eq!(st.number_input("A", 0, Some("a".to_string())), 42);
    assert_eq!(st.slider("B", -10, 10, 0, Some("b".to_string())), -7);
    assert_eq!(st.number_input("C", 3, Some("c".to_string())), 3);
    assert_eq!(st.text_input("A", "", Some("a".to_string())), "42");
    assert_eq!(platypus::number::parse_i64("+12"), Some(12));
    assert_eq!(platypus::number::parse_i64(""), None);
    assert_eq!(platypus::number::parse_i64("9223372036854775808"), None);
}

#[test]
fn button_without_key_reads_default_key() {
    let mut st = St::new();
    st.set_widget("button_Go".to_string(), WidgetValue::Bool(true));
    assert!(st.button("Go", None));
    assert!(!st.button("Stop", None));
}

#[test]
fn keyless_button_click_is_consumed() {
    let mut exec = ScriptExecutor::new();
    exec.record_widget_change("button_Go", "true");
    let mut st = exec.begin_run();
    assert!(st.button("Go", None));
    exec.finish_run(&mut st);
    let mut st = exec.begin_run();
    assert!(!st.button("Go", None));
}

#[test]
fn failed_script_still_delivers_its_deltas() {
    let mut exec = ScriptExecutor::new();
    let mut st = exec.begin_run();
    st.write("before");
    let (deltas, failure) = exec.complete_run(&mut st, Err("boom".to_string()));
    assert_eq!(deltas.len(), 1);
    assert_eq!(failure, Some("boom".to_string()));
}

#[test]
fn test_create_session() {
    let mut store = SessionStore::new();
    let session_id = store.create_session("script_hash".to_string());
    assert!(store.get_session(session_id).is_ok());
}

#[test]
fn test_get_session() {
    let mut store = SessionStore::new();
    let session_id = store.create_session("script_hash".to_string());
    let session = store.get_session(session_id).unwrap();
    assert_eq!(session.script_hash, "script_hash");
}

#[test]
fn test_remove_session() {
    let mut store = SessionStore::new();
    let session_id = store.create_session("script_hash".to_string());
    store.remove_session(session_id).unwrap();
    assert!(store.get_session(session_id).is_err());
}

#[test]
fn missing_session_error_names_the_id() {
    let store = SessionStore::new();
    let id = SessionId::from_value(0x67e5504410b1426f9247bb680e5fe0c8);
    match store.get_session(id) {
        Err(Error::SessionNotFound(m)) => assert_eq!(m, "67e55044-10b1-426f-9247-bb680e5fe0c8"),
        _ => panic!("expected a missing session"),
    }
    let mut exec = ScriptExecutor::new();
    assert_eq!(
        exec.execute_script(&store, id),
        Err("Session not found: 67e55044-10b1-426f-9247-bb680e5fe0c8".to_string())
    );
}

#[test]
fn stale_sessions_are_swept() {
    let mut store = SessionStore::new();
    let old = Session::new_at("a".to_string(), SessionId::from_value(1), 100);
    let fresh = Session::new_at("b".to_string(), SessionId::from_value(2), 1000);
    store.update_session(old).unwrap();
    store.update_session(fresh).unwrap();
    assert_eq!(store.session_count(), 2);
    store.cleanup_stale_sessions_at(1050, 60);
    assert_eq!(store.session_count(), 1);
    assert!(store.get_session(SessionId::from_value(2)).is_ok());
    assert_eq!(store.all_sessions().len(), 1);
}

#[test]
fn test_session_id() {
    let id1 = SessionId::new();
    let id2 = SessionId::new();
    assert_ne!(id1, id2);
}

#[test]
fn test_session_creation() {
    let session = Session::new("script_hash".to_string());
    assert_eq!(session.script_hash, "script_hash");
    assert_eq!(session.reruns, 0);
}

#[test]
fn test_session_reruns() {
    let mut session = Session::new("script_hash".to_string());
    session.increment_reruns();
    assert_eq!(session.reruns, 1);
}

#[test]
fn test_session_metadata() {
    let mut session = Session::new("script_hash".to_string());
    session.set_metadata("key".to_string(), "value".to_string());
    assert_eq!(session.get_metadata("key"), Some("value"));
}

#[test]
fn error_messages_name_their_kind() {
    assert_eq!(Error::state("bad").message(), "State error: bad");
    assert_eq!(Error::SessionNotFound("x".to_string()).message(), "Session not found: x");
}

#[test]
fn deltas_encode_as_json_text() {
    let mut st = St::new();
    st.write("say \"hi\"\n");
    let c = st.container();
    st.enter(&c);
    st.checkbox("C", true, None);
    st.slider("S", -5, 5, 0, Some("s".to_string()));
    st.leave();
    st.table(vec!["h"], vec![vec!["x", "y"]]);
    let tabs = st.tabs(vec!["A"]);
    assert_eq!(tabs.len(), 1);
    let deltas = st.take_deltas();
    let text = platypus::wire::deltas_to_json(&deltas);
    assert_eq!(
        text,
        [
            r#"{"type":"delta","elements":["#,
            r#"{"type":"add_element","id":"1","parent_id":null,"element":{"type":"text","value":"say \"hi\"\n"}},"#,
            r#"{"type":"add_element","id":"2","parent_id":null,"element":{"type":"container"}},"#,
            r#"{"type":"add_element","id":"3","parent_id":"2","element":{"type":"checkbox","label":"C","value":true,"key":null}},"#,
            r#"{"type":"add_element","id":"4","parent_id":"2","element":{"type":"slider","label":"S","value":0,"min":-5,"max":5,"key":"s"}},"#,
            r#"{"type":"add_element","id":"5","parent_id":null,"element":{"type":"table","headers":["h"],"rows":[["x","y"]]}},"#,
            r#"{"type":"add_element","id":"6","parent_id":null,"element":{"type":"tabs","tabs":[["A",[]]]}},"#,
            r#"{"type":"add_element","id":"7","parent_id":"6","element":{"type":"container"}}"#,
            r#"]}"#,
        ]
        .concat()
    );
    let parsed: serde_json::Value = serde_json::from_str(&text).unwrap();
    assert_eq!(parsed["elements"][0]["element"]["value"], serde_json::Value::String("say \"hi\"\n".to_string()));
}

#[test]
fn json_text_escapes_control_characters() {
    let mut g = DeltaGenerator::new();
    g.add_element(ElementType::Text { value: "\u{1}\t\\".to_string() }, None);
    g.remove_element(ElementId::new(1));
    let text = platypus::wire::deltas_to_json(&g.take_deltas());
    assert_eq!(
        text,
        r#"{"type":"delta","elements":[{"type":"add_element","id":"1","parent_id":null,"element":{"type":"text","value":"\u0001\t\\"}},{"type":"remove_element","id":"1"}]}"#
    );
}

#[test]
fn reruns_are_counted_per_session() {
    let mut store = SessionStore::new();
    let id = SessionId::from_value(5);
    store.update_session(Session::new_at("h".to_string(), id, 10)).unwrap();
    store.record_rerun_at(id, 20).unwrap();
    store.record_rerun_at(id, 30).unwrap();
    let s = store.get_session(id).unwrap();
    assert_eq!(s.reruns, 2);
    assert_eq!(s.last_activity, 30);
    assert_eq!(s.created_at, 10);
    assert!(store.record_rerun_at(SessionId::from_value(6), 40).is_err());
}

#[test]
fn connection_events_map_to_actions() {
    assert_eq!(next_action(&ClientEvent::Connected), SessionAction::RunAndSend);
    assert_eq!(next_action(&ClientEvent::ButtonClick { key: "b".to_string() }), SessionAction::RunAndSend);
    assert_eq!(
        next_action(&ClientEvent::WidgetChange { key: "k".to_string(), raw: "v".to_string() }),
        SessionAction::ChangeAndSend { key: "k".to_string(), raw: "v".to_string() }
    );
    assert_eq!(next_action(&ClientEvent::Interaction { kind: "hover".to_string() }), SessionAction::Ignore);
    assert_eq!(next_action(&ClientEvent::TransportError), SessionAction::RemoveAndStop);
    assert_eq!(raw_text(&JsonScalar::Bool(false)), "false");
    assert_eq!(raw_text(&JsonScalar::Number("3".to_string())), "3");
    assert_eq!(raw_text(&JsonScalar::Other("[1]".to_string())), "[1]");
}

#[test]
fn connection_step_runs_sends_and_closes() {
    let mut store = SessionStore::new();
    let sid = store.create_session("h".to_string());
    let mut exec = ScriptExecutor::new();
    let (text, stop) = step(&mut exec, &mut store, sid, &ClientEvent::Connected);
    assert!(!stop);
    assert!(text.unwrap().contains("Hello, World!"));
    let (text, _) = step(
        &mut exec,
        &mut store,
        sid,
        &ClientEvent::WidgetChange { key: "name_input".to_string(), raw: "Ada".to_string() },
    );
    assert!(text.unwrap().contains("Hello, Ada!"));
    let (text, stop) = step(&mut exec, &mut store, sid, &ClientEvent::Interaction { kind: "x".to_string() });
    assert!(text.is_none() && !stop);
    let (text, stop) = step(&mut exec, &mut store, sid, &ClientEvent::Closed);
    assert!(text.is_none() && stop);
    assert!(store.get_session(sid).is_err());
    let (text, stop) = step(&mut exec, &mut store, sid, &ClientEvent::RerunRequested);
    assert!(text.is_none() && !stop);
}

#[test]
fn json_display_refuses_text_that_is_not_json() {
    let mut st = St::new();
    assert!(st.json("{\"a\": [1, 2]}").is_ok());
    assert!(st.json("{not json").is_err());
    assert!(st.json_if_valid("x", false).is_err());
    assert_eq!(st.take_deltas().len(), 1);
}

#[test]
fn test_executor_creation() {
    let exec = ScriptExecutor::new();
    let mut st = exec.begin_run();
    assert!(st.take_deltas().is_empty());
}

#[test]
fn test_execute_script() {
    let mut session_store = SessionStore::new();
    let mut executor = ScriptExecutor::new();
    let session_id = session_store.create_session("test".to_string());

    let result = executor.execute_script(&session_store, session_id);
    assert!(result.is_ok());

    let deltas = result.unwrap();
    assert!(!deltas.is_empty(), "Script should generate deltas");
}

#[test]
fn test_handle_widget_change() {
    let mut session_store = SessionStore::new();
    let mut executor = ScriptExecutor::new();
    let session_id = session_store.create_session("test".to_string());

    let result = executor.handle_widget_change(&session_store, session_id, "test_widget", r#""test_value""#);
    assert!(result.is_ok());
}

#[test]
fn test_session_state_basic() {
    let mut st = St::new();

    let mut session_state: platypus::keyed::KeyedList<String> = platypus::keyed::KeyedList::new();

    let name = st.text_input("Name", "John", Some("name_key".to_string()));
    session_state.insert("name_key".to_string(), name.clone());

    assert_eq!(session_state.get("name_key"), Some(&"John".to_string()));
}

#[test]
fn test_streamlit_slider_widget() {
    let mut st = St::new();

    let volume = st.slider("Volume", 0, 100, 50, Some("volume_key".to_string()));
    assert_eq!(volume, 50);

    let opacity = st.slider("Opacity", 0, 100, 50, Some("opacity_key".to_string()));
    assert_eq!(opacity, 50);

    let deltas = st.take_deltas();
    assert_eq!(deltas.len(), 2);
}
