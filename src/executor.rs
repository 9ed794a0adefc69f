//! The rerun orchestrator: carries raw widget values from one run to the
//! next, seeds each run from them and hands the run's deltas on.
use vstd::prelude::*;
use crate::context::{St, clicked, effective_key, lookup, resolved_key, text_or};
use crate::element::{ElementId, ElementKind};
use crate::keyed::KeyedList;
use crate::session::{SessionId, SessionStore};
use crate::state::{Delta, DeltaView, deltas_view};
use crate::text::joined;
use crate::widget::{WidgetValue, WidgetValueView};

verus! {

/// The widget store a run is seeded with: each carried raw text, as text.
/// Each widget reads it by its own type when it is declared.
pub open spec fn seeded(state: Map<Seq<char>, Seq<char>>) -> Map<Seq<char>, WidgetValueView> {
    Map::new(|k: Seq<char>| state.contains_key(k), |k: Seq<char>| WidgetValueView::Text(state[k]))
}

/// The key a declared button reads its click from, if the delta declares one.
pub open spec fn button_key(d: DeltaView) -> Option<Seq<char>> {
    match d {
        DeltaView::AddElement { element: ElementKind::Button { label, key }, .. } => Some(
            resolved_key("button_"@, label, key),
        ),
        _ => None,
    }
}

/// The snapshot left after a run: each button the run declared has its
/// click consumed.
pub open spec fn consumed(state: Map<Seq<char>, Seq<char>>, deltas: Seq<DeltaView>) -> Map<Seq<char>, Seq<char>>
    decreases deltas.len(),
{
    if deltas.len() == 0 {
        state
    } else {
        let rest = consumed(state, deltas.drop_last());
        match button_key(deltas.last()) {
            Some(k) => rest.remove(k),
            None => rest,
        }
    }
}

/// A button declared by a run has its click consumed by that run.
pub proof fn lemma_consumed_removes(state: Map<Seq<char>, Seq<char>>, run: Seq<DeltaView>, idx: int, key: Seq<char>)
    requires
        0 <= idx < run.len(),
        button_key(run[idx]) == Some(key),
    ensures
        !consumed(state, run).contains_key(key),
    decreases run.len(),
{
    if idx < run.len() - 1 {
        lemma_consumed_removes(state, run.drop_last(), idx, key);
    }
}

/// Keys no button of a run reads keep their values.
pub proof fn lemma_consumed_keeps(state: Map<Seq<char>, Seq<char>>, run: Seq<DeltaView>, key: Seq<char>)
    requires
        forall|i: int| 0 <= i < run.len() ==> button_key(#[trigger] run[i]) != Some(key),
    ensures
        consumed(state, run).contains_key(key) == state.contains_key(key),
        state.contains_key(key) ==> consumed(state, run)[key] == state[key],
    decreases run.len(),
{
    if run.len() > 0 {
        lemma_consumed_keeps(state, run.drop_last(), key);
        assert(run.last() == run[run.len() - 1]);
    }
}

/// A click is a pulse: after the text "true" arrives for a button's key,
/// the next run reports the click; once that run has declared the button,
/// the run after it reports no click unless a new one arrives.
pub proof fn lemma_button_pulse(
    state: Map<Seq<char>, Seq<char>>,
    key: Seq<char>,
    run: Seq<DeltaView>,
    idx: int,
)
    requires
        0 <= idx < run.len(),
        button_key(run[idx]) == Some(key),
    ensures
        clicked(seeded(state.insert(key, "true"@)), key),
        !clicked(seeded(consumed(state.insert(key, "true"@), run)), key),
{
    lemma_consumed_removes(state.insert(key, "true"@), run, idx, key);
}

/// The deltas of the demo script, run on a fresh context seeded with `w`.
pub open spec fn demo_deltas(w: Map<Seq<char>, WidgetValueView>) -> Seq<DeltaView> {
    let name = text_or(lookup(w, "name_input"@), "World"@);
    let base = seq![
        DeltaView::AddElement { id: ElementId(1), element: ElementKind::Heading { value: "Platypus Demo"@, level: 1 }, parent_id: None },
        DeltaView::AddElement { id: ElementId(2), element: ElementKind::Text { value: "Welcome to Platypus!"@ }, parent_id: None },
        DeltaView::AddElement { id: ElementId(3), element: ElementKind::TextInput { label: "Enter your name"@, value: "World"@, key: Some("name_input"@) }, parent_id: None },
        DeltaView::AddElement { id: ElementId(4), element: ElementKind::Text { value: "Hello, "@ + name + "!"@ }, parent_id: None },
        DeltaView::AddElement { id: ElementId(5), element: ElementKind::Button { label: "Click me!"@, key: Some("demo_button"@) }, parent_id: None },
    ];
    if clicked(w, "demo_button"@) {
        base.push(DeltaView::AddElement { id: ElementId(6), element: ElementKind::Success { message: "Button clicked!"@ }, parent_id: None })
    } else {
        base
    }
}

/// The demo script: a title, a greeting that follows a name input, and a
/// button that shows a message on the run its click triggers.
pub fn run_demo(st: &mut St) -> (r: Result<(), String>)
    requires
        old(st).wf(),
        old(st)@.next_id == 1,
        old(st)@.deltas == Seq::<DeltaView>::empty(),
        old(st)@.parent.is_none(),
    ensures
        final(st).wf(),
        r.is_ok(),
        final(st)@.deltas == demo_deltas(old(st)@.widgets),
        final(st)@.widgets == old(st)@.widgets,
{
    st.title("Platypus Demo");
    st.write("Welcome to Platypus!");
    let name = st.text_input("Enter your name", "World", Some("name_input".to_owned()));
    let greeting = joined(joined("Hello, ", name.as_str()).as_str(), "!");
    st.write(greeting.as_str());
    let pressed = st.button("Click me!", Some("demo_button".to_owned()));
    if pressed {
        st.success("Button clicked!");
    }
    proof {
        reveal_strlit("name_input");
        reveal_strlit("text_input_");
    }
    assert(final(st)@.deltas =~= demo_deltas(old(st)@.widgets));
    Ok(())
}

/// Replaying with no change of widget state gives the same deltas: when no
/// click is pending, the run that follows a run of the demo script, with
/// nothing arriving in between, records a delta sequence identical to the
/// first, element for element and in the same order, ids restarting at 1.
pub proof fn lemma_replay_identical(state: Map<Seq<char>, Seq<char>>)
    requires
        !clicked(seeded(state), "demo_button"@),
    ensures
        demo_deltas(seeded(consumed(state, demo_deltas(seeded(state))))) == demo_deltas(seeded(state)),
{
    let run = demo_deltas(seeded(state));
    let after = consumed(state, run);
    reveal_strlit("demo_button");
    reveal_strlit("name_input");
    assert("name_input"@ != "demo_button"@) by {
        assert("name_input"@[0] != "demo_button"@[0]);
    }
    assert(button_key(run[4]) == Some("demo_button"@));
    lemma_consumed_removes(state, run, 4, "demo_button"@);
    assert forall|i: int| 0 <= i < run.len() implies button_key(#[trigger] run[i]) != Some("name_input"@) by {
    }
    lemma_consumed_keeps(state, run, "name_input"@);
    assert(lookup(seeded(after), "name_input"@) == lookup(seeded(state), "name_input"@));
    assert(!clicked(seeded(after), "demo_button"@));
}

/// Runs scripts, carrying raw widget values from one run to the next.
pub struct ScriptExecutor {
    widget_state: KeyedList<String>,
}

impl View for ScriptExecutor {
    type V = Map<Seq<char>, Seq<char>>;

    closed spec fn view(&self) -> Map<Seq<char>, Seq<char>> {
        self.widget_state@.map_values(|s: String| s@)
    }
}

impl ScriptExecutor {
    /// An executor with no carried values.
    pub fn new() -> (r: ScriptExecutor)
        ensures
            r@ == Map::<Seq<char>, Seq<char>>::empty(),
    {
        let r = ScriptExecutor { widget_state: KeyedList::new() };
        assert(r@ =~= Map::<Seq<char>, Seq<char>>::empty());
        r
    }

    /// Commit an incoming raw value for a widget key; a later value for the
    /// same key replaces an earlier one.
    pub fn record_widget_change(&mut self, widget_key: &str, value: &str)
        ensures
            final(self)@ == old(self)@.insert(widget_key@, value@),
    {
        self.widget_state.insert(widget_key.to_owned(), value.to_owned());
        assert(self@ =~= old(self)@.insert(widget_key@, value@));
    }

    /// A fresh context for a run, seeded with the carried values.
    pub fn begin_run(&self) -> (r: St)
        ensures
            r.wf(),
            r@.widgets == seeded(self@),
            r@.elements == Map::<u64, ElementKind>::empty(),
            r@.deltas == Seq::<DeltaView>::empty(),
            r@.next_id == 1,
            r@.parent.is_none(),
            r@.scopes == Seq::<Option<ElementId>>::empty(),
    {
        let mut st = St::new();
        let n = self.widget_state.len();
        let mut i: usize = 0;
        while i < n
            invariant
                st.wf(),
                i <= n,
                n == self.widget_state@.len(),
                self.widget_state.key_order().len() == n,
                forall|j: int| 0 <= j < n ==> self.widget_state@.contains_key(#[trigger] self.widget_state.key_order()[j]),
                forall|j: int|
                    0 <= j < i ==> st@.widgets.contains_key(#[trigger] self.widget_state.key_order()[j])
                        && st@.widgets[self.widget_state.key_order()[j]] == seeded(self@)[self.widget_state.key_order()[j]],
                forall|k: Seq<char>| #[trigger] st@.widgets.contains_key(k) ==> self@.contains_key(k) && st@.widgets[k] == seeded(self@)[k],
                st@.elements == Map::<u64, ElementKind>::empty(),
                st@.deltas == Seq::<DeltaView>::empty(),
                st@.next_id == 1,
                st@.parent.is_none(),
                st@.scopes == Seq::<Option<ElementId>>::empty(),
            decreases n - i,
        {
            let (k, v) = self.widget_state.entry_at(i);
            st.set_widget(k.clone(), WidgetValue::String(v.clone()));
            i = i + 1;
        }
        assert(st@.widgets =~= seeded(self@));
        st
    }

    /// Take the run's deltas and consume the clicks of the buttons it
    /// declared.
    pub fn finish_run(&mut self, st: &mut St) -> (r: Vec<Delta>)
        requires
            old(st).wf(),
        ensures
            final(st).wf(),
            deltas_view(r@) == old(st)@.deltas,
            final(st)@.deltas == Seq::<DeltaView>::empty(),
            final(self)@ == consumed(old(self)@, old(st)@.deltas),
    {
        let deltas = st.take_deltas();
        let mut i: usize = 0;
        while i < deltas.len()
            invariant
                i <= deltas@.len(),
                self@ == consumed(old(self)@, deltas_view(deltas@).subrange(0, i as int)),
            decreases deltas@.len() - i,
        {
            assert(deltas_view(deltas@).subrange(0, i + 1).drop_last() =~= deltas_view(deltas@).subrange(0, i as int));
            match &deltas[i] {
                Delta::AddElement { element: crate::element::ElementType::Button { label, key }, .. } => {
                    let k = effective_key("button_", label.as_str(), key);
                    let ghost before = self@;
                    self.widget_state.remove(k.as_str());
                    assert(self@ =~= before.remove(k@));
                },
                _ => {},
            }
            i = i + 1;
        }
        assert(deltas_view(deltas@).subrange(0, deltas@.len() as int) =~= deltas_view(deltas@));
        deltas
    }

    /// End a run whose script reported `outcome`: the deltas recorded up to
    /// a failure are delivered all the same, and the failure is handed back
    /// to be reported apart from them.
    pub fn complete_run(&mut self, st: &mut St, outcome: Result<(), String>) -> (r: (Vec<Delta>, Option<String>))
        requires
            old(st).wf(),
        ensures
            final(st).wf(),
            deltas_view(r.0@) == old(st)@.deltas,
            r.1 == match outcome {
                Ok(()) => None,
                Err(e) => Some(e),
            },
            final(self)@ == consumed(old(self)@, old(st)@.deltas),
    {
        let deltas = self.finish_run(st);
        match outcome {
            Ok(()) => (deltas, None),
            Err(e) => (deltas, Some(e)),
        }
    }

    /// Run the demo script for a session: seeded from the carried values,
    /// with the session required to exist.
    pub fn execute_script(&mut self, store: &SessionStore, session_id: SessionId) -> (r: Result<Vec<Delta>, String>)
        ensures
            r.is_ok() == store@.contains_key(session_id.0),
            r.is_ok() ==> deltas_view(r.unwrap()@) == demo_deltas(seeded(old(self)@))
                && final(self)@ == consumed(old(self)@, demo_deltas(seeded(old(self)@))),
            !r.is_ok() ==> final(self)@ == old(self)@,
    {
        match store.get_session(session_id) {
            Ok(_) => {},
            Err(e) => {
                return Err(e.message());
            },
        }
        let mut st = self.begin_run();
        let outcome = run_demo(&mut st);
        let (deltas, _) = self.complete_run(&mut st, outcome);
        Ok(deltas)
    }

    /// Commit an incoming raw value, then run the demo script seeded from the
    /// carried values with that one key replaced.
    pub fn handle_widget_change(
        &mut self,
        store: &SessionStore,
        session_id: SessionId,
        widget_key: &str,
        value: &str,
    ) -> (r: Result<Vec<Delta>, String>)
        ensures
            r.is_ok() == store@.contains_key(session_id.0),
            r.is_ok() ==> deltas_view(r.unwrap()@) == demo_deltas(seeded(old(self)@.insert(widget_key@, value@)))
                && final(self)@ == consumed(
                old(self)@.insert(widget_key@, value@),
                demo_deltas(seeded(old(self)@.insert(widget_key@, value@))),
            ),
            !r.is_ok() ==> final(self)@ == old(self)@.insert(widget_key@, value@),
    {
        self.record_widget_change(widget_key, value);
        self.execute_script(store, session_id)
    }
}

impl Default for ScriptExecutor {
    fn default() -> (r: ScriptExecutor)
        ensures
            r@ == Map::<Seq<char>, Seq<char>>::empty(),
    {
        ScriptExecutor::new()
    }
}

} // verus!
