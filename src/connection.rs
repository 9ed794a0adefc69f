//! The decisions of a client connection: what each message from the client
//! triggers, and the step that carries it out on the session.
use vstd::prelude::*;
use crate::context::St;
use crate::executor::{ScriptExecutor, consumed, demo_deltas, run_demo, seeded};
use crate::session::{SessionId, SessionStore};
use crate::state::{DeltaView, deltas_view};
use crate::wire::{deltas_json, deltas_to_json};

verus! {

/// Something that happened on a client connection.
#[derive(Debug, Clone, PartialEq)]
pub enum ClientEvent {
    /// The client connected.
    Connected,
    /// The client changed a widget; the value arrives as raw text.
    WidgetChange { key: String, raw: String },
    /// The client asked for a rerun.
    RerunRequested,
    /// The client clicked a button.
    ButtonClick { key: String },
    /// The client reported an interaction of some kind.
    Interaction { kind: String },
    /// The client closed the connection.
    Closed,
    /// The transport failed.
    TransportError,
    /// A message that could not be read.
    Unreadable,
}

/// What the server does about an event.
#[derive(Debug, Clone, PartialEq)]
pub enum SessionAction {
    /// Rerun the script and send its deltas.
    RunAndSend,
    /// Commit the widget value, rerun and send the deltas.
    ChangeAndSend { key: String, raw: String },
    /// Do nothing.
    Ignore,
    /// Remove the session and end the connection.
    RemoveAndStop,
}

/// The action each event calls for.
pub open spec fn action_of(e: ClientEvent) -> SessionAction {
    match e {
        ClientEvent::Connected => SessionAction::RunAndSend,
        ClientEvent::RerunRequested => SessionAction::RunAndSend,
        ClientEvent::ButtonClick { .. } => SessionAction::RunAndSend,
        ClientEvent::WidgetChange { key, raw } => SessionAction::ChangeAndSend { key, raw },
        ClientEvent::Interaction { .. } => SessionAction::Ignore,
        ClientEvent::Unreadable => SessionAction::Ignore,
        ClientEvent::Closed => SessionAction::RemoveAndStop,
        ClientEvent::TransportError => SessionAction::RemoveAndStop,
    }
}

/// Decide what an event triggers: a connect, a rerun request or a button
/// click reruns; a widget change commits the value and reruns; anything else
/// the client says is ignored; a closed or failed transport ends the session.
pub fn next_action(event: &ClientEvent) -> (r: SessionAction)
    ensures
        r == action_of(*event),
{
    match event {
        ClientEvent::Connected => SessionAction::RunAndSend,
        ClientEvent::RerunRequested => SessionAction::RunAndSend,
        ClientEvent::ButtonClick { .. } => SessionAction::RunAndSend,
        ClientEvent::WidgetChange { key, raw } => SessionAction::ChangeAndSend { key: key.clone(), raw: raw.clone() },
        ClientEvent::Interaction { .. } => SessionAction::Ignore,
        ClientEvent::Unreadable => SessionAction::Ignore,
        ClientEvent::Closed => SessionAction::RemoveAndStop,
        ClientEvent::TransportError => SessionAction::RemoveAndStop,
    }
}

/// A widget value as the client sent it: a string, a number or a flag as
/// such, anything else as its JSON text.
#[derive(Debug, PartialEq)]
pub enum JsonScalar {
    Text(String),
    Number(String),
    Bool(bool),
    Other(String),
}

impl Clone for JsonScalar {
    fn clone(&self) -> (r: Self)
        ensures
            r == *self,
    {
        match self {
            JsonScalar::Text(s) => JsonScalar::Text(s.clone()),
            JsonScalar::Number(t) => JsonScalar::Number(t.clone()),
            JsonScalar::Bool(b) => JsonScalar::Bool(*b),
            JsonScalar::Other(t) => JsonScalar::Other(t.clone()),
        }
    }
}

/// The raw text a widget value is committed as.
pub open spec fn raw_text_of(v: JsonScalar) -> Seq<char> {
    match v {
        JsonScalar::Text(s) => s@,
        JsonScalar::Number(t) => t@,
        JsonScalar::Bool(b) => if b {
            "true"@
        } else {
            "false"@
        },
        JsonScalar::Other(t) => t@,
    }
}

/// The raw text a widget value is committed as: a string as it is, a number
/// or a flag as its text, anything else as its JSON text.
pub fn raw_text(v: &JsonScalar) -> (r: String)
    ensures
        r@ == raw_text_of(*v),
{
    match v {
        JsonScalar::Text(s) => s.clone(),
        JsonScalar::Number(t) => t.clone(),
        JsonScalar::Bool(b) => if *b {
            "true".to_owned()
        } else {
            "false".to_owned()
        },
        JsonScalar::Other(t) => t.clone(),
    }
}

/// What to do after the first half of a step.
pub enum StepPlan {
    /// Run the script on this fresh context, then finish the step.
    Run(St),
    /// Send nothing and keep the connection.
    Skip,
    /// Send nothing and end the connection.
    Stop,
}

/// The carried values once an action has committed what it brings.
pub open spec fn committed(state: Map<Seq<char>, Seq<char>>, a: SessionAction) -> Map<Seq<char>, Seq<char>> {
    match a {
        SessionAction::ChangeAndSend { key, raw } => state.insert(key@, raw@),
        _ => state,
    }
}

/// Whether an action reruns the script.
pub open spec fn reruns(a: SessionAction) -> bool {
    a matches SessionAction::RunAndSend || a matches SessionAction::ChangeAndSend { .. }
}

/// The first half of handling an event: commit what it brings, and either
/// hand out a context seeded for the rerun, or say to skip or stop. A rerun
/// for a session that is gone is skipped and the connection kept; a closed
/// or failed transport removes the session.
pub fn begin_step(
    executor: &mut ScriptExecutor,
    store: &mut SessionStore,
    session_id: SessionId,
    event: &ClientEvent,
) -> (r: StepPlan)
    ensures
        final(executor)@ == committed(old(executor)@, action_of(*event)),
        action_of(*event) == SessionAction::RemoveAndStop ==> final(store)@ == old(store)@.remove(
            session_id.0,
        ) && r matches StepPlan::Stop,
        action_of(*event) != SessionAction::RemoveAndStop ==> final(store)@ == old(store)@,
        action_of(*event) == SessionAction::Ignore ==> r matches StepPlan::Skip,
        reruns(action_of(*event)) && !old(store)@.contains_key(session_id.0) ==> r matches StepPlan::Skip,
        reruns(action_of(*event)) && old(store)@.contains_key(session_id.0) ==> (r matches StepPlan::Run(st) && st.wf()
            && st@.widgets == seeded(final(executor)@) && st@.deltas == Seq::<DeltaView>::empty()
            && st@.next_id == 1 && st@.parent.is_none()),
{
    match next_action(event) {
        SessionAction::RemoveAndStop => {
            let _ = store.remove_session(session_id);
            StepPlan::Stop
        },
        SessionAction::Ignore => StepPlan::Skip,
        SessionAction::ChangeAndSend { key, raw } => {
            executor.record_widget_change(key.as_str(), raw.as_str());
            if store.get_session(session_id).is_ok() {
                StepPlan::Run(executor.begin_run())
            } else {
                StepPlan::Skip
            }
        },
        SessionAction::RunAndSend => {
            if store.get_session(session_id).is_ok() {
                StepPlan::Run(executor.begin_run())
            } else {
                StepPlan::Skip
            }
        },
    }
}

/// The second half of a rerun step: the JSON text of every delta the script
/// recorded, sent even when the script failed part way, and the failure to
/// report apart from them.
pub fn finish_step(executor: &mut ScriptExecutor, st: &mut St, outcome: Result<(), String>) -> (r: (String, Option<String>))
    requires
        old(st).wf(),
    ensures
        r.0@ == deltas_json(old(st)@.deltas),
        r.1 == match outcome {
            Ok(()) => None,
            Err(e) => Some(e),
        },
        final(executor)@ == consumed(old(executor)@, old(st)@.deltas),
{
    let (deltas, failure) = executor.complete_run(st, outcome);
    (deltas_to_json(&deltas), failure)
}

/// Handle one event for a session running the demo script: returns the JSON
/// text to send, if any, and whether to end the connection. A rerun sends
/// the deltas of the run; a script or session error sends nothing and keeps
/// the connection; only a closed or failed transport ends it, removing the
/// session.
pub fn step(
    executor: &mut ScriptExecutor,
    store: &mut SessionStore,
    session_id: SessionId,
    event: &ClientEvent,
) -> (r: (Option<String>, bool))
    ensures
        r.1 == (action_of(*event) == SessionAction::RemoveAndStop),
        r.1 ==> final(store)@ == old(store)@.remove(session_id.0) && r.0.is_none(),
        !r.1 ==> final(store)@ == old(store)@,
        r.0.is_some() == (reruns(action_of(*event)) && old(store)@.contains_key(session_id.0)),
        r.0.is_some() ==> r.0.unwrap()@ == deltas_json(
            demo_deltas(seeded(committed(old(executor)@, action_of(*event)))),
        ) && final(executor)@ == consumed(
            committed(old(executor)@, action_of(*event)),
            demo_deltas(seeded(committed(old(executor)@, action_of(*event)))),
        ),
        r.0.is_none() ==> final(executor)@ == committed(old(executor)@, action_of(*event)),
{
    match begin_step(executor, store, session_id, event) {
        StepPlan::Run(st) => {
            let mut st = st;
            let outcome = run_demo(&mut st);
            let (text, _) = finish_step(executor, &mut st, outcome);
            (Some(text), false)
        },
        StepPlan::Skip => (None, false),
        StepPlan::Stop => (None, true),
    }
}

} // verus!
