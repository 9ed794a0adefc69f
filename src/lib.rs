//! A reactive rerun engine for data apps.
//!
//! A script declares its UI as a linear sequence of calls on a run context
//! ([`context::St`]). Each rerun replays the whole script against a fresh
//! context seeded with the widget values carried from earlier interactions
//! ([`executor::ScriptExecutor`]); the context records the declared elements
//! and an ordered log of deltas ([`state::DeltaGenerator`]), which
//! [`wire::deltas_to_json`] encodes for the client. Sessions live in a
//! concurrent store ([`session::SessionStore`]).

pub mod element;
pub mod widget;
pub mod text;
pub mod number;
pub mod state;
pub mod error;
pub mod context;
pub mod keyed;
pub mod session;
pub mod executor;
pub mod base;
pub mod traits;
pub mod display;
pub mod input;
pub mod feedback;
pub mod layout;
pub mod widgets;
pub mod choices;
pub mod responsive;
pub mod themeable;
pub mod factory;
pub mod navigation;
pub mod clock;
pub mod cache;
pub mod secrets;
pub mod config;
pub mod wire;
pub mod components;
pub mod connection;
pub mod binding;
