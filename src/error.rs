//! Errors of the library.
use vstd::prelude::*;
use crate::text::joined;

verus! {

/// An error of the library, with its message.
#[derive(Debug, PartialEq)]
pub enum Error {
    /// No session has the given id.
    SessionNotFound(String),
    /// No widget has the given key.
    WidgetNotFound(String),
    /// A value does not suit the widget it is meant for.
    InvalidWidgetValue(String),
    /// The script reported a failure.
    ScriptExecutionError(String),
    /// An element was built or changed with invalid data.
    StateError(String),
    /// Anything else.
    Internal(String),
}

impl Error {
    /// A state error with the given message.
    pub fn state(msg: &str) -> (r: Error)
        ensures
            r matches Error::StateError(m) && m@ == msg@,
    {
        Error::StateError(msg.to_owned())
    }

    /// The message, prefixed by what kind of error it is.
    pub fn message(&self) -> (r: String)
        ensures
            r@ == match self {
                Error::SessionNotFound(m) => "Session not found: "@ + m@,
                Error::WidgetNotFound(m) => "Widget not found: "@ + m@,
                Error::InvalidWidgetValue(m) => "Invalid widget value: "@ + m@,
                Error::ScriptExecutionError(m) => "Script execution error: "@ + m@,
                Error::StateError(m) => "State error: "@ + m@,
                Error::Internal(m) => "Internal error: "@ + m@,
            },
    {
        match self {
            Error::SessionNotFound(m) => joined("Session not found: ", m.as_str()),
            Error::WidgetNotFound(m) => joined("Widget not found: ", m.as_str()),
            Error::InvalidWidgetValue(m) => joined("Invalid widget value: ", m.as_str()),
            Error::ScriptExecutionError(m) => joined("Script execution error: ", m.as_str()),
            Error::StateError(m) => joined("State error: ", m.as_str()),
            Error::Internal(m) => joined("Internal error: ", m.as_str()),
        }
    }
}

} // verus!
