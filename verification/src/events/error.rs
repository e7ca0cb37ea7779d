//! What can go wrong with one message or one connection.

use vstd::prelude::*;

verus! {

#[derive(Clone, Copy, Debug, PartialEq, Eq, Structural)]
pub enum Error {
    /// A payload that does not decode to an event.
    Deserialize,
    /// A control frame that carries no event.
    BadMessageType,
    /// The peer asked to close the connection.
    CloseRequested,
    /// A webview did not take a script.
    EvaluateScript,
}

} // verus!
