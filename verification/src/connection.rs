//! The per-connection handling decision. The transport work around it — one
//! bounded read, the write of the response, the flush — is the caller's I/O;
//! what to do with the callback's verdict is decided here.
use vstd::prelude::*;
use crate::content::Message;
use crate::server::ServerError;

verus! {

/// What the connection handler does once the request callback has spoken.
pub enum ConnectionAction {
    /// Write these bytes to the connection and flush it.
    Respond(Message),
    /// Write nothing and do not flush: the connection is dropped.
    Close,
}

/// Decides a connection's fate from the request callback's result: a
/// successful callback has its bytes written and flushed; a failed callback
/// closes the connection without a single written byte.
pub fn connection_action(callback_result: Result<Message, ServerError>) -> (action:
    ConnectionAction)
    ensures
        callback_result matches Ok(message) ==> action == ConnectionAction::Respond(message),
        callback_result is Err ==> action == ConnectionAction::Close,
{
    match callback_result {
        Ok(message) => ConnectionAction::Respond(message),
        Err(_) => ConnectionAction::Close,
    }
}

} // verus!
