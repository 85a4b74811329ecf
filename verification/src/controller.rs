//! Events that the node logic sends to the screen.

use vstd::prelude::*;

use crate::model::log_view_model::LogLevel;
use crate::model::message_view_model::Message;

verus! {

/// What the node logic tells the screen.
#[derive(Debug, Clone)]
pub enum LogicEvent {
    /// The set of peers changed (each peer once).
    PeerListUpdated(Vec<String>),
    /// A message arrived.
    NewMessageReceived(Message),
    /// A log line.
    Log(LogLevel, String),
}

} // verus!
