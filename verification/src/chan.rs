//! Typed clients for the two bounded channels. Both channels are created at
//! startup and their endpoints passed explicitly to whoever sends on them;
//! each client wraps one sending end.
//!
//! The downstream channel (control to presentation) is bounded at capacity
//! one on purpose: a slow presentation layer stalls the sender instead of
//! letting the UI fall arbitrarily far behind. The upstream channel
//! (presentation to control) is bounded generously so that no cancel or
//! close intent is dropped under load.

use vstd::prelude::*;

use crate::task::AppState;
use crate::task::EngineEvent;

verus! {

#[verifier::external_type_specification]
#[verifier::external_body]
#[verifier::reject_recursive_types(T)]
pub struct ExSender<T>(tokio::sync::mpsc::Sender<T>);

/// Sending end of the downstream channel: state values the presentation
/// layer is to render.
pub struct StateSender {
    sender: tokio::sync::mpsc::Sender<AppState>,
}

impl StateSender {
    /// Wrap the sending end of the downstream channel.
    pub fn new(sender: tokio::sync::mpsc::Sender<AppState>) -> StateSender {
        StateSender { sender }
    }

    /// Relies on tokio's `mpsc::Sender::blocking_send`: the value is
    /// enqueued in FIFO order unless the receiving end is gone, in which
    /// case the error hands the value back. It panics when called from
    /// inside an async context, so only the UI toolkit's own threads call
    /// this; under backpressure it briefly stalls that thread, which the
    /// capacity-one bound makes deliberate.
    #[verifier::external_body]
    pub fn send_blocking(&self, state: AppState) -> (r: Result<(), AppState>)
        ensures
            r matches Err(s) ==> s == state,
    {
        match self.sender.blocking_send(state) {
            Ok(()) => Ok(()),
            Err(e) => Err(e.0),
        }
    }
}

/// Sending end of the upstream channel: events for the task engine, most of
/// them user intents.
pub struct IntentSender {
    sender: tokio::sync::mpsc::Sender<EngineEvent>,
}

impl IntentSender {
    /// Wrap the sending end of the upstream channel.
    pub fn new(sender: tokio::sync::mpsc::Sender<EngineEvent>) -> IntentSender {
        IntentSender { sender }
    }

    /// Relies on tokio's `mpsc::Sender::blocking_send`, as
    /// `StateSender::send_blocking` does.
    #[verifier::external_body]
    pub fn send_blocking(&self, ev: EngineEvent) -> (r: Result<(), EngineEvent>)
        ensures
            r matches Err(e) ==> e == ev,
    {
        match self.sender.blocking_send(ev) {
            Ok(()) => Ok(()),
            Err(e) => Err(e.0),
        }
    }

    /// Hand a state value to the engine as a user intent.
    pub fn send_intent(&self, state: AppState) -> (r: Result<(), EngineEvent>)
        ensures
            r matches Err(e) ==> e == EngineEvent::Intent(state),
    {
        self.send_blocking(EngineEvent::Intent(state))
    }
}

} // verus!
