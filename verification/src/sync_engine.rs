//! The long-poll synchronisation state machine.
//!
//! The engine starts in the initial-sync phase, long-polling with the
//! restored cursor (or none) until one poll succeeds; it then persists the
//! returned cursor and streams: poll, dispatch the batch's events, persist
//! the new cursor, poll again. Poll failures are retried with the same
//! cursor; a persistence failure is fatal, since losing the cursor risks
//! unbounded event replay on restart.
//!
//! The machine here is the decision core: it maps the current state and the
//! outcome of the last outside operation to the next state and the next
//! operation. The surrounding process performs the operations (the network
//! long-poll, the record write, the event dispatch) and feeds the outcomes
//! back in.

use crate::session::token_view;
use vstd::prelude::*;

verus! {

/// Phase of the engine.
#[derive(Clone, Copy)]
pub enum SyncPhase {
    /// No poll has succeeded yet; events of the first batch are ignored.
    InitialSync,
    /// At least one cursor was persisted; batches are dispatched to handlers.
    Streaming,
}

/// Full state of the engine: phase and the cursor the next poll will carry.
pub struct SyncState {
    pub phase: SyncPhase,
    pub cursor: Option<String>,
}

/// Outcome of the outside operation the engine asked for last.
pub enum SyncEvent {
    /// A long-poll returned a batch and the cursor to resume from.
    PollSucceeded { next_cursor: String },
    /// A long-poll failed with a transient error.
    PollFailed,
    /// The cursor was written to the durable record.
    PersistSucceeded,
    /// The cursor could not be written to the durable record.
    PersistFailed,
}

/// The next outside operation the engine asks for.
pub enum SyncAction {
    /// Issue a long-poll with the state's cursor.
    Poll,
    /// Persist the state's cursor; the batch's events are not dispatched.
    PersistCursor,
    /// Dispatch the batch's events in order, then persist the state's cursor.
    DispatchThenPersist,
    /// Stop with a fatal error.
    Abort,
}

/// Why building the backend client failed, reduced to the variants the
/// startup policy distinguishes.
pub enum ClientBuildFailure {
    /// Server auto-discovery failed.
    AutoDiscovery,
    /// The homeserver address is no valid URL.
    BadUrl,
    /// The homeserver could not be reached.
    Http,
    /// Any other failure.
    Other,
}

/// The startup policy on a failed client build: a bad or unreachable
/// homeserver address is a configuration error, reported and fatal (the
/// process exits with code 1); any other failure is forwarded, since a
/// retry is unlikely to end differently.
pub fn build_failure_is_fatal(failure: &ClientBuildFailure) -> (r: bool)
    ensures
        r == !(failure is Other),
{
    match failure {
        ClientBuildFailure::Other => false,
        _ => true,
    }
}

/// The state at startup: initial sync, carrying the restored cursor if the
/// session record held one. The first action is always a poll.
pub fn initial_state(restored_cursor: Option<String>) -> (s: SyncState)
    ensures
        s.phase is InitialSync,
        token_view(s.cursor) == token_view(restored_cursor),
{
    SyncState { phase: SyncPhase::InitialSync, cursor: restored_cursor }
}

/// One transition of the engine. The contract enumerates every case:
/// a successful poll stores the returned cursor and asks for persistence
/// (with event dispatch first once streaming); a failed poll retries with
/// the same cursor; a successful persist moves to streaming and polls again;
/// a failed persist aborts. The cursor is monotonically replaced: once
/// present it never becomes absent.
pub fn step(state: SyncState, event: SyncEvent) -> (r: (SyncState, SyncAction))
    ensures
        event matches SyncEvent::PollSucceeded { next_cursor } ==> ({
            &&& token_view(r.0.cursor) == Some(next_cursor@)
            &&& r.0.phase == state.phase
            &&& (state.phase is InitialSync ==> r.1 is PersistCursor)
            &&& (state.phase is Streaming ==> r.1 is DispatchThenPersist)
        }),
        event is PollFailed ==> {
            &&& r.0 == state
            &&& r.1 is Poll
        },
        event is PersistSucceeded ==> {
            &&& r.0.phase is Streaming
            &&& token_view(r.0.cursor) == token_view(state.cursor)
            &&& r.1 is Poll
        },
        event is PersistFailed ==> {
            &&& r.0 == state
            &&& r.1 is Abort
        },
        state.cursor is Some ==> r.0.cursor is Some,
{
    match event {
        SyncEvent::PollSucceeded { next_cursor } => {
            let action = match state.phase {
                SyncPhase::InitialSync => SyncAction::PersistCursor,
                SyncPhase::Streaming => SyncAction::DispatchThenPersist,
            };
            (SyncState { phase: state.phase, cursor: Some(next_cursor) }, action)
        },
        SyncEvent::PollFailed => (state, SyncAction::Poll),
        SyncEvent::PersistSucceeded => (
            SyncState { phase: SyncPhase::Streaming, cursor: state.cursor },
            SyncAction::Poll,
        ),
        SyncEvent::PersistFailed => (state, SyncAction::Abort),
    }
}

} // verus!
