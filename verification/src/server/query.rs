//! The decision logic of the peer-search loop, as a two-state machine:
//! **Querying** (a search for a random target is in flight) and **Sleeping**
//! (waiting out the configured break time). The caller performs the searches
//! and the sleeping and feeds the outcomes back as events; every transition
//! and the report it calls for are fixed here.

use vstd::prelude::*;

verus! {

/// The state of the peer-search loop.
#[derive(Clone, Copy, Debug, PartialEq, Eq, Structural)]
pub enum QueryState {
    /// A search is in flight.
    Querying,
    /// Waiting between searches.
    Sleeping,
}

/// An outcome the loop's driver hands back.
#[derive(Clone, Debug, PartialEq, Eq)]
pub enum QueryEvent {
    /// The search finished with the found peers' identifiers.
    Completed(Vec<[u8; 32]>),
    /// The search failed with the engine's error text.
    Failed(String),
    /// The break time elapsed; carries the connected-peer count.
    SleepFinished(u64),
}

/// What the loop's driver must do next.
#[derive(Clone, Debug, PartialEq, Eq)]
pub enum QueryAction {
    /// Log the found peers, then sleep out the break time.
    ReportFound(Vec<[u8; 32]>),
    /// Log the failure as a warning, then sleep out the break time.
    WarnFailure(String),
    /// Log the connected-peer count, then issue a search for a fresh random
    /// target.
    ReportConnected(u64),
}

/// The events each state can receive: search outcomes while querying, the
/// elapsed break while sleeping.
pub open spec fn event_fits(state: QueryState, event: QueryEvent) -> bool {
    match state {
        QueryState::Querying => event is Completed || event is Failed,
        QueryState::Sleeping => event is SleepFinished,
    }
}

/// One transition of the peer-search loop. A completed search is reported
/// and the loop goes to sleep; a failed search is only warned about and the
/// loop still goes to sleep — the next cycle is the retry, the loop never
/// terminates on an error. An elapsed break reports the connected-peer count
/// and starts the next search.
pub fn query_step(state: QueryState, event: QueryEvent) -> (r: (QueryState, QueryAction))
    requires
        event_fits(state, event),
    ensures
        event matches QueryEvent::Completed(found) ==> r == (
            QueryState::Sleeping,
            QueryAction::ReportFound(found),
        ),
        event matches QueryEvent::Failed(message) ==> r == (
            QueryState::Sleeping,
            QueryAction::WarnFailure(message),
        ),
        event matches QueryEvent::SleepFinished(connected) ==> r == (
            QueryState::Querying,
            QueryAction::ReportConnected(connected),
        ),
{
    match event {
        QueryEvent::Completed(found) => (QueryState::Sleeping, QueryAction::ReportFound(found)),
        QueryEvent::Failed(message) => (QueryState::Sleeping, QueryAction::WarnFailure(message)),
        QueryEvent::SleepFinished(connected) => (
            QueryState::Querying,
            QueryAction::ReportConnected(connected),
        ),
    }
}

} // verus!
