//! The sync poller.
//!
//! A background synchronization task is fire-and-forget: it is observed
//! only through this non-blocking, three-state progress report, polled by
//! the host at any cadence.  The poller never waits for the task; it only
//! renders the status the engine reports at the moment of the call.  Once a
//! finished task's result has been observed the engine tracks no task, so a
//! later poll reports `NoHandle` again rather than staying `Ready`.

use vstd::prelude::*;
use vstd::string::StringExecFns;

use crate::errors::BoundaryError;
use crate::errors::not_initialized_text;
use crate::session::SessionSlot;

verus! {

/// How a finished synchronization task ended: a success summary, or the
/// failure reason.
#[derive(Debug)]
pub enum SyncOutcome {
    Success(String),
    Failure(String),
}

/// The three-state progress report of the background synchronization task.
#[derive(Debug)]
pub enum PollReport {
    /// No task has been launched for the current session.
    NoHandle,
    /// A task exists and has not yet produced a final result.
    NotReady,
    /// The task has finished with the given outcome.
    Ready(SyncOutcome),
}

/// The structured success report a finished task's summary is rendered as.
/// Defined by the `json` crate's pretty printer, through
/// `render_sync_success`.
pub uninterp spec fn sync_report_of(summary: Seq<char>) -> Seq<char>;

/// Relies on the `json` crate (`JsonValue::insert` and `pretty`): renders
/// the object mapping `sync_complete` to the summary, pretty-printed with
/// two-space indentation — a pure function of the summary text.
#[verifier::external_body]
fn render_sync_success(summary: &String) -> (r: String)
    ensures
        r@ == sync_report_of(summary@),
{
    let mut report = json::JsonValue::new_object();
    let _ = report.insert("sync_complete", summary.as_str());
    report.pretty(2)
}

/// Renders one poll of the background synchronization task, without ever
/// blocking on it.
///
/// The slot is checked first: with no session installed the result is the
/// fixed error string.  Otherwise `report` is the task status the engine
/// observes at this instant, and each status is rendered exactly: no task
/// and not-yet-ready as their fixed strings, a finished task as the
/// structured success report or as a flattened failure — so the reported
/// success or failure always matches the task's actual outcome.
pub fn poll_sync(slot: &mut SessionSlot, report: PollReport) -> (r: String)
    ensures
        final(slot)@ == old(slot)@,
        old(slot)@ is None ==> r@ == not_initialized_text(),
        old(slot)@ is Some ==> {
            &&& (report is NoHandle ==> r@ == "Sync task has not been launched."@)
            &&& (report is NotReady ==> r@ == "Sync task is not complete."@)
            &&& (report matches PollReport::Ready(SyncOutcome::Success(s)) ==> r@ == sync_report_of(
                s@,
            ))
            &&& (report matches PollReport::Ready(SyncOutcome::Failure(d)) ==> r@ == "Error: "@
                + d@)
        },
{
    if !slot.is_initialized() {
        return BoundaryError::SessionNotInitialized.render();
    }
    match report {
        PollReport::NoHandle => String::from_str("Sync task has not been launched."),
        PollReport::NotReady => String::from_str("Sync task is not complete."),
        PollReport::Ready(SyncOutcome::Success(summary)) => render_sync_success(&summary),
        PollReport::Ready(SyncOutcome::Failure(reason)) => BoundaryError::EngineOperationFailed(
            reason,
        ).render(),
    }
}

} // verus!
