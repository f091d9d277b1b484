//! Ingress-inbox reaper: terminalise inbox rows left `NEW` / `PROCESSING`
//! past the stale threshold, according to what became of their document.
//!
//! A row whose document is still in flight is left alone; an accepted
//! document converges the row to `DONE`; a terminally failed document, or
//! no document at all, rejects it.  The rejection is a compare-and-set on
//! the status the row was read with, so a row that moved meanwhile is
//! counted as raced.
use vstd::prelude::*;

use crate::model::{docstate_wire, DocState, Severity};
use crate::text::{concat, hex_lower, hex_lower_spec, nat_decimal, u64_decimal};
use crate::time::Duration;

verus! {

/// Seconds after which an unfinished inbox row counts as stale.
pub const REAPER_STALE_THRESHOLD_SECS: u64 = 900;

/// Seconds between two reaper sweeps.
pub const REAPER_TICK_INTERVAL_SECS: u64 = 300;

/// Counts of one sweep.
#[derive(Debug, Clone, Copy, PartialEq, Eq, Structural)]
pub struct ReaperSummary {
    pub scanned: usize,
    pub no_doc_terminalised: usize,
    pub accepted_converged_done: usize,
    pub failed_terminalised: usize,
    pub in_flight_skipped: usize,
    pub raced: usize,
}

impl Default for ReaperSummary {
    /// The all-zero summary.
    fn default() -> (s: ReaperSummary)
        ensures
            s == (ReaperSummary {
                scanned: 0,
                no_doc_terminalised: 0,
                accepted_converged_done: 0,
                failed_terminalised: 0,
                in_flight_skipped: 0,
                raced: 0,
            }),
    {
        ReaperSummary {
            scanned: 0,
            no_doc_terminalised: 0,
            accepted_converged_done: 0,
            failed_terminalised: 0,
            in_flight_skipped: 0,
            raced: 0,
        }
    }
}

/// The age filter of a sweep, as an SQLite `datetime('now', ?)` modifier:
/// `-{secs} seconds` for a minimum age, `+0 seconds` for none.
pub fn sweep_age_modifier(min_age: Option<Duration>) -> (r: String)
    ensures
        r@ == (match min_age {
            Some(d) => "-"@ + nat_decimal(d.secs as nat) + " seconds"@,
            None => "+0 seconds"@,
        }),
{
    match min_age {
        Some(d) => {
            let s = concat("-".to_string(), u64_decimal(d.as_secs()).as_str());
            concat(s, " seconds")
        },
        None => "+0 seconds".to_string(),
    }
}

/// What became of the document of an inbox row, as the ingress replay
/// rules classify its state.
#[derive(Debug, Clone, Copy, PartialEq, Eq, Structural)]
pub struct DocTerminalOutcome {
    pub state: DocState,
    /// The document was accepted.
    pub accepted: bool,
    /// The document failed terminally.
    pub terminally_failed: bool,
}

/// Whether a document state counts as accepted by the ingress replay
/// rules: acknowledged online (`ACK`) or locally (`OFFLINE_LOCAL_ACK`).
pub open spec fn accepted_state(state: DocState) -> bool {
    state == DocState::Ack || state == DocState::OfflineLocalAck
}

/// Whether a document state is a terminal failure: rejected, cancelled
/// or handed to manual reconciliation.
pub open spec fn terminally_failed_state(state: DocState) -> bool {
    state == DocState::Rejected || state == DocState::Cancelled || state
        == DocState::RequiresManualReconciliation
}

/// Classify the state of an inbox row's document; any other state is in
/// flight and belongs to reconciliation.
pub fn classify_doc_state(state: DocState) -> (r: DocTerminalOutcome)
    ensures
        r == (DocTerminalOutcome {
            state,
            accepted: accepted_state(state),
            terminally_failed: terminally_failed_state(state),
        }),
{
    let accepted = match state {
        DocState::Ack | DocState::OfflineLocalAck => true,
        _ => false,
    };
    let terminally_failed = match state {
        DocState::Rejected | DocState::Cancelled | DocState::RequiresManualReconciliation => true,
        _ => false,
    };
    DocTerminalOutcome { state, accepted, terminally_failed }
}

/// How a stale row is terminalised.
#[derive(Debug, Clone, Copy, PartialEq, Eq)]
pub struct ReapAction {
    /// Converge to `DONE` (else reject).
    pub to_done: bool,
    pub event: &'static str,
    pub severity: Severity,
    pub doc_state: Option<DocState>,
}

/// Whether a document is still in flight (neither accepted nor failed).
pub open spec fn in_flight(doc: Option<DocTerminalOutcome>) -> bool {
    match doc {
        Some(o) => !o.accepted && !o.terminally_failed,
        None => false,
    }
}

/// The reap action for a row whose document is `doc` (`None`: no document);
/// `None` when the document is still in flight and the row is skipped.
pub fn reap_action(doc: Option<DocTerminalOutcome>) -> (r: Option<ReapAction>)
    ensures
        in_flight(doc) <==> r is None,
        match (doc, r) {
            (Some(o), Some(a)) => if o.accepted {
                a.to_done && a.event@ == "INBOX_REAPER_ACCEPTED_CONVERGED_DONE"@ && a.severity
                    == Severity::Warning && a.doc_state == Some(o.state)
            } else {
                !a.to_done && a.event@ == "INBOX_REAPER_FAILED_DOC_TERMINALISED"@ && a.severity
                    == Severity::Warning && a.doc_state == Some(o.state)
            },
            (None, Some(a)) => !a.to_done && a.event@ == "INBOX_REAPER_NO_DOC_TERMINALISED"@
                && a.severity == Severity::Critical && a.doc_state is None,
            _ => true,
        },
{
    match doc {
        Some(o) => {
            if !o.accepted && !o.terminally_failed {
                None
            } else if o.accepted {
                Some(
                    ReapAction {
                        to_done: true,
                        event: "INBOX_REAPER_ACCEPTED_CONVERGED_DONE",
                        severity: Severity::Warning,
                        doc_state: Some(o.state),
                    },
                )
            } else {
                Some(
                    ReapAction {
                        to_done: false,
                        event: "INBOX_REAPER_FAILED_DOC_TERMINALISED",
                        severity: Severity::Warning,
                        doc_state: Some(o.state),
                    },
                )
            }
        },
        None => Some(
            ReapAction {
                to_done: false,
                event: "INBOX_REAPER_NO_DOC_TERMINALISED",
                severity: Severity::Critical,
                doc_state: None,
            },
        ),
    }
}

/// The status write that terminalises a row.
#[derive(Debug, Clone, Copy, PartialEq, Eq, Structural)]
pub enum ReapMark {
    /// Mark `DONE`.
    Done,
    /// Reject, provided the row is still `NEW`.
    RejectIfNew,
    /// Reject, provided the row is still `PROCESSING`.
    RejectIfProcessing,
}

/// The status write for an action on a row read with `prior_status`.
pub fn reap_mark(to_done: bool, prior_status: &str) -> (r: ReapMark)
    ensures
        r == (if to_done {
            ReapMark::Done
        } else if prior_status@ == "NEW"@ {
            ReapMark::RejectIfNew
        } else {
            ReapMark::RejectIfProcessing
        }),
{
    let new = "NEW".to_string();
    if to_done {
        ReapMark::Done
    } else if prior_status.to_string().eq(&new) {
        ReapMark::RejectIfNew
    } else {
        ReapMark::RejectIfProcessing
    }
}

/// The audit payload of a reaped row.
pub open spec fn reap_payload_of(request_id: Seq<u8>, prior_status: Seq<char>, doc_state: Option<DocState>) -> Seq<
    char,
> {
    "{\"request_id\":\""@ + hex_lower_spec(request_id) + "\",\"prior_status\":\""@ + prior_status
        + "\",\"doc_state\":"@ + match doc_state {
        Some(d) => "\""@ + docstate_wire(d) + "\""@,
        None => "null"@,
    } + "}"@
}

/// The audit payload of a reaped row (the prior status is written as read).
pub fn reap_payload(request_id: &[u8; 16], prior_status: &str, doc_state: Option<DocState>) -> (r: String)
    ensures
        r@ == reap_payload_of(request_id@, prior_status@, doc_state),
{
    let s = concat("{\"request_id\":\"".to_string(), hex_lower(request_id).as_str());
    let s = concat(s, "\",\"prior_status\":\"");
    let s = concat(s, prior_status);
    let s = concat(s, "\",\"doc_state\":");
    let s = match doc_state {
        Some(d) => {
            let s = concat(s, "\"");
            let s = concat(s, d.as_str());
            concat(s, "\"")
        },
        None => concat(s, "null"),
    };
    concat(s, "}")
}

/// Number of rows a summary has classified.
pub open spec fn classified_total(s: ReaperSummary) -> int {
    s.no_doc_terminalised + s.accepted_converged_done + s.failed_terminalised + s.in_flight_skipped
        + s.raced
}

/// `s` after classifying one row whose document is `doc` and whose status
/// write matched a row iff `marked` (ignored for an in-flight document,
/// which gets no write).
pub open spec fn row_recorded(s: ReaperSummary, doc: Option<DocTerminalOutcome>, marked: bool) -> ReaperSummary {
    if in_flight(doc) {
        ReaperSummary { in_flight_skipped: (s.in_flight_skipped + 1) as usize, ..s }
    } else if !marked {
        ReaperSummary { raced: (s.raced + 1) as usize, ..s }
    } else {
        match doc {
            None => ReaperSummary { no_doc_terminalised: (s.no_doc_terminalised + 1) as usize, ..s },
            Some(o) => if o.accepted {
                ReaperSummary { accepted_converged_done: (s.accepted_converged_done + 1) as usize, ..s }
            } else {
                ReaperSummary { failed_terminalised: (s.failed_terminalised + 1) as usize, ..s }
            },
        }
    }
}

impl ReaperSummary {
    /// Count one classified row.
    pub fn record_row(&mut self, doc: Option<DocTerminalOutcome>, marked: bool)
        requires
            classified_total(*old(self)) < usize::MAX,
        ensures
            *final(self) == row_recorded(*old(self), doc, marked),
    {
        let skip = match doc {
            Some(o) => !o.accepted && !o.terminally_failed,
            None => false,
        };
        if skip {
            self.in_flight_skipped = self.in_flight_skipped + 1;
        } else if !marked {
            self.raced = self.raced + 1;
        } else {
            match doc {
                None => self.no_doc_terminalised = self.no_doc_terminalised + 1,
                Some(o) => {
                    if o.accepted {
                        self.accepted_converged_done = self.accepted_converged_done + 1;
                    } else {
                        self.failed_terminalised = self.failed_terminalised + 1;
                    }
                },
            }
        }
    }
}

/// Every classified row lands in exactly one counter; `scanned` is left to
/// the count of rows read.
pub proof fn each_row_counted_once(s: ReaperSummary, doc: Option<DocTerminalOutcome>, marked: bool)
    requires
        classified_total(s) < usize::MAX,
    ensures
        classified_total(row_recorded(s, doc, marked)) == classified_total(s) + 1,
        row_recorded(s, doc, marked).scanned == s.scanned,
{
}

} // verus!
