//! Escalation of a `SENT` document the DPS does not know: the document
//! goes to manual reconciliation and the FN to stop mode, atomically.
use vstd::prelude::*;

use crate::model::TransitionOutcome;
use crate::text::concat;

verus! {

/// Why the escalation failed.  A database error is carried as its text.
#[derive(Debug, Clone, PartialEq, Eq)]
pub enum SentNotFoundError {
    /// The `SENT -> REQUIRES_MANUAL_RECONCILIATION` transition did not apply.
    DocNotSent(TransitionOutcome),
    /// The node-state row is missing.
    NodeStateMissing,
    Db(String),
}

/// The operator-facing text of an escalation error.
pub open spec fn sent_not_found_error_text(e: SentNotFoundError) -> Seq<char> {
    match e {
        SentNotFoundError::DocNotSent(o) => "document is not in SENT (cannot escalate to manual): "@
            + crate::reconciliation::operator_completion::transition_outcome_name(o),
        SentNotFoundError::NodeStateMissing => "node_state row missing"@,
        SentNotFoundError::Db(d) => d@,
    }
}

impl SentNotFoundError {
    /// The operator-facing text of this error.
    pub fn message(&self) -> (r: String)
        ensures
            r@ == sent_not_found_error_text(*self),
    {
        match self {
            SentNotFoundError::DocNotSent(o) => {
                let name = match o {
                    TransitionOutcome::Applied => "Applied",
                    TransitionOutcome::Forbidden => "Forbidden",
                    TransitionOutcome::Conflict => "Conflict",
                    TransitionOutcome::NotFound => "NotFound",
                };
                concat("document is not in SENT (cannot escalate to manual): ".to_string(), name)
            },
            SentNotFoundError::NodeStateMissing => "node_state row missing".to_string(),
            SentNotFoundError::Db(d) => d.clone(),
        }
    }
}

/// The check after the document transition: it must have applied (the
/// document was in `SENT`).
pub fn require_transition_applied(transition: TransitionOutcome) -> (r: Result<(), SentNotFoundError>)
    ensures
        transition == TransitionOutcome::Applied ==> r is Ok,
        transition != TransitionOutcome::Applied ==> r == Err::<(), SentNotFoundError>(
            SentNotFoundError::DocNotSent(transition),
        ),
{
    match transition {
        TransitionOutcome::Applied => Ok(()),
        _ => Err(SentNotFoundError::DocNotSent(transition)),
    }
}

/// The check after the stop-mode write: it must have found the FN's row.
pub fn require_stop_mode_set(stop_mode_set: bool) -> (r: Result<(), SentNotFoundError>)
    ensures
        stop_mode_set ==> r is Ok,
        !stop_mode_set ==> r == Err::<(), SentNotFoundError>(SentNotFoundError::NodeStateMissing),
{
    if stop_mode_set {
        Ok(())
    } else {
        Err(SentNotFoundError::NodeStateMissing)
    }
}

} // verus!
