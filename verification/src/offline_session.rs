//! Offline session lifecycle: `Opening -> Open -> Draining -> Closed`, with
//! `Aborted` reachable from any live state.  Each applied transition is
//! audited; a compare-and-set that does not apply writes nothing.
use vstd::prelude::*;

use crate::model::{OfflineSessionState, Severity};

verus! {

/// Wire name of an offline session state.
pub open spec fn session_state_wire(s: OfflineSessionState) -> Seq<char> {
    match s {
        OfflineSessionState::Opening => "OPENING"@,
        OfflineSessionState::Open => "OPEN"@,
        OfflineSessionState::Draining => "DRAINING"@,
        OfflineSessionState::Closed => "CLOSED"@,
        OfflineSessionState::Aborted => "ABORTED"@,
    }
}

impl OfflineSessionState {
    /// Wire name, as stored in the database.
    pub fn as_str(&self) -> (r: &'static str)
        ensures
            r@ == session_state_wire(*self),
    {
        match self {
            OfflineSessionState::Opening => "OPENING",
            OfflineSessionState::Open => "OPEN",
            OfflineSessionState::Draining => "DRAINING",
            OfflineSessionState::Closed => "CLOSED",
            OfflineSessionState::Aborted => "ABORTED",
        }
    }
}

/// A lifecycle operation on an existing session.
#[derive(Debug, Clone, Copy, PartialEq, Eq, Structural)]
pub enum SessionOp {
    /// Start draining the session's backlog.
    StartDrain,
    /// Close a drained session.
    Close,
    /// Abort the session from the state the caller observed.
    Abort { from: OfflineSessionState },
}

/// The compare-and-set a lifecycle operation performs and the audit row it
/// writes when the transition applies.
#[derive(Debug, Clone, Copy, PartialEq, Eq)]
pub struct SessionTransition {
    pub from: OfflineSessionState,
    pub to: OfflineSessionState,
    pub event: &'static str,
    pub severity: Severity,
}

/// The transition of a lifecycle operation.
pub fn session_transition(op: SessionOp) -> (r: SessionTransition)
    ensures
        r.from == transition_source(op),
        r.to == transition_target(op),
        match op {
            SessionOp::StartDrain => r.from == OfflineSessionState::Open && r.to == OfflineSessionState::Draining
                && r.event@ == "OFFLINE_SESSION_DRAIN_STARTED"@ && r.severity == Severity::Info,
            SessionOp::Close => r.from == OfflineSessionState::Draining && r.to == OfflineSessionState::Closed
                && r.event@ == "OFFLINE_SESSION_CLOSED"@ && r.severity == Severity::Info,
            SessionOp::Abort { from } => r.from == from && r.to == OfflineSessionState::Aborted && r.event@
                == "OFFLINE_SESSION_ABORTED"@ && r.severity == Severity::Warning,
        },
{
    match op {
        SessionOp::StartDrain => SessionTransition {
            from: OfflineSessionState::Open,
            to: OfflineSessionState::Draining,
            event: "OFFLINE_SESSION_DRAIN_STARTED",
            severity: Severity::Info,
        },
        SessionOp::Close => SessionTransition {
            from: OfflineSessionState::Draining,
            to: OfflineSessionState::Closed,
            event: "OFFLINE_SESSION_CLOSED",
            severity: Severity::Info,
        },
        SessionOp::Abort { from } => SessionTransition {
            from,
            to: OfflineSessionState::Aborted,
            event: "OFFLINE_SESSION_ABORTED",
            severity: Severity::Warning,
        },
    }
}

/// The offline session service over a database handle.
pub struct OfflineSessionService<P> {
    pub pool: P,
}

impl<P> OfflineSessionService<P> {
    /// A service over `pool`.
    pub fn new(pool: P) -> (r: Self)
        ensures
            r.pool == pool,
    {
        OfflineSessionService { pool }
    }
}

/// The source state a lifecycle operation's compare-and-set expects.
pub open spec fn transition_source(op: SessionOp) -> OfflineSessionState {
    match op {
        SessionOp::StartDrain => OfflineSessionState::Open,
        SessionOp::Close => OfflineSessionState::Draining,
        SessionOp::Abort { from } => from,
    }
}

/// The target state of a lifecycle operation.
pub open spec fn transition_target(op: SessionOp) -> OfflineSessionState {
    match op {
        SessionOp::StartDrain => OfflineSessionState::Draining,
        SessionOp::Close => OfflineSessionState::Closed,
        SessionOp::Abort { .. } => OfflineSessionState::Aborted,
    }
}

/// The lifecycle only moves forward: starting the drain leads to exactly
/// the state that closing expects, and no operation leads back to
/// `Opening` or `Open`.
pub proof fn session_lifecycle_moves_forward(op: SessionOp)
    ensures
        transition_target(SessionOp::StartDrain) == transition_source(SessionOp::Close),
        transition_target(op) != OfflineSessionState::Opening,
        transition_target(op) != OfflineSessionState::Open,
{
}

} // verus!
