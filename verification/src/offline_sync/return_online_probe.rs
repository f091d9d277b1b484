//! Return-online detection: the decisions of one probe tick for one FN.
//!
//! A tick reads the node mode, and only an `Offline` node is probed with
//! the read-only `statusRro` call.  `StatusSnapshot::online == true` is the
//! single success predicate; success then flips the mode
//! `Offline -> GoingOnline` with a compare-and-set on `mode = 'OFFLINE'`.
//! The orchestrator performs the reads, the DPS call and the write, and
//! hands each result to the functions below, which decide what follows.
use vstd::prelude::*;

use crate::model::{AuthorizationKind, CheckSignBlob, DpsError, NodeMode, Severity, StatusSnapshot};

verus! {

/// Stable audit class of a DPS error (`dps_error_class` in probe-failure
/// audit payloads).
pub open spec fn dps_error_class_of(err: DpsError) -> Seq<char> {
    match err {
        DpsError::Transport(_) => "Transport"@,
        DpsError::RemoteStatus { .. } => "RemoteStatus"@,
        DpsError::Indeterminate { .. } => "Indeterminate"@,
        DpsError::Authorization { .. } => "Authorization"@,
        DpsError::Decode(_) => "Decode"@,
        DpsError::Server { .. } => "Server"@,
        DpsError::NotFound => "NotFound"@,
        DpsError::ServerFiscalIdMismatch { .. } => "ServerFiscalIdMismatch"@,
        DpsError::QueryNotSupported(_) => "QueryNotSupported"@,
        DpsError::Internal(_) => "Internal"@,
    }
}

/// The stable, contract-grade class string of a DPS error: one distinct
/// label per variant.
pub fn dps_error_class(err: &DpsError) -> (r: &'static str)
    ensures
        r@ == dps_error_class_of(*err),
{
    match err {
        DpsError::Transport(_) => "Transport",
        DpsError::RemoteStatus { .. } => "RemoteStatus",
        DpsError::Indeterminate { .. } => "Indeterminate",
        DpsError::Authorization { .. } => "Authorization",
        DpsError::Decode(_) => "Decode",
        DpsError::Server { .. } => "Server",
        DpsError::NotFound => "NotFound",
        DpsError::ServerFiscalIdMismatch { .. } => "ServerFiscalIdMismatch",
        DpsError::QueryNotSupported(_) => "QueryNotSupported",
        DpsError::Internal(_) => "Internal",
    }
}

/// Sub-class of an authorization rejection (`authorization_kind`), emitted
/// beside `dps_error_class = "Authorization"`; `None` for every other error.
pub fn authorization_kind_class(err: &DpsError) -> (r: Option<&'static str>)
    ensures
        match *err {
            DpsError::Authorization { kind, .. } => r is Some && r->0@ == (match kind {
                AuthorizationKind::DocumentReject => "DocumentReject"@,
                AuthorizationKind::FiscalNumberNotRegistered => "FiscalNumberNotRegistered"@,
            }),
            _ => r is None,
        },
{
    match err {
        DpsError::Authorization { kind, .. } => Some(
            match kind {
                AuthorizationKind::DocumentReject => "DocumentReject",
                AuthorizationKind::FiscalNumberNotRegistered => "FiscalNumberNotRegistered",
            },
        ),
        _ => None,
    }
}

/// One FN of the probe loop, fixed when the loop is spawned.
#[derive(Debug, Clone)]
pub struct ProbeSpec {
    pub fiscal_number: String,
    pub fn_sign: CheckSignBlob,
}

/// What the composition root hands to the probe loop: the DPS channel and
/// the signer blob of each configured FN.
pub struct ReturnOnlineProbeDeps<C> {
    pub dps: C,
    pub fn_signs: std::collections::HashMap<String, CheckSignBlob>,
}

/// Outcome of one probe tick for one FN.
#[derive(Debug, Clone, PartialEq, Eq)]
pub enum TickOutcome {
    /// The probe ran and flipped the mode `Offline -> GoingOnline`.
    Success { fiscal_number: String },
    /// Nothing to do: the mode is not `Offline`.
    Skipped { fiscal_number: String, reason: SkipReason },
    /// The probe ran and failed; the mode is unchanged.
    Failed { fiscal_number: String, reason: FailureReason },
}

/// Why a tick was skipped.
#[derive(Debug, Clone, Copy, PartialEq, Eq, Structural)]
pub enum SkipReason {
    /// `Online`: skipped before the DPS call.
    NodeOnline,
    /// `GoingOnline` already: idempotent no-op, no write and no audit.
    NodeAlreadyGoingOnline,
    /// `Blocked`, `StopMode`, `CryptoDegraded` or `GoingOffline`.
    NodeNotOfflineOrTransition,
    /// No `node_state` row for the FN.
    NodeStateMissing,
}

/// Why a probe failed.
#[derive(Debug, Clone, Copy, PartialEq, Eq, Structural)]
pub enum FailureReason {
    /// The DPS call returned an error.
    DpsError,
    /// The DPS answered with `online == false`.
    DpsReportsOffline,
    /// The mode flip matched no row: the mode changed concurrently.
    CasMiss,
}

/// The skip reason for the node mode read at the start of a tick, or `None`
/// when the node is `Offline` and must be probed.
pub open spec fn skip_reason_for(mode: Option<NodeMode>) -> Option<SkipReason> {
    match mode {
        None => Some(SkipReason::NodeStateMissing),
        Some(NodeMode::Online) => Some(SkipReason::NodeOnline),
        Some(NodeMode::GoingOnline) => Some(SkipReason::NodeAlreadyGoingOnline),
        Some(NodeMode::Offline) => None,
        Some(_) => Some(SkipReason::NodeNotOfflineOrTransition),
    }
}

/// The failure reason for the DPS probe result, or `None` when the DPS is
/// reachable and reports the FN online (the only success predicate).
pub open spec fn probe_failure_for(result: Result<StatusSnapshot, DpsError>) -> Option<FailureReason> {
    match result {
        Err(_) => Some(FailureReason::DpsError),
        Ok(snapshot) => if snapshot.online {
            None
        } else {
            Some(FailureReason::DpsReportsOffline)
        },
    }
}

/// Whether `outcome` is the skip of `fiscal_number` for `reason`.
pub open spec fn is_skip(outcome: TickOutcome, fiscal_number: Seq<char>, reason: SkipReason) -> bool {
    outcome matches TickOutcome::Skipped { fiscal_number: f, reason: r } && f@ == fiscal_number
        && r == reason
}

/// Whether `outcome` is the failure of `fiscal_number` for `reason`.
pub open spec fn is_failure(outcome: TickOutcome, fiscal_number: Seq<char>, reason: FailureReason) -> bool {
    outcome matches TickOutcome::Failed { fiscal_number: f, reason: r } && f@ == fiscal_number
        && r == reason
}

/// Step 1 of a tick: from the node mode (`None` when the FN has no
/// `node_state` row) decide whether to skip.  `None` means: probe.
pub fn pre_probe_outcome(fiscal_number: &str, mode: Option<NodeMode>) -> (r: Option<TickOutcome>)
    ensures
        match skip_reason_for(mode) {
            Some(reason) => r is Some && is_skip(r->0, fiscal_number@, reason),
            None => r is None,
        },
{
    let reason = match mode {
        None => SkipReason::NodeStateMissing,
        Some(NodeMode::Online) => SkipReason::NodeOnline,
        Some(NodeMode::GoingOnline) => SkipReason::NodeAlreadyGoingOnline,
        Some(NodeMode::Offline) => {
            return None;
        },
        Some(NodeMode::Blocked) | Some(NodeMode::StopMode) | Some(NodeMode::CryptoDegraded) | Some(
            NodeMode::GoingOffline,
        ) => SkipReason::NodeNotOfflineOrTransition,
    };
    Some(TickOutcome::Skipped { fiscal_number: fiscal_number.to_string(), reason })
}

/// Step 2 of a tick: from the `statusRro` result decide whether the probe
/// failed.  `None` means: flip the mode.  `open_shift` and `last_signer`
/// never take part in the decision.
pub fn probe_result_outcome(fiscal_number: &str, result: &Result<StatusSnapshot, DpsError>) -> (r:
    Option<TickOutcome>)
    ensures
        match probe_failure_for(*result) {
            Some(reason) => r is Some && is_failure(r->0, fiscal_number@, reason),
            None => r is None,
        },
{
    match result {
        Err(_) => Some(
            TickOutcome::Failed {
                fiscal_number: fiscal_number.to_string(),
                reason: FailureReason::DpsError,
            },
        ),
        Ok(snapshot) => {
            if snapshot.online {
                None
            } else {
                Some(
                    TickOutcome::Failed {
                        fiscal_number: fiscal_number.to_string(),
                        reason: FailureReason::DpsReportsOffline,
                    },
                )
            }
        },
    }
}

/// Step 3 of a tick: from the number of rows the compare-and-set changed,
/// the final outcome.
pub fn mode_flip_outcome(fiscal_number: &str, rows_affected: u64) -> (r: TickOutcome)
    ensures
        rows_affected == 0 ==> is_failure(r, fiscal_number@, FailureReason::CasMiss),
        rows_affected != 0 ==> (r matches TickOutcome::Success { fiscal_number: f }
            && f@ == fiscal_number@),
{
    if rows_affected == 0 {
        TickOutcome::Failed { fiscal_number: fiscal_number.to_string(), reason: FailureReason::CasMiss }
    } else {
        TickOutcome::Success { fiscal_number: fiscal_number.to_string() }
    }
}

/// The `reason` key of a probe-failure audit payload.
pub fn failure_audit_reason(reason: FailureReason) -> (r: &'static str)
    ensures
        r@ == (match reason {
            FailureReason::DpsError => "dps_error"@,
            FailureReason::DpsReportsOffline => "dps_reports_offline"@,
            FailureReason::CasMiss => "cas_miss_concurrent_mode_change"@,
        }),
{
    match reason {
        FailureReason::DpsError => "dps_error",
        FailureReason::DpsReportsOffline => "dps_reports_offline",
        FailureReason::CasMiss => "cas_miss_concurrent_mode_change",
    }
}

/// The audit event and severity of a finished tick; `None` for a skip.
pub open spec fn tick_audit_of(outcome: TickOutcome) -> Option<(Seq<char>, Severity)> {
    match outcome {
        TickOutcome::Success { .. } => Some(("RETURN_ONLINE_PROBE_SUCCESS"@, Severity::Info)),
        TickOutcome::Failed { .. } => Some(("RETURN_ONLINE_PROBE_FAILED"@, Severity::Warning)),
        TickOutcome::Skipped { .. } => None,
    }
}

/// The audit event and severity of a finished tick; `None` for a skip,
/// which writes no audit row.
pub fn tick_audit(outcome: &TickOutcome) -> (r: Option<(&'static str, Severity)>)
    ensures
        match r {
            Some((event, severity)) => tick_audit_of(*outcome) == Some((event@, severity)),
            None => tick_audit_of(*outcome) is None,
        },
{
    match outcome {
        TickOutcome::Success { .. } => Some(("RETURN_ONLINE_PROBE_SUCCESS", Severity::Info)),
        TickOutcome::Failed { .. } => Some(("RETURN_ONLINE_PROBE_FAILED", Severity::Warning)),
        TickOutcome::Skipped { .. } => None,
    }
}

/// A tick that ends before the probe (every mode but `Offline`, among them
/// `GoingOnline` and `Online`) writes no audit row.
pub proof fn skipped_ticks_write_no_audit(fiscal_number: Seq<char>, mode: Option<NodeMode>, outcome: TickOutcome)
    requires
        skip_reason_for(mode) is Some,
        is_skip(outcome, fiscal_number, skip_reason_for(mode)->0),
    ensures
        tick_audit_of(outcome) is None,
        mode != Some(NodeMode::Offline),
{
}

/// Only an `Offline` node is ever probed: every other mode, and a missing
/// row, ends the tick before the DPS call.
pub proof fn only_offline_is_probed(mode: Option<NodeMode>)
    ensures
        skip_reason_for(mode) is None <==> mode == Some(NodeMode::Offline),
{
}

/// `online == true` is the single success predicate: the probe result
/// leads to the mode flip exactly when it is `Ok` with `online` set,
/// whatever `open_shift` and `last_signer` hold.
pub proof fn online_flag_is_single_success_predicate(result: Result<StatusSnapshot, DpsError>)
    ensures
        probe_failure_for(result) is None <==> (result is Ok && result->Ok_0.online),
{
}

} // verus!
