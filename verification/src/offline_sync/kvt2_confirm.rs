//! KVT2 confirmation: routing of the canonical DPS evidence
//! (`by_server_fiscal_no` / `last_chk`) per source context, and the
//! drain-side plan for each routed outcome.

use vstd::prelude::*;

use crate::model::{CheckAck, DocState, DpsError, authorization_kind_name, doc_state_name, dps_error_debug};
use crate::offline_sync::backlog_drain::{FailureClass, HoldFnDrainProjection};
use crate::text::{concat, debug_quoted, i64_decimal, int_decimal, str_debug};

verus! {

/// Which drain path asks for confirmation.
#[derive(Debug, Clone, Copy, PartialEq, Eq, Structural)]
pub enum Kvt2ConfirmSource {
    /// Right after a fresh wire send this tick.
    SentFresh,
    /// A persisted SENT doc (crash recovery).
    SentReplay,
    /// A persisted KVT1 doc held on a prior tick.
    Kvt1Reentry,
}

pub open spec fn source_name(s: Kvt2ConfirmSource) -> Seq<char> {
    match s {
        Kvt2ConfirmSource::SentFresh => "SentFresh"@,
        Kvt2ConfirmSource::SentReplay => "SentReplay"@,
        Kvt2ConfirmSource::Kvt1Reentry => "Kvt1Reentry"@,
    }
}

impl Kvt2ConfirmSource {
    /// Audit `source` literal.
    pub fn audit_label(self) -> (r: &'static str)
        ensures
            r@ == (match self {
                Kvt2ConfirmSource::SentFresh => "sent_fresh"@,
                Kvt2ConfirmSource::SentReplay => "sent_replay"@,
                Kvt2ConfirmSource::Kvt1Reentry => "kvt1_reentry"@,
            }),
    {
        match self {
            Kvt2ConfirmSource::SentFresh => "sent_fresh",
            Kvt2ConfirmSource::SentReplay => "sent_replay",
            Kvt2ConfirmSource::Kvt1Reentry => "kvt1_reentry",
        }
    }

    fn debug_name(self) -> (r: &'static str)
        ensures
            r@ == source_name(self),
    {
        match self {
            Kvt2ConfirmSource::SentFresh => "SentFresh",
            Kvt2ConfirmSource::SentReplay => "SentReplay",
            Kvt2ConfirmSource::Kvt1Reentry => "Kvt1Reentry",
        }
    }
}

/// Routed evidence outcome.
#[derive(Debug, Clone, PartialEq, Eq)]
pub enum Kvt2ConfirmOutcome {
    /// Evidence accepted; `kvt1_raw_bytes` is the DPS `data_sign`.
    Acked { kvt1_raw_bytes: Vec<u8>, sent_replay_trace_attempt_no: Option<i64> },
    /// Evidence failure: doc state unchanged, drain stops at this doc.
    Hold { reason: Kvt2ConfirmHoldReason, sent_replay_trace_attempt_no: Option<i64> },
    /// Structural invariant breach: halts the FN drain.
    StructuralDrift { reason: Kvt2ConfirmStructuralReason, sent_replay_trace_attempt_no: Option<i64> },
    /// SentReplay only: DPS has no history of the doc — safe re-drive.
    SentNotFoundDowngrade { trace_attempt_no: i64 },
    /// SentReplay only: a newer submitted doc of ours is the DPS tip.
    SupersededHold { dps_tip_id: String, sent_replay_trace_attempt_no: Option<i64> },
}

/// Hold-class reasons.
#[derive(Debug, Clone, PartialEq, Eq)]
pub enum Kvt2ConfirmHoldReason {
    DpsTransport(String),
    DpsServer(String),
    DpsAuthorization(String),
    DpsDecode(String),
    LastChkDataSignEmpty,
}

impl Kvt2ConfirmHoldReason {
    /// Audit `hold_reason` literal.
    pub fn audit_label(&self) -> (r: &'static str)
        ensures
            r@ == (match self {
                Kvt2ConfirmHoldReason::DpsTransport(_) => "DPS_TRANSPORT"@,
                Kvt2ConfirmHoldReason::DpsServer(_) => "DPS_SERVER"@,
                Kvt2ConfirmHoldReason::DpsAuthorization(_) => "DPS_AUTHORIZATION"@,
                Kvt2ConfirmHoldReason::DpsDecode(_) => "DPS_DECODE"@,
                Kvt2ConfirmHoldReason::LastChkDataSignEmpty => "LASTCHK_DATA_SIGN_EMPTY"@,
            }),
    {
        match self {
            Kvt2ConfirmHoldReason::DpsTransport(_) => "DPS_TRANSPORT",
            Kvt2ConfirmHoldReason::DpsServer(_) => "DPS_SERVER",
            Kvt2ConfirmHoldReason::DpsAuthorization(_) => "DPS_AUTHORIZATION",
            Kvt2ConfirmHoldReason::DpsDecode(_) => "DPS_DECODE",
            Kvt2ConfirmHoldReason::LastChkDataSignEmpty => "LASTCHK_DATA_SIGN_EMPTY",
        }
    }
}

/// Structural-drift reasons.
#[derive(Debug, Clone, PartialEq, Eq)]
pub enum Kvt2ConfirmStructuralReason {
    ServerFiscalNoMissing,
    CasMissOnAdvance { from: DocState, to: DocState, observed: DocState },
    LastChkIdMismatch { observed: String, expected: String },
    NotFoundOutsideSentReplay { source: Kvt2ConfirmSource },
}

/// Detail text for a missing server fiscal number.
pub open spec fn server_fiscal_no_missing_detail() -> Seq<char> {
    "doc state at Kvt1 with NULL server_fiscal_no \u{2014} stage_send 4-b stamp invariant breach; persisted Sent advance MUST always stamp server_fiscal_no before transitioning to Sent"@
}

/// The `drift_reason_detail` text: a contextual description for the unit
/// variant, the `{:?}` rendering for the data-bearing ones.
pub open spec fn structural_detail(r: Kvt2ConfirmStructuralReason) -> Seq<char> {
    match r {
        Kvt2ConfirmStructuralReason::ServerFiscalNoMissing => server_fiscal_no_missing_detail(),
        Kvt2ConfirmStructuralReason::CasMissOnAdvance { from, to, observed } => "CasMissOnAdvance { from: "@
            + doc_state_name(from) + ", to: "@ + doc_state_name(to) + ", observed: "@ + doc_state_name(observed)
            + " }"@,
        Kvt2ConfirmStructuralReason::LastChkIdMismatch { observed, expected } => "LastChkIdMismatch { observed: "@
            + str_debug(observed@) + ", expected: "@ + str_debug(expected@) + " }"@,
        Kvt2ConfirmStructuralReason::NotFoundOutsideSentReplay { source } => "NotFoundOutsideSentReplay { source: "@
            + source_name(source) + " }"@,
    }
}

impl Kvt2ConfirmStructuralReason {
    /// Audit `drift_reason` literal.
    pub fn audit_label(&self) -> (r: &'static str)
        ensures
            r@ == (match self {
                Kvt2ConfirmStructuralReason::ServerFiscalNoMissing => "SERVER_FISCAL_NO_MISSING"@,
                Kvt2ConfirmStructuralReason::CasMissOnAdvance { .. } => "CAS_MISS_ON_ADVANCE"@,
                Kvt2ConfirmStructuralReason::LastChkIdMismatch { .. } => "LASTCHK_ID_MISMATCH"@,
                Kvt2ConfirmStructuralReason::NotFoundOutsideSentReplay { .. } => "NOT_FOUND_OUTSIDE_SENT_REPLAY"@,
            }),
    {
        match self {
            Kvt2ConfirmStructuralReason::ServerFiscalNoMissing => "SERVER_FISCAL_NO_MISSING",
            Kvt2ConfirmStructuralReason::CasMissOnAdvance { .. } => "CAS_MISS_ON_ADVANCE",
            Kvt2ConfirmStructuralReason::LastChkIdMismatch { .. } => "LASTCHK_ID_MISMATCH",
            Kvt2ConfirmStructuralReason::NotFoundOutsideSentReplay { .. } => "NOT_FOUND_OUTSIDE_SENT_REPLAY",
        }
    }

    /// Human-readable `drift_reason_detail`.
    pub fn detail_message(&self) -> (r: String)
        ensures
            r@ == structural_detail(*self),
    {
        match self {
            Kvt2ConfirmStructuralReason::ServerFiscalNoMissing => {
                "doc state at Kvt1 with NULL server_fiscal_no \u{2014} stage_send 4-b stamp invariant breach; persisted Sent advance MUST always stamp server_fiscal_no before transitioning to Sent".to_string()
            },
            Kvt2ConfirmStructuralReason::CasMissOnAdvance { from, to, observed } => {
                let s = concat("CasMissOnAdvance { from: ".to_string(), from.debug_name());
                let s = concat(s, ", to: ");
                let s = concat(s, to.debug_name());
                let s = concat(s, ", observed: ");
                let s = concat(s, observed.debug_name());
                concat(s, " }")
            },
            Kvt2ConfirmStructuralReason::LastChkIdMismatch { observed, expected } => {
                let s = concat("LastChkIdMismatch { observed: ".to_string(), debug_quoted(observed.as_str()).as_str());
                let s = concat(s, ", expected: ");
                let s = concat(s, debug_quoted(expected.as_str()).as_str());
                concat(s, " }")
            },
            Kvt2ConfirmStructuralReason::NotFoundOutsideSentReplay { source } => {
                let s = concat("NotFoundOutsideSentReplay { source: ".to_string(), source.debug_name());
                concat(s, " }")
            },
        }
    }
}


/// The `DpsServer` hold detail: `status={code}: {message}`.
pub open spec fn server_detail(code: i32, message: Seq<char>) -> Seq<char> {
    "status="@ + int_decimal(code as int) + ": "@ + message
}

/// The `DpsAuthorization` hold detail: `{kind:?}(code={code}): {message}`.
pub open spec fn authorization_detail(kind: crate::model::AuthorizationKind, code: i32, message: Seq<char>) -> Seq<char> {
    authorization_kind_name(kind) + "(code="@ + int_decimal(code as int) + "): "@ + message
}

/// The routing matrix, stated per evidence shape.  `trace` is threaded
/// through to every outcome that carries it.
pub open spec fn classified_as(
    result: Result<CheckAck, DpsError>,
    source: Kvt2ConfirmSource,
    trace: Option<i64>,
    superseded: bool,
    r: Kvt2ConfirmOutcome,
) -> bool {
    match result {
        Ok(ack) => if ack.data_sign@.len() == 0 {
            r == Kvt2ConfirmOutcome::Hold { reason: Kvt2ConfirmHoldReason::LastChkDataSignEmpty, sent_replay_trace_attempt_no: trace }
        } else {
            r matches Kvt2ConfirmOutcome::Acked { kvt1_raw_bytes, sent_replay_trace_attempt_no }
                && kvt1_raw_bytes@ == ack.data_sign@ && sent_replay_trace_attempt_no == trace
        },
        Err(DpsError::NotFound) => if source == Kvt2ConfirmSource::SentReplay {
            r == Kvt2ConfirmOutcome::SentNotFoundDowngrade { trace_attempt_no: trace.unwrap() }
        } else {
            r == Kvt2ConfirmOutcome::StructuralDrift {
                reason: Kvt2ConfirmStructuralReason::NotFoundOutsideSentReplay { source },
                sent_replay_trace_attempt_no: trace,
            }
        },
        Err(DpsError::ServerFiscalIdMismatch { expected_id, actual_id }) => if superseded {
            r matches Kvt2ConfirmOutcome::SupersededHold { dps_tip_id, sent_replay_trace_attempt_no }
                && dps_tip_id@ == actual_id@ && sent_replay_trace_attempt_no == trace
        } else {
            r matches Kvt2ConfirmOutcome::StructuralDrift {
                reason: Kvt2ConfirmStructuralReason::LastChkIdMismatch { observed, expected },
                sent_replay_trace_attempt_no,
            } && observed@ == actual_id@ && expected@ == expected_id@ && sent_replay_trace_attempt_no == trace
        },
        Err(DpsError::Transport(msg)) => r matches Kvt2ConfirmOutcome::Hold {
            reason: Kvt2ConfirmHoldReason::DpsTransport(m),
            sent_replay_trace_attempt_no,
        } && m@ == msg@ && sent_replay_trace_attempt_no == trace,
        Err(DpsError::Server { code, message }) => r matches Kvt2ConfirmOutcome::Hold {
            reason: Kvt2ConfirmHoldReason::DpsServer(m),
            sent_replay_trace_attempt_no,
        } && m@ == server_detail(code, message@) && sent_replay_trace_attempt_no == trace,
        Err(DpsError::Authorization { code, kind, message }) => r matches Kvt2ConfirmOutcome::Hold {
            reason: Kvt2ConfirmHoldReason::DpsAuthorization(m),
            sent_replay_trace_attempt_no,
        } && m@ == authorization_detail(kind, code, message@) && sent_replay_trace_attempt_no == trace,
        Err(DpsError::Decode(msg)) => r matches Kvt2ConfirmOutcome::Hold {
            reason: Kvt2ConfirmHoldReason::DpsDecode(m),
            sent_replay_trace_attempt_no,
        } && m@ == msg@ && sent_replay_trace_attempt_no == trace,
        Err(other) => r matches Kvt2ConfirmOutcome::Hold {
            reason: Kvt2ConfirmHoldReason::DpsServer(m),
            sent_replay_trace_attempt_no,
        } && m@ == dps_error_debug(other) && sent_replay_trace_attempt_no == trace,
    }
}

/// Route `by_server_fiscal_no` evidence for `source` into an outcome.
///
/// `superseded` is the caller's verdict that the DPS tip of a
/// `ServerFiscalIdMismatch` is a newer submitted doc of ours; only that
/// arm reads it.  A SentReplay NotFound needs the pre-allocated trace
/// attempt number.
pub fn classify_check_result(
    result: Result<CheckAck, DpsError>,
    source: Kvt2ConfirmSource,
    sent_replay_trace_attempt_no: Option<i64>,
    superseded: bool,
) -> (r: Kvt2ConfirmOutcome)
    requires
        (source == Kvt2ConfirmSource::SentReplay && result == Err::<CheckAck, DpsError>(DpsError::NotFound))
            ==> sent_replay_trace_attempt_no is Some,
    ensures
        classified_as(result, source, sent_replay_trace_attempt_no, superseded, r),
{
    let ghost result_in = result;
    match result {
        Ok(ack) => {
            if ack.data_sign.len() == 0 {
                Kvt2ConfirmOutcome::Hold {
                    reason: Kvt2ConfirmHoldReason::LastChkDataSignEmpty,
                    sent_replay_trace_attempt_no,
                }
            } else {
                Kvt2ConfirmOutcome::Acked { kvt1_raw_bytes: ack.data_sign, sent_replay_trace_attempt_no }
            }
        },
        Err(DpsError::NotFound) => match source {
            Kvt2ConfirmSource::SentReplay => {
                let trace_attempt_no = match sent_replay_trace_attempt_no {
                    Some(t) => t,
                    None => {
                        assert(false);
                        0
                    },
                };
                Kvt2ConfirmOutcome::SentNotFoundDowngrade { trace_attempt_no }
            },
            Kvt2ConfirmSource::SentFresh | Kvt2ConfirmSource::Kvt1Reentry => Kvt2ConfirmOutcome::StructuralDrift {
                reason: Kvt2ConfirmStructuralReason::NotFoundOutsideSentReplay { source },
                sent_replay_trace_attempt_no,
            },
        },
        Err(DpsError::ServerFiscalIdMismatch { expected_id, actual_id }) => {
            if superseded {
                Kvt2ConfirmOutcome::SupersededHold { dps_tip_id: actual_id, sent_replay_trace_attempt_no }
            } else {
                Kvt2ConfirmOutcome::StructuralDrift {
                    reason: Kvt2ConfirmStructuralReason::LastChkIdMismatch { observed: actual_id, expected: expected_id },
                    sent_replay_trace_attempt_no,
                }
            }
        },
        Err(DpsError::Transport(msg)) => Kvt2ConfirmOutcome::Hold {
            reason: Kvt2ConfirmHoldReason::DpsTransport(msg),
            sent_replay_trace_attempt_no,
        },
        Err(DpsError::Server { code, message }) => {
            let s = concat("status=".to_string(), i64_decimal(code as i64).as_str());
            let s = concat(s, ": ");
            let s = concat(s, message.as_str());
            Kvt2ConfirmOutcome::Hold { reason: Kvt2ConfirmHoldReason::DpsServer(s), sent_replay_trace_attempt_no }
        },
        Err(DpsError::Authorization { code, kind, message }) => {
            let s = concat(kind.debug_name().to_string(), "(code=");
            let s = concat(s, i64_decimal(code as i64).as_str());
            let s = concat(s, "): ");
            let s = concat(s, message.as_str());
            Kvt2ConfirmOutcome::Hold { reason: Kvt2ConfirmHoldReason::DpsAuthorization(s), sent_replay_trace_attempt_no }
        },
        Err(DpsError::Decode(msg)) => Kvt2ConfirmOutcome::Hold {
            reason: Kvt2ConfirmHoldReason::DpsDecode(msg),
            sent_replay_trace_attempt_no,
        },
        Err(other) => {
            let detail = other.debug_text();
            Kvt2ConfirmOutcome::Hold { reason: Kvt2ConfirmHoldReason::DpsServer(detail), sent_replay_trace_attempt_no }
        },
    }
}

/// Failure class per hold reason.
pub open spec fn hold_reason_class(reason: Kvt2ConfirmHoldReason) -> FailureClass {
    match reason {
        Kvt2ConfirmHoldReason::DpsTransport(_) => FailureClass::Transport,
        Kvt2ConfirmHoldReason::DpsServer(_) => FailureClass::Server,
        Kvt2ConfirmHoldReason::DpsAuthorization(_) => FailureClass::Authorization,
        Kvt2ConfirmHoldReason::DpsDecode(_) => FailureClass::Decode,
        Kvt2ConfirmHoldReason::LastChkDataSignEmpty => FailureClass::Internal,
    }
}

/// Granular failure class of a hold reason.
pub fn map_hold_reason_to_class(reason: &Kvt2ConfirmHoldReason) -> (r: FailureClass)
    ensures
        r == hold_reason_class(*reason),
{
    match reason {
        Kvt2ConfirmHoldReason::DpsTransport(_) => FailureClass::Transport,
        Kvt2ConfirmHoldReason::DpsServer(_) => FailureClass::Server,
        Kvt2ConfirmHoldReason::DpsAuthorization(_) => FailureClass::Authorization,
        Kvt2ConfirmHoldReason::DpsDecode(_) => FailureClass::Decode,
        Kvt2ConfirmHoldReason::LastChkDataSignEmpty => FailureClass::Internal,
    }
}


/// A `ServerFiscalIdMismatch` whose DPS tip is the server fiscal number
/// of one of our newer submitted docs.
pub open spec fn superseded_spec(result: Result<CheckAck, DpsError>, newer_sfns: Seq<Seq<char>>) -> bool {
    match result {
        Err(DpsError::ServerFiscalIdMismatch { actual_id, .. }) => newer_sfns.contains(actual_id@),
        _ => false,
    }
}

/// The superseded verdict fed to [`classify_check_result`]: true only when
/// the tip id is one of `newer_submitted_sfns` (a foreign tip is drift).
pub fn superseded_by_newer(result: &Result<CheckAck, DpsError>, newer_submitted_sfns: &[String]) -> (r: bool)
    ensures
        r == superseded_spec(*result, newer_submitted_sfns@.map_values(|s: String| s@)),
{
    let ghost views = newer_submitted_sfns@.map_values(|s: String| s@);
    match result {
        Err(DpsError::ServerFiscalIdMismatch { actual_id, .. }) => {
            let n = newer_submitted_sfns.len();
            let mut i: usize = 0;
            assert(superseded_spec(*result, views) == views.contains(actual_id@));
            while i < n
                invariant
                    superseded_spec(*result, views) == views.contains(actual_id@),
                    n == newer_submitted_sfns@.len(),
                    views == newer_submitted_sfns@.map_values(|s: String| s@),
                    i <= n,
                    forall|k: int| 0 <= k < i ==> views[k] != actual_id@,
                decreases n - i,
            {
                if newer_submitted_sfns[i].eq(actual_id) {
                    assert(views[i as int] == newer_submitted_sfns@[i as int]@);
                    assert(views[i as int] == actual_id@);
                    assert(views.contains(actual_id@));
                    return true;
                }
                i = i + 1;
            }
            assert(!views.contains(actual_id@));
            false
        },
        _ => false,
    }
}

/// The largest `lnd` of the newer submitted docs, if any.
pub fn max_lnd(lnds: &[i64]) -> (r: Option<i64>)
    ensures
        r is None <==> lnds@.len() == 0,
        r matches Some(m) ==> lnds@.contains(m) && forall|k: int| 0 <= k < lnds@.len() ==> lnds@[k] <= m,
{
    if lnds.len() == 0 {
        return None;
    }
    let mut m = lnds[0];
    let mut i: usize = 1;
    assert(lnds@.subrange(0, 1)[0] == m);
    while i < lnds.len()
        invariant
            1 <= i <= lnds@.len(),
            lnds@.subrange(0, i as int).contains(m),
            forall|k: int| 0 <= k < i ==> lnds@[k] <= m,
        decreases lnds@.len() - i,
    {
        let ghost old_m = m;
        if lnds[i] > m {
            m = lnds[i];
        }
        proof {
            if m == old_m {
                let j = choose|j: int| 0 <= j < i && lnds@.subrange(0, i as int)[j] == old_m;
                assert(lnds@.subrange(0, i + 1)[j] == m);
            } else {
                assert(lnds@.subrange(0, i + 1)[i as int] == m);
            }
        }
        i = i + 1;
    }
    assert(lnds@.subrange(0, lnds@.len() as int) =~= lnds@);
    Some(m)
}

/// Drain-projected result of a confirmation.
#[derive(Debug, Clone, Copy, PartialEq, Eq)]
pub enum ConfirmDrainOutcome {
    /// Hold (doc unchanged) or SentReplay NotFound downgrade (doc now
    /// ERROR_RETRYABLE); the drain stops at this doc.
    HoldFnDrain { projection: HoldFnDrainProjection, consecutive_holds: i64, class: FailureClass },
    /// The doc converged to ACK.
    Advanced,
    /// SentReplay only: superseded as the DPS tip; held at SENT.
    SupersededHeld,
}

/// The envelope work a routed outcome calls for.
#[derive(Debug, Clone, Copy, PartialEq, Eq, Structural)]
pub enum ConfirmPlan {
    /// Acked (SentFresh / Kvt1Reentry): the runtime-neutral CAS chain to ACK.
    AdvanceToAck,
    /// Acked (SentReplay): bundled trace-completion + CAS chain, then finalize.
    ReplayAdvance,
    /// Structural drift (SentFresh / Kvt1Reentry): audit-only drift envelope, then halt.
    DriftLight,
    /// Structural drift (SentReplay): trace-completion + drift audit, then halt.
    DriftBundled,
    /// Hold (SentFresh / Kvt1Reentry): hold counter + audit; project to `projection`.
    HoldLight { projection: HoldFnDrainProjection },
    /// Hold (SentReplay): trace-completion + hold counter + audit; project to
    /// `projection` (held at SENT).
    HoldBundled { projection: HoldFnDrainProjection },
    /// SentReplay NotFound: trace-completion + SENT → ERROR_RETRYABLE + audit.
    Downgrade,
    /// SentReplay superseded tip: trace-completion + TIP_SUPERSEDED audit.
    Superseded,
    /// A structurally impossible pairing (routing regression): halt.
    Fault,
}

/// Where a held document rests: a `KVT1` re-entry stays at KVT1, a
/// fresh or replayed SENT document stays at SENT.
pub open spec fn hold_projection_of(source: Kvt2ConfirmSource) -> HoldFnDrainProjection {
    match source {
        Kvt2ConfirmSource::Kvt1Reentry => HoldFnDrainProjection::HeldAtKvt1,
        _ => HoldFnDrainProjection::HeldAtSent,
    }
}

/// The drain projection of a hold in the `source` context: `HeldAtKvt1`
/// only for a `KVT1` re-entry, `HeldAtSent` otherwise.
pub fn hold_projection(source: Kvt2ConfirmSource) -> (r: HoldFnDrainProjection)
    ensures
        r == hold_projection_of(source),
        (r == HoldFnDrainProjection::HeldAtKvt1) <==> source == Kvt2ConfirmSource::Kvt1Reentry,
        r != HoldFnDrainProjection::ErRedriveQueued,
{
    match source {
        Kvt2ConfirmSource::Kvt1Reentry => HoldFnDrainProjection::HeldAtKvt1,
        _ => HoldFnDrainProjection::HeldAtSent,
    }
}

pub open spec fn confirm_plan_of(source: Kvt2ConfirmSource, outcome: Kvt2ConfirmOutcome) -> ConfirmPlan {
    let replay = source == Kvt2ConfirmSource::SentReplay;
    match outcome {
        Kvt2ConfirmOutcome::Acked { kvt1_raw_bytes, .. } => if kvt1_raw_bytes@.len() == 0 {
            ConfirmPlan::Fault
        } else if replay {
            ConfirmPlan::ReplayAdvance
        } else {
            ConfirmPlan::AdvanceToAck
        },
        Kvt2ConfirmOutcome::StructuralDrift { .. } => if replay { ConfirmPlan::DriftBundled } else { ConfirmPlan::DriftLight },
        Kvt2ConfirmOutcome::Hold { .. } => if replay {
            ConfirmPlan::HoldBundled { projection: hold_projection_of(source) }
        } else {
            ConfirmPlan::HoldLight { projection: hold_projection_of(source) }
        },
        Kvt2ConfirmOutcome::SentNotFoundDowngrade { .. } => if replay { ConfirmPlan::Downgrade } else { ConfirmPlan::Fault },
        Kvt2ConfirmOutcome::SupersededHold { .. } => if replay { ConfirmPlan::Superseded } else { ConfirmPlan::Fault },
    }
}

/// Which envelope chain `confirm_drain_doc` commits for a routed outcome.
pub fn confirm_plan(source: Kvt2ConfirmSource, outcome: &Kvt2ConfirmOutcome) -> (r: ConfirmPlan)
    ensures
        r == confirm_plan_of(source, *outcome),
{
    let replay = match source {
        Kvt2ConfirmSource::SentReplay => true,
        _ => false,
    };
    match outcome {
        Kvt2ConfirmOutcome::Acked { kvt1_raw_bytes, .. } => {
            if kvt1_raw_bytes.len() == 0 {
                ConfirmPlan::Fault
            } else if replay {
                ConfirmPlan::ReplayAdvance
            } else {
                ConfirmPlan::AdvanceToAck
            }
        },
        Kvt2ConfirmOutcome::StructuralDrift { .. } => if replay { ConfirmPlan::DriftBundled } else { ConfirmPlan::DriftLight },
        Kvt2ConfirmOutcome::Hold { .. } => {
            if replay {
                ConfirmPlan::HoldBundled { projection: hold_projection(source) }
            } else {
                ConfirmPlan::HoldLight { projection: hold_projection(source) }
            }
        },
        Kvt2ConfirmOutcome::SentNotFoundDowngrade { .. } => if replay { ConfirmPlan::Downgrade } else { ConfirmPlan::Fault },
        Kvt2ConfirmOutcome::SupersededHold { .. } => if replay { ConfirmPlan::Superseded } else { ConfirmPlan::Fault },
    }
}

/// Drain outcome of a committed hold envelope: the projection with the
/// post-increment hold counter and the reason's failure class.
pub fn hold_outcome(projection: HoldFnDrainProjection, consecutive_holds: i64, reason: &Kvt2ConfirmHoldReason) -> (r: ConfirmDrainOutcome)
    ensures
        r == (ConfirmDrainOutcome::HoldFnDrain { projection, consecutive_holds, class: hold_reason_class(*reason) }),
{
    ConfirmDrainOutcome::HoldFnDrain { projection, consecutive_holds, class: map_hold_reason_to_class(reason) }
}

/// Drain outcome of a committed NotFound downgrade: queued for ER
/// re-drive, counter reset, class `NotFound`.
pub fn downgrade_outcome() -> (r: ConfirmDrainOutcome)
    ensures
        r == (ConfirmDrainOutcome::HoldFnDrain {
            projection: HoldFnDrainProjection::ErRedriveQueued,
            consecutive_holds: 0,
            class: FailureClass::NotFound,
        }),
{
    ConfirmDrainOutcome::HoldFnDrain {
        projection: HoldFnDrainProjection::ErRedriveQueued,
        consecutive_holds: 0,
        class: FailureClass::NotFound,
    }
}


/// Failure of the KVT2 advance envelopes.  Database and infrastructure
/// failures are carried as their rendered text.
#[derive(Debug, Clone, PartialEq, Eq)]
pub enum ConfirmError {
    StructuralDrift { detail: String },
    Database { source: String },
    Infrastructure { source: String },
}

/// Boot-level error a failed confirmation is reported as.
#[derive(Debug, Clone, PartialEq, Eq)]
pub enum BootError {
    /// A structural inconsistency (routing or chain drift).
    Internal(String),
    /// Reconciliation of `fiscal_number` failed on `source`.
    ReconciliationFailed { fiscal_number: String, source: String },
}

/// A confirmation failure as a boot error: drift is internal, database and
/// infrastructure failures fail the FN's reconciliation.
pub fn map_confirm_error(err: ConfirmError, fiscal_number: &str) -> (r: BootError)
    ensures
        match err {
            ConfirmError::StructuralDrift { detail } => r == BootError::Internal(detail),
            ConfirmError::Database { source } => r matches BootError::ReconciliationFailed {
                fiscal_number: f,
                source: s,
            } && f@ == fiscal_number@ && s == source,
            ConfirmError::Infrastructure { source } => r matches BootError::ReconciliationFailed {
                fiscal_number: f,
                source: s,
            } && f@ == fiscal_number@ && s == source,
        },
{
    match err {
        ConfirmError::StructuralDrift { detail } => BootError::Internal(detail),
        ConfirmError::Database { source } | ConfirmError::Infrastructure { source } => {
            BootError::ReconciliationFailed { fiscal_number: fiscal_number.to_string(), source }
        },
    }
}


/// The SentReplay trace attempt number an outcome carries.
pub open spec fn outcome_trace(r: Kvt2ConfirmOutcome) -> Option<i64> {
    match r {
        Kvt2ConfirmOutcome::Acked { sent_replay_trace_attempt_no, .. } => sent_replay_trace_attempt_no,
        Kvt2ConfirmOutcome::Hold { sent_replay_trace_attempt_no, .. } => sent_replay_trace_attempt_no,
        Kvt2ConfirmOutcome::StructuralDrift { sent_replay_trace_attempt_no, .. } => sent_replay_trace_attempt_no,
        Kvt2ConfirmOutcome::SupersededHold { sent_replay_trace_attempt_no, .. } => sent_replay_trace_attempt_no,
        Kvt2ConfirmOutcome::SentNotFoundDowngrade { trace_attempt_no } => Some(trace_attempt_no),
    }
}

/// Only acknowledged evidence with a non-empty `data_sign` is accepted, a
/// `NotFound` is a safe downgrade only in the SentReplay context (elsewhere
/// it is drift), and every outcome that carries the SentReplay trace
/// attempt number carries the one it was given.
pub proof fn evidence_routing_laws(
    result: Result<CheckAck, DpsError>,
    source: Kvt2ConfirmSource,
    trace: Option<i64>,
    superseded: bool,
    r: Kvt2ConfirmOutcome,
)
    requires
        classified_as(result, source, trace, superseded, r),
        (source == Kvt2ConfirmSource::SentReplay && result == Err::<CheckAck, DpsError>(DpsError::NotFound))
            ==> trace is Some,
    ensures
        r is Acked ==> (result is Ok && result->Ok_0.data_sign@.len() > 0),
        result == Err::<CheckAck, DpsError>(DpsError::NotFound) ==> (r is SentNotFoundDowngrade <==> source
            == Kvt2ConfirmSource::SentReplay),
        r is SentNotFoundDowngrade ==> source == Kvt2ConfirmSource::SentReplay,
        outcome_trace(r) == trace,
{
}

/// The bundled SentReplay envelopes (replay advance, bundled drift and
/// hold, downgrade, supersession) are planned only in the SentReplay
/// context; the other contexts use the light envelopes or fault.
pub proof fn bundled_envelopes_only_for_sent_replay(source: Kvt2ConfirmSource, outcome: Kvt2ConfirmOutcome)
    ensures
        source != Kvt2ConfirmSource::SentReplay ==> match confirm_plan_of(source, outcome) {
            ConfirmPlan::ReplayAdvance | ConfirmPlan::DriftBundled | ConfirmPlan::HoldBundled { .. }
            | ConfirmPlan::Downgrade | ConfirmPlan::Superseded => false,
            _ => true,
        },
        source == Kvt2ConfirmSource::SentReplay ==> match confirm_plan_of(source, outcome) {
            ConfirmPlan::AdvanceToAck | ConfirmPlan::DriftLight | ConfirmPlan::HoldLight { .. } => false,
            _ => true,
        },
{
}


/// Every hold plan, light or bundled, carries the hold projection of its
/// context: a SentReplay hold rests at SENT like a fresh one, and only a
/// `KVT1` re-entry rests at KVT1.
pub proof fn hold_plans_carry_context_projection(source: Kvt2ConfirmSource, outcome: Kvt2ConfirmOutcome)
    requires
        outcome is Hold,
    ensures
        match confirm_plan_of(source, outcome) {
            ConfirmPlan::HoldLight { projection } => projection == hold_projection_of(source)
                && source != Kvt2ConfirmSource::SentReplay,
            ConfirmPlan::HoldBundled { projection } => projection == HoldFnDrainProjection::HeldAtSent
                && source == Kvt2ConfirmSource::SentReplay,
            _ => false,
        },
{
}

} // verus!
