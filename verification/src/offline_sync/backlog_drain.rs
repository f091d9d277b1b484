//! Backlog drain: the per-FN drain summary with its finalize gate, the
//! failure taxonomy, and the per-doc / per-tick drain decisions.

use vstd::prelude::*;

use crate::model::{docstate_wire, DocState, DocumentId, NodeMode, OfflineSessionState, RetryClass, Severity, ShiftState, TransitionOutcome};
use crate::reconciliation::er_redrive_policy::ErRedriveDecision;
use crate::text::{concat, hex_lower, hex_lower_spec};

verus! {

// ─── Per-doc confirmation seam ───────────────────────────────────────

/// Per-doc confirmation result: only `Acked` counts towards
/// `advanced_to_ack`; `DeferredKvt1` blocks finalize.
#[derive(Debug, Clone, PartialEq, Eq)]
pub enum W12ConfirmOutcome {
    DeferredKvt1,
    Acked { server_fiscal_no: String },
}

impl W12ConfirmOutcome {
    /// Audit `to_state` literal.
    pub fn final_state_str(&self) -> (r: &'static str)
        ensures
            r@ == (match self {
                W12ConfirmOutcome::DeferredKvt1 => "KVT1"@,
                W12ConfirmOutcome::Acked { .. } => "ACK"@,
            }),
    {
        match self {
            W12ConfirmOutcome::DeferredKvt1 => "KVT1",
            W12ConfirmOutcome::Acked { .. } => "ACK",
        }
    }

    /// Audit `w12_status` literal.
    pub fn w12_status_str(&self) -> (r: &'static str)
        ensures
            r@ == (match self {
                W12ConfirmOutcome::DeferredKvt1 => "DeferredKvt1"@,
                W12ConfirmOutcome::Acked { .. } => "Acked"@,
            }),
    {
        match self {
            W12ConfirmOutcome::DeferredKvt1 => "DeferredKvt1",
            W12ConfirmOutcome::Acked { .. } => "Acked",
        }
    }
}

// ─── Finalize gate types ─────────────────────────────────────────────

/// Result of the finalize gate.
#[derive(Debug, Clone, Copy, PartialEq, Eq)]
pub enum FinalizeEligibility {
    Eligible,
    NotEligible { reason: NotEligibleReason },
}

/// Why the drain cannot finalize (highest-precedence blocker).
#[derive(Debug, Clone, Copy, PartialEq, Eq)]
#[non_exhaustive]
pub enum NotEligibleReason {
    PerDocFailuresPresent { count: usize },
    DocsHeldAtKvt1 { count: usize },
    DocsHeldAtSent { count: usize },
    DocsErRedriveQueued { count: usize },
    DocsDeferredAtKvt1 { count: usize },
    AckCountMismatch { expected: usize, actual: usize },
}

/// The stable `kind` name of a finalize blocker in audit payloads.
pub open spec fn not_eligible_kind(r: NotEligibleReason) -> Seq<char> {
    match r {
        NotEligibleReason::PerDocFailuresPresent { .. } => "PerDocFailuresPresent"@,
        NotEligibleReason::DocsHeldAtKvt1 { .. } => "DocsHeldAtKvt1"@,
        NotEligibleReason::DocsHeldAtSent { .. } => "DocsHeldAtSent"@,
        NotEligibleReason::DocsErRedriveQueued { .. } => "DocsErRedriveQueued"@,
        NotEligibleReason::DocsDeferredAtKvt1 { .. } => "DocsDeferredAtKvt1"@,
        NotEligibleReason::AckCountMismatch { .. } => "AckCountMismatch"@,
    }
}

impl NotEligibleReason {
    /// The stable `kind` name of this blocker.
    pub fn kind(&self) -> (r: &'static str)
        ensures
            r@ == not_eligible_kind(*self),
    {
        match self {
            NotEligibleReason::PerDocFailuresPresent { .. } => "PerDocFailuresPresent",
            NotEligibleReason::DocsHeldAtKvt1 { .. } => "DocsHeldAtKvt1",
            NotEligibleReason::DocsHeldAtSent { .. } => "DocsHeldAtSent",
            NotEligibleReason::DocsErRedriveQueued { .. } => "DocsErRedriveQueued",
            NotEligibleReason::DocsDeferredAtKvt1 { .. } => "DocsDeferredAtKvt1",
            NotEligibleReason::AckCountMismatch { .. } => "AckCountMismatch",
        }
    }
}

/// Error of [`DrainSummary::mark_finalized`].
#[derive(Debug, Clone, Copy, PartialEq, Eq)]
pub enum FinalizeError {
    NotEligible(NotEligibleReason),
}

// ─── DrainSummary ────────────────────────────────────────────────────

/// Mathematical model of a [`DrainSummary`].
pub struct DrainSummaryView {
    pub fiscal_number: Seq<char>,
    pub backlog_size_before: usize,
    pub advanced_to_ack: usize,
    pub advanced_to_kvt1: usize,
    pub advanced_via_lastchk_replay: usize,
    pub held_at_kvt1: usize,
    pub held_at_sent: usize,
    pub er_redrive_queued: usize,
    pub per_doc_failures: Seq<(DocumentId, Seq<char>)>,
    pub finalized: bool,
}

/// The finalize gate over a summary model, in precedence order.
pub open spec fn eligibility_of(v: DrainSummaryView) -> FinalizeEligibility {
    if v.per_doc_failures.len() > 0 {
        FinalizeEligibility::NotEligible {
            reason: NotEligibleReason::PerDocFailuresPresent { count: v.per_doc_failures.len() as usize },
        }
    } else if v.held_at_kvt1 > 0 {
        FinalizeEligibility::NotEligible { reason: NotEligibleReason::DocsHeldAtKvt1 { count: v.held_at_kvt1 } }
    } else if v.held_at_sent > 0 {
        FinalizeEligibility::NotEligible { reason: NotEligibleReason::DocsHeldAtSent { count: v.held_at_sent } }
    } else if v.er_redrive_queued > 0 {
        FinalizeEligibility::NotEligible {
            reason: NotEligibleReason::DocsErRedriveQueued { count: v.er_redrive_queued },
        }
    } else if v.advanced_to_kvt1 > 0 {
        FinalizeEligibility::NotEligible {
            reason: NotEligibleReason::DocsDeferredAtKvt1 { count: v.advanced_to_kvt1 },
        }
    } else if v.advanced_to_ack != v.backlog_size_before {
        FinalizeEligibility::NotEligible {
            reason: NotEligibleReason::AckCountMismatch {
                expected: v.backlog_size_before,
                actual: v.advanced_to_ack,
            },
        }
    } else {
        FinalizeEligibility::Eligible
    }
}

/// The summary may finalize: nothing failed or is held, and every doc of
/// the backlog reached ACK.
pub open spec fn finalizable(v: DrainSummaryView) -> bool {
    &&& v.per_doc_failures.len() == 0
    &&& v.held_at_kvt1 == 0
    &&& v.held_at_sent == 0
    &&& v.er_redrive_queued == 0
    &&& v.advanced_to_kvt1 == 0
    &&& v.advanced_to_ack == v.backlog_size_before
}

/// Per-FN drain outcome.  All fields are private: counters only move
/// through the recording methods, and `finalized` only through
/// [`DrainSummary::mark_finalized`].
#[derive(Debug, Clone, PartialEq, Eq)]
pub struct DrainSummary {
    fiscal_number: String,
    backlog_size_before: usize,
    advanced_to_ack: usize,
    advanced_to_kvt1: usize,
    advanced_via_lastchk_replay: usize,
    held_at_kvt1: usize,
    held_at_sent: usize,
    er_redrive_queued: usize,
    per_doc_failures: Vec<(DocumentId, String)>,
    finalized: bool,
}

pub open spec fn failure_view(p: (DocumentId, String)) -> (DocumentId, Seq<char>) {
    (p.0, p.1@)
}

impl View for DrainSummary {
    type V = DrainSummaryView;

    closed spec fn view(&self) -> DrainSummaryView {
        DrainSummaryView {
            fiscal_number: self.fiscal_number@,
            backlog_size_before: self.backlog_size_before,
            advanced_to_ack: self.advanced_to_ack,
            advanced_to_kvt1: self.advanced_to_kvt1,
            advanced_via_lastchk_replay: self.advanced_via_lastchk_replay,
            held_at_kvt1: self.held_at_kvt1,
            held_at_sent: self.held_at_sent,
            er_redrive_queued: self.er_redrive_queued,
            per_doc_failures: self.per_doc_failures@.map_values(|p: (DocumentId, String)| failure_view(p)),
            finalized: self.finalized,
        }
    }
}

/// One operation on a drain summary, as its model sees it.
pub enum DrainOp {
    /// `record_doc_advanced` of an `Acked` (or `DeferredKvt1`) outcome.
    Advanced { acked: bool, via_lastchk_replay: bool },
    /// `record_doc_failure`.
    Failure { document_id: DocumentId, class: Seq<char> },
    /// `record_doc_held_at_kvt1`.
    HeldAtKvt1,
    /// `record_doc_held_at_sent`.
    HeldAtSent,
    /// `record_doc_er_redrive_queued`.
    ErRedriveQueued,
    /// `mark_finalized`.
    Finalize,
}

/// The summary model after one operation.
pub open spec fn drain_op_view(v: DrainSummaryView, op: DrainOp) -> DrainSummaryView {
    match op {
        DrainOp::Advanced { acked, via_lastchk_replay } => DrainSummaryView {
            advanced_to_ack: if acked { (v.advanced_to_ack + 1) as usize } else { v.advanced_to_ack },
            advanced_to_kvt1: if !acked { (v.advanced_to_kvt1 + 1) as usize } else { v.advanced_to_kvt1 },
            advanced_via_lastchk_replay: if via_lastchk_replay {
                (v.advanced_via_lastchk_replay + 1) as usize
            } else {
                v.advanced_via_lastchk_replay
            },
            ..v
        },
        DrainOp::Failure { document_id, class } => DrainSummaryView {
            per_doc_failures: v.per_doc_failures.push((document_id, class)),
            ..v
        },
        DrainOp::HeldAtKvt1 => DrainSummaryView { held_at_kvt1: (v.held_at_kvt1 + 1) as usize, ..v },
        DrainOp::HeldAtSent => DrainSummaryView { held_at_sent: (v.held_at_sent + 1) as usize, ..v },
        DrainOp::ErRedriveQueued => DrainSummaryView { er_redrive_queued: (v.er_redrive_queued + 1) as usize, ..v },
        DrainOp::Finalize => if finalizable(v) { DrainSummaryView { finalized: true, ..v } } else { v },
    }
}

/// The summary model after a sequence of operations, in order.
pub open spec fn drain_ops_view(v: DrainSummaryView, ops: Seq<DrainOp>) -> DrainSummaryView
    decreases ops.len(),
{
    if ops.len() == 0 {
        v
    } else {
        drain_op_view(drain_ops_view(v, ops.drop_last()), ops.last())
    }
}

impl DrainSummary {
    /// Fresh summary: all counters 0, no failures, not finalized.
    pub fn new(fiscal_number: String, backlog_size_before: usize) -> (r: DrainSummary)
        ensures
            r@ == (DrainSummaryView {
                fiscal_number: fiscal_number@,
                backlog_size_before,
                advanced_to_ack: 0,
                advanced_to_kvt1: 0,
                advanced_via_lastchk_replay: 0,
                held_at_kvt1: 0,
                held_at_sent: 0,
                er_redrive_queued: 0,
                per_doc_failures: Seq::empty(),
                finalized: false,
            }),
    {
        let r = DrainSummary {
            fiscal_number,
            backlog_size_before,
            advanced_to_ack: 0,
            advanced_to_kvt1: 0,
            advanced_via_lastchk_replay: 0,
            held_at_kvt1: 0,
            held_at_sent: 0,
            er_redrive_queued: 0,
            per_doc_failures: Vec::new(),
            finalized: false,
        };
        assert(r@.per_doc_failures =~= Seq::<(DocumentId, Seq<char>)>::empty());
        r
    }

    /// Record a per-doc advance: `Acked` bumps `advanced_to_ack`,
    /// `DeferredKvt1` bumps `advanced_to_kvt1`; a lastChk replay also
    /// bumps `advanced_via_lastchk_replay`.
    pub fn record_doc_advanced(&mut self, outcome: &W12ConfirmOutcome, via_lastchk_replay: bool)
        requires
            outcome is Acked ==> old(self)@.advanced_to_ack < usize::MAX,
            outcome is DeferredKvt1 ==> old(self)@.advanced_to_kvt1 < usize::MAX,
            via_lastchk_replay ==> old(self)@.advanced_via_lastchk_replay < usize::MAX,
        ensures
            final(self)@ == drain_op_view(old(self)@, DrainOp::Advanced { acked: outcome is Acked, via_lastchk_replay }),
            final(self)@ == (DrainSummaryView {
                advanced_to_ack: if outcome is Acked {
                    (old(self)@.advanced_to_ack + 1) as usize
                } else {
                    old(self)@.advanced_to_ack
                },
                advanced_to_kvt1: if outcome is DeferredKvt1 {
                    (old(self)@.advanced_to_kvt1 + 1) as usize
                } else {
                    old(self)@.advanced_to_kvt1
                },
                advanced_via_lastchk_replay: if via_lastchk_replay {
                    (old(self)@.advanced_via_lastchk_replay + 1) as usize
                } else {
                    old(self)@.advanced_via_lastchk_replay
                },
                ..old(self)@
            }),
    {
        match outcome {
            W12ConfirmOutcome::DeferredKvt1 => self.advanced_to_kvt1 = self.advanced_to_kvt1 + 1,
            W12ConfirmOutcome::Acked { .. } => self.advanced_to_ack = self.advanced_to_ack + 1,
        }
        if via_lastchk_replay {
            self.advanced_via_lastchk_replay = self.advanced_via_lastchk_replay + 1;
        }
    }

    /// Append a per-doc failure (document + stable failure-class string).
    pub fn record_doc_failure(&mut self, document_id: DocumentId, failure_class: String)
        ensures
            final(self)@ == drain_op_view(old(self)@, DrainOp::Failure { document_id, class: failure_class@ }),
            final(self)@ == (DrainSummaryView {
                per_doc_failures: old(self)@.per_doc_failures.push((document_id, failure_class@)),
                ..old(self)@
            }),
    {
        let ghost class_view = failure_class@;
        self.per_doc_failures.push((document_id, failure_class));
        assert(self@.per_doc_failures =~= old(self)@.per_doc_failures.push((document_id, class_view)));
    }

    /// Count a hold at KVT1 (the hold class is kept in the audit log only).
    pub fn record_doc_held_at_kvt1(&mut self, _doc_id: DocumentId, _hold_class: String)
        requires
            old(self)@.held_at_kvt1 < usize::MAX,
        ensures
            final(self)@ == drain_op_view(old(self)@, DrainOp::HeldAtKvt1),
            final(self)@ == (DrainSummaryView {
                held_at_kvt1: (old(self)@.held_at_kvt1 + 1) as usize,
                ..old(self)@
            }),
    {
        self.held_at_kvt1 = self.held_at_kvt1 + 1;
    }

    /// Count a hold at SENT.
    pub fn record_doc_held_at_sent(&mut self, _doc_id: DocumentId, _hold_class: String)
        requires
            old(self)@.held_at_sent < usize::MAX,
        ensures
            final(self)@ == drain_op_view(old(self)@, DrainOp::HeldAtSent),
            final(self)@ == (DrainSummaryView {
                held_at_sent: (old(self)@.held_at_sent + 1) as usize,
                ..old(self)@
            }),
    {
        self.held_at_sent = self.held_at_sent + 1;
    }

    /// Count a SENT→ERROR_RETRYABLE downgrade queued for re-drive.
    pub fn record_doc_er_redrive_queued(&mut self, _doc_id: DocumentId, _downgrade_class: String)
        requires
            old(self)@.er_redrive_queued < usize::MAX,
        ensures
            final(self)@ == drain_op_view(old(self)@, DrainOp::ErRedriveQueued),
            final(self)@ == (DrainSummaryView {
                er_redrive_queued: (old(self)@.er_redrive_queued + 1) as usize,
                ..old(self)@
            }),
    {
        self.er_redrive_queued = self.er_redrive_queued + 1;
    }

    /// The finalize gate: the highest-precedence blocker, or `Eligible`.
    pub fn finalize_eligibility(&self) -> (r: FinalizeEligibility)
        ensures
            r == eligibility_of(self@),
            (r is Eligible) <==> finalizable(self@),
    {
        if self.per_doc_failures.len() > 0 {
            return FinalizeEligibility::NotEligible {
                reason: NotEligibleReason::PerDocFailuresPresent { count: self.per_doc_failures.len() },
            };
        }
        if self.held_at_kvt1 > 0 {
            return FinalizeEligibility::NotEligible {
                reason: NotEligibleReason::DocsHeldAtKvt1 { count: self.held_at_kvt1 },
            };
        }
        if self.held_at_sent > 0 {
            return FinalizeEligibility::NotEligible {
                reason: NotEligibleReason::DocsHeldAtSent { count: self.held_at_sent },
            };
        }
        if self.er_redrive_queued > 0 {
            return FinalizeEligibility::NotEligible {
                reason: NotEligibleReason::DocsErRedriveQueued { count: self.er_redrive_queued },
            };
        }
        if self.advanced_to_kvt1 > 0 {
            return FinalizeEligibility::NotEligible {
                reason: NotEligibleReason::DocsDeferredAtKvt1 { count: self.advanced_to_kvt1 },
            };
        }
        if self.advanced_to_ack != self.backlog_size_before {
            return FinalizeEligibility::NotEligible {
                reason: NotEligibleReason::AckCountMismatch {
                    expected: self.backlog_size_before,
                    actual: self.advanced_to_ack,
                },
            };
        }
        FinalizeEligibility::Eligible
    }

    /// Set `finalized` when the summary is `Eligible`; otherwise return the
    /// blocking reason and leave the summary unchanged.
    pub fn mark_finalized(&mut self) -> (r: Result<(), FinalizeError>)
        ensures
            final(self)@ == drain_op_view(old(self)@, DrainOp::Finalize),
            finalizable(old(self)@) ==> r is Ok && final(self)@ == (DrainSummaryView {
                finalized: true,
                ..old(self)@
            }),
            !finalizable(old(self)@) ==> final(self)@ == old(self)@ && (match eligibility_of(old(self)@) {
                FinalizeEligibility::NotEligible { reason } => r == Err::<(), FinalizeError>(
                    FinalizeError::NotEligible(reason),
                ),
                FinalizeEligibility::Eligible => false,
            }),
    {
        match self.finalize_eligibility() {
            FinalizeEligibility::Eligible => {
                self.finalized = true;
                Ok(())
            },
            FinalizeEligibility::NotEligible { reason } => Err(FinalizeError::NotEligible(reason)),
        }
    }

    pub fn fiscal_number(&self) -> (r: &str)
        ensures
            r@ == self@.fiscal_number,
    {
        self.fiscal_number.as_str()
    }

    pub fn backlog_size_before(&self) -> (r: usize)
        ensures
            r == self@.backlog_size_before,
    {
        self.backlog_size_before
    }

    pub fn advanced_to_ack(&self) -> (r: usize)
        ensures
            r == self@.advanced_to_ack,
    {
        self.advanced_to_ack
    }

    pub fn advanced_to_kvt1(&self) -> (r: usize)
        ensures
            r == self@.advanced_to_kvt1,
    {
        self.advanced_to_kvt1
    }

    pub fn advanced_via_lastchk_replay(&self) -> (r: usize)
        ensures
            r == self@.advanced_via_lastchk_replay,
    {
        self.advanced_via_lastchk_replay
    }

    pub fn per_doc_failures(&self) -> (r: &[(DocumentId, String)])
        ensures
            r@.map_values(|p: (DocumentId, String)| failure_view(p)) == self@.per_doc_failures,
    {
        self.per_doc_failures.as_slice()
    }

    pub fn held_at_kvt1(&self) -> (r: usize)
        ensures
            r == self@.held_at_kvt1,
    {
        self.held_at_kvt1
    }

    pub fn held_at_sent(&self) -> (r: usize)
        ensures
            r == self@.held_at_sent,
    {
        self.held_at_sent
    }

    pub fn er_redrive_queued(&self) -> (r: usize)
        ensures
            r == self@.er_redrive_queued,
    {
        self.er_redrive_queued
    }

    pub fn finalized(&self) -> (r: bool)
        ensures
            r == self@.finalized,
    {
        self.finalized
    }
}


// ─── Failure taxonomy ────────────────────────────────────────────────

/// Closed failure taxonomy for drain per-doc outcomes.
#[derive(Debug, Clone, Copy, PartialEq, Eq, Structural)]
#[non_exhaustive]
pub enum FailureClass {
    SignerRefused,
    StateConflict,
    WireRoutingTerminalReject,
    WireRoutingProbeRequired,
    WireRoutingTransientRetry,
    Transport,
    Authorization,
    Server,
    Decode,
    Internal,
    NotFound,
    OfflineFiscalNoMissing,
    BudgetExhausted,
    RetryClassIndeterminate,
    ChainSeedMismatch,
}

/// The stable dashboard string of a failure class.
pub open spec fn failure_class_str(class: FailureClass) -> Seq<char> {
    match class {
        FailureClass::SignerRefused => "signer_refused"@,
        FailureClass::StateConflict => "state_conflict"@,
        FailureClass::WireRoutingTerminalReject => "wire_routing_terminal_reject"@,
        FailureClass::WireRoutingProbeRequired => "wire_routing_probe_required"@,
        FailureClass::WireRoutingTransientRetry => "wire_routing_transient_retry"@,
        FailureClass::Transport => "transport"@,
        FailureClass::Authorization => "authorization"@,
        FailureClass::Server => "server"@,
        FailureClass::Decode => "decode"@,
        FailureClass::Internal => "internal"@,
        FailureClass::NotFound => "not_found"@,
        FailureClass::OfflineFiscalNoMissing => "offline_fiscal_no_missing"@,
        FailureClass::BudgetExhausted => "budget_exhausted"@,
        FailureClass::RetryClassIndeterminate => "retry_class_indeterminate"@,
        FailureClass::ChainSeedMismatch => "chain_seed_mismatch"@,
    }
}

/// Stable string per failure class (dashboards filter on these).
pub fn failure_class_for(class: FailureClass) -> (r: &'static str)
    ensures
        r@ == failure_class_str(class),
{
    match class {
        FailureClass::SignerRefused => "signer_refused",
        FailureClass::StateConflict => "state_conflict",
        FailureClass::WireRoutingTerminalReject => "wire_routing_terminal_reject",
        FailureClass::WireRoutingProbeRequired => "wire_routing_probe_required",
        FailureClass::WireRoutingTransientRetry => "wire_routing_transient_retry",
        FailureClass::Transport => "transport",
        FailureClass::Authorization => "authorization",
        FailureClass::Server => "server",
        FailureClass::Decode => "decode",
        FailureClass::Internal => "internal",
        FailureClass::NotFound => "not_found",
        FailureClass::OfflineFiscalNoMissing => "offline_fiscal_no_missing",
        FailureClass::BudgetExhausted => "budget_exhausted",
        FailureClass::RetryClassIndeterminate => "retry_class_indeterminate",
        FailureClass::ChainSeedMismatch => "chain_seed_mismatch",
    }
}

/// Manual-recon-class retry classes: terminal / operator-actionable ones.
/// Transient and probe-required classes keep their retry budget.
pub open spec fn manual_recon_retry_class(retry: RetryClass) -> bool {
    match retry {
        RetryClass::TerminalReject
        | RetryClass::FnConfigError
        | RetryClass::WrapperBug
        | RetryClass::MacRecovery
        | RetryClass::OperatorEscalation => true,
        RetryClass::TransientRetry
        | RetryClass::DrainChainSettleRetry
        | RetryClass::ProbeRequired => false,
    }
}

/// Whether a routed retry class halts + escalates a pending-drain FN.
pub fn is_manual_recon_retry_class(retry: RetryClass) -> (r: bool)
    ensures
        r == manual_recon_retry_class(retry),
{
    match retry {
        RetryClass::TerminalReject
        | RetryClass::FnConfigError
        | RetryClass::WrapperBug
        | RetryClass::MacRecovery
        | RetryClass::OperatorEscalation => true,
        RetryClass::TransientRetry
        | RetryClass::DrainChainSettleRetry
        | RetryClass::ProbeRequired => false,
    }
}

/// Projection of a routed retry class onto the drain failure taxonomy.
pub open spec fn failure_class_of_retry(retry: RetryClass) -> FailureClass {
    match retry {
        RetryClass::TerminalReject => FailureClass::WireRoutingTerminalReject,
        RetryClass::TransientRetry => FailureClass::WireRoutingTransientRetry,
        RetryClass::DrainChainSettleRetry => FailureClass::WireRoutingTransientRetry,
        RetryClass::ProbeRequired => FailureClass::WireRoutingProbeRequired,
        RetryClass::FnConfigError => FailureClass::Authorization,
        RetryClass::WrapperBug => FailureClass::Internal,
        RetryClass::MacRecovery => FailureClass::Internal,
        RetryClass::OperatorEscalation => FailureClass::Server,
    }
}

/// Map a routed retry class to its drain failure class.
pub fn failure_class_for_retry(retry: RetryClass) -> (r: FailureClass)
    ensures
        r == failure_class_of_retry(retry),
{
    match retry {
        RetryClass::TerminalReject => FailureClass::WireRoutingTerminalReject,
        RetryClass::TransientRetry => FailureClass::WireRoutingTransientRetry,
        RetryClass::DrainChainSettleRetry => FailureClass::WireRoutingTransientRetry,
        RetryClass::ProbeRequired => FailureClass::WireRoutingProbeRequired,
        RetryClass::FnConfigError => FailureClass::Authorization,
        RetryClass::WrapperBug => FailureClass::Internal,
        RetryClass::MacRecovery => FailureClass::Internal,
        RetryClass::OperatorEscalation => FailureClass::Server,
    }
}

/// Per-doc `stage_send` error kinds (what the drain reads of them).
#[derive(Debug, Clone, Copy, PartialEq, Eq, Structural)]
pub enum StageSendError {
    OfflineFiscalNoMissing,
    OfflineFiscalNoNonPositive,
    DocumentMissingForRecovery,
    UnsupportedDocType,
    LndOutOfRangeI32,
    TimestampConversion,
    SignedArtifactMissing,
    EmptyServerFiscalNo,
    PostWireCasFailed,
    MarkSubmissionAttemptedMissing,
    NodeStateMissingForBlock,
    MacRecoveryContextMissing,
    MacRecoveryArtifactMissing,
    FnConfigMissingForRecovery,
    MacRecoverySignFailed,
    MacRecoverySnapshotReloadFailed,
    SetServerFiscalNoMissing,
    TraceMissingAtComplete,
    Db,
    Internal,
}

pub open spec fn failure_class_of_send_err(err: StageSendError) -> FailureClass {
    match err {
        StageSendError::OfflineFiscalNoMissing
        | StageSendError::OfflineFiscalNoNonPositive => FailureClass::OfflineFiscalNoMissing,
        StageSendError::DocumentMissingForRecovery => FailureClass::NotFound,
        _ => FailureClass::Internal,
    }
}

/// Map a `stage_send` error to its drain failure class.
pub fn failure_class_for_send_err(err: &StageSendError) -> (r: FailureClass)
    ensures
        r == failure_class_of_send_err(*err),
{
    match err {
        StageSendError::OfflineFiscalNoMissing
        | StageSendError::OfflineFiscalNoNonPositive => FailureClass::OfflineFiscalNoMissing,
        StageSendError::DocumentMissingForRecovery => FailureClass::NotFound,
        _ => FailureClass::Internal,
    }
}

/// Wire-form string of a transition outcome.
pub fn outcome_as_str(outcome: TransitionOutcome) -> (r: &'static str)
    ensures
        r@ == (match outcome {
            TransitionOutcome::Applied => "Applied"@,
            TransitionOutcome::Forbidden => "Forbidden"@,
            TransitionOutcome::Conflict => "Conflict"@,
            TransitionOutcome::NotFound => "NotFound"@,
        }),
{
    match outcome {
        TransitionOutcome::Applied => "Applied",
        TransitionOutcome::Forbidden => "Forbidden",
        TransitionOutcome::Conflict => "Conflict",
        TransitionOutcome::NotFound => "NotFound",
    }
}

// ─── Per-doc verdicts ────────────────────────────────────────────────

/// Durable-state projection of a transient hold.
#[derive(Debug, Clone, Copy, PartialEq, Eq, Structural)]
pub enum HoldFnDrainProjection {
    HeldAtKvt1,
    HeldAtSent,
    ErRedriveQueued,
}

/// Outcome bucket for one processed doc.
#[derive(Debug, Clone, Copy, PartialEq, Eq)]
pub enum DocVerdict {
    Advanced,
    Failed { class: FailureClass, manual_recon: bool },
    HoldFnDrain { class: FailureClass, projection: HoldFnDrainProjection, consecutive_holds: i64 },
    SupersededHeld,
}

/// Degradation tier raised by a persistently held predecessor.
#[derive(Debug, Clone, Copy, PartialEq, Eq, Structural)]
pub enum HoldTier {
    /// No tier fires.
    NoTier,
    /// Tier 1 (>= 10 consecutive holds): prolonged-hold warning audit.
    ProlongedHold,
    /// Tier 2 (>= 50 consecutive holds): node STOP_MODE + critical audit.
    StopMode,
}

pub const TIER_1_PROLONGED_HOLD_THRESHOLD: i64 = 10;

pub const TIER_2_STOP_MODE_THRESHOLD: i64 = 50;

pub open spec fn hold_tier_of(projection: HoldFnDrainProjection, consecutive_holds: i64) -> HoldTier {
    if projection is ErRedriveQueued {
        HoldTier::NoTier
    } else if consecutive_holds >= TIER_2_STOP_MODE_THRESHOLD {
        HoldTier::StopMode
    } else if consecutive_holds >= TIER_1_PROLONGED_HOLD_THRESHOLD {
        HoldTier::ProlongedHold
    } else {
        HoldTier::NoTier
    }
}

/// The degradation tier for a held doc (Tier 2 checked first; an
/// ER-redrive downgrade never raises a tier).
pub fn hold_tier(projection: HoldFnDrainProjection, consecutive_holds: i64) -> (r: HoldTier)
    ensures
        r == hold_tier_of(projection, consecutive_holds),
{
    let tiered = match projection {
        HoldFnDrainProjection::HeldAtSent | HoldFnDrainProjection::HeldAtKvt1 => true,
        HoldFnDrainProjection::ErRedriveQueued => false,
    };
    if consecutive_holds >= TIER_2_STOP_MODE_THRESHOLD && tiered {
        HoldTier::StopMode
    } else if consecutive_holds >= TIER_1_PROLONGED_HOLD_THRESHOLD && tiered {
        HoldTier::ProlongedHold
    } else {
        HoldTier::NoTier
    }
}

/// What the strict-sequential drain loop does after one doc.
#[derive(Debug, Clone, Copy, PartialEq, Eq)]
pub enum DrainStep {
    /// The doc reached ACK: the chain may advance to the next doc.
    Continue,
    /// Transient: stop the chain for this tick, no manual escalation;
    /// fire the given degradation tier.
    Halt { tier: HoldTier },
    /// Terminal / non-self-resolving: stop and escalate the FN's shift to
    /// manual reconciliation, recording `failure_class`.
    Escalate { failure_class: &'static str },
}

/// The loop step a verdict prescribes.
pub open spec fn drain_step_of(verdict: DocVerdict) -> (DrainStep, Seq<char>) {
    match verdict {
        DocVerdict::Advanced => (DrainStep::Continue, Seq::empty()),
        DocVerdict::HoldFnDrain { projection, consecutive_holds, .. } => (
            DrainStep::Halt { tier: hold_tier_of(projection, consecutive_holds) },
            Seq::empty(),
        ),
        DocVerdict::Failed { manual_recon: false, .. } => (DrainStep::Halt { tier: HoldTier::NoTier }, Seq::empty()),
        DocVerdict::Failed { class, manual_recon: true } => (
            DrainStep::Escalate { failure_class: "" },
            failure_class_str(class),
        ),
        DocVerdict::SupersededHeld => (DrainStep::Escalate { failure_class: "" }, "superseded"@),
    }
}

/// Whether a step is of the same kind as the one `drain_step_of`
/// prescribes, with the escalation label given by its second component.
pub open spec fn step_matches(step: DrainStep, expected: (DrainStep, Seq<char>)) -> bool {
    match (step, expected.0) {
        (DrainStep::Escalate { failure_class }, DrainStep::Escalate { .. }) => failure_class@ == expected.1,
        (s, e) => s == e,
    }
}

/// The summary model after applying one document outcome to it.
pub open spec fn verdict_view(v: DrainSummaryView, verdict: DocVerdict) -> DrainSummaryView {
    match verdict {
        DocVerdict::HoldFnDrain { projection: HoldFnDrainProjection::HeldAtKvt1, .. } => drain_op_view(
            v,
            DrainOp::HeldAtKvt1,
        ),
        DocVerdict::HoldFnDrain { projection: HoldFnDrainProjection::HeldAtSent, .. }
        | DocVerdict::SupersededHeld => drain_op_view(v, DrainOp::HeldAtSent),
        DocVerdict::HoldFnDrain { projection: HoldFnDrainProjection::ErRedriveQueued, .. } => drain_op_view(
            v,
            DrainOp::ErRedriveQueued,
        ),
        _ => v,
    }
}

/// Apply one doc's verdict to the summary and return the loop step.
///
/// Transient holds are counted on their projection's counter; a
/// superseded predecessor is counted as held-at-SENT and escalates.
/// Failures were already recorded when the verdict was formed.
pub fn apply_drain_verdict(summary: &mut DrainSummary, doc_id: DocumentId, verdict: DocVerdict) -> (r: DrainStep)
    requires
        old(summary)@.held_at_kvt1 < usize::MAX,
        old(summary)@.held_at_sent < usize::MAX,
        old(summary)@.er_redrive_queued < usize::MAX,
    ensures
        final(summary)@ == verdict_view(old(summary)@, verdict),
        step_matches(r, drain_step_of(verdict)),
        final(summary)@ == (match verdict {
            DocVerdict::HoldFnDrain { projection: HoldFnDrainProjection::HeldAtKvt1, .. } => DrainSummaryView {
                held_at_kvt1: (old(summary)@.held_at_kvt1 + 1) as usize,
                ..old(summary)@
            },
            DocVerdict::HoldFnDrain { projection: HoldFnDrainProjection::HeldAtSent, .. }
            | DocVerdict::SupersededHeld => DrainSummaryView {
                held_at_sent: (old(summary)@.held_at_sent + 1) as usize,
                ..old(summary)@
            },
            DocVerdict::HoldFnDrain { projection: HoldFnDrainProjection::ErRedriveQueued, .. } => DrainSummaryView {
                er_redrive_queued: (old(summary)@.er_redrive_queued + 1) as usize,
                ..old(summary)@
            },
            _ => old(summary)@,
        }),
{
    match verdict {
        DocVerdict::Advanced => DrainStep::Continue,
        DocVerdict::HoldFnDrain { class, projection, consecutive_holds } => {
            let class_str = failure_class_for(class).to_string();
            match projection {
                HoldFnDrainProjection::HeldAtKvt1 => summary.record_doc_held_at_kvt1(doc_id, class_str),
                HoldFnDrainProjection::HeldAtSent => summary.record_doc_held_at_sent(doc_id, class_str),
                HoldFnDrainProjection::ErRedriveQueued => summary.record_doc_er_redrive_queued(doc_id, class_str),
            }
            DrainStep::Halt { tier: hold_tier(projection, consecutive_holds) }
        },
        DocVerdict::Failed { manual_recon: false, .. } => DrainStep::Halt { tier: HoldTier::NoTier },
        DocVerdict::Failed { class, manual_recon: true } => DrainStep::Escalate { failure_class: failure_class_for(class) },
        DocVerdict::SupersededHeld => {
            summary.record_doc_held_at_sent(doc_id, "superseded".to_string());
            DrainStep::Escalate { failure_class: "superseded" }
        },
    }
}


// ─── Drain entry gates ───────────────────────────────────────────────

/// First gate of a drain tick, on the FN's node state.
#[derive(Debug, Clone, Copy, PartialEq, Eq, Structural)]
pub enum DrainGate {
    /// Mode is not GOING_ONLINE: skip with an `OFFLINE_DRAIN_SKIPPED_NOT_GOING_ONLINE` audit.
    NotGoingOnline,
    /// The shift is halted at manual reconciliation: skip silently until
    /// an operator resolves it.
    ManualReconHalted,
    /// Proceed to the session / backlog reads.
    Proceed,
}

pub fn drain_gate(mode: NodeMode, shift_state: ShiftState) -> (r: DrainGate)
    ensures
        r == (if mode != NodeMode::GoingOnline {
            DrainGate::NotGoingOnline
        } else if shift_state == ShiftState::RequiresManualReconciliation {
            DrainGate::ManualReconHalted
        } else {
            DrainGate::Proceed
        }),
{
    if mode != NodeMode::GoingOnline {
        DrainGate::NotGoingOnline
    } else if shift_state == ShiftState::RequiresManualReconciliation {
        DrainGate::ManualReconHalted
    } else {
        DrainGate::Proceed
    }
}

/// Which per-document path of a drain tick a backlog document takes, by
/// its state.
#[derive(Debug, Clone, Copy, PartialEq, Eq, Structural)]
pub enum DrainRoute {
    /// `OFFLINE_LOCAL_ACK`: send through the staged send, then confirm.
    StageSend,
    /// `ERROR_RETRYABLE`: the ER class guard decides redrive or hold.
    ErClassGuard,
    /// `SENT`: replay through `last_chk` before confirming.
    LastChkReplay,
    /// `KVT1`: confirm towards KVT2 only.
    W12Only,
    /// `KVT2`: advance KVT2 to ACK.
    W12Kvt2Advance,
    /// Any other state: the cohort query let through a document that is
    /// no drain candidate, an internal error.
    Unexpected,
}

pub open spec fn drain_route_of(state: DocState) -> DrainRoute {
    match state {
        DocState::OfflineLocalAck => DrainRoute::StageSend,
        DocState::ErrorRetryable => DrainRoute::ErClassGuard,
        DocState::Sent => DrainRoute::LastChkReplay,
        DocState::Kvt1 => DrainRoute::W12Only,
        DocState::Kvt2 => DrainRoute::W12Kvt2Advance,
        _ => DrainRoute::Unexpected,
    }
}

/// Routes a backlog document to its drain path by its state.
pub fn drain_doc_route(state: DocState) -> (r: DrainRoute)
    ensures
        r == drain_route_of(state),
{
    match state {
        DocState::OfflineLocalAck => DrainRoute::StageSend,
        DocState::ErrorRetryable => DrainRoute::ErClassGuard,
        DocState::Sent => DrainRoute::LastChkReplay,
        DocState::Kvt1 => DrainRoute::W12Only,
        DocState::Kvt2 => DrainRoute::W12Kvt2Advance,
        _ => DrainRoute::Unexpected,
    }
}

pub open spec fn unexpected_state_message_of(fiscal_number: Seq<char>, state: Seq<char>, doc_hex: Seq<char>) -> Seq<char> {
    "backlog_drain("@ + fiscal_number
        + "): cohort walker returned unexpected doc.state "@ + state
        + " for doc "@ + doc_hex
        + " (SELECT must filter to drain candidates: OFFLINE_LOCAL_ACK | SENT | KVT1 | KVT2 | ERROR_RETRYABLE post M3b W12 Commit 3 KVT2 cohort widening)"@
}

/// The internal-error text for a document that reached the drain in a
/// state no drain path takes.
pub fn unexpected_state_message(fiscal_number: &str, state: DocState, doc_id: DocumentId) -> (r: String)
    ensures
        r@ == unexpected_state_message_of(fiscal_number@, docstate_wire(state), hex_lower_spec(doc_id.bytes@)),
{
    let s = concat("backlog_drain(".to_string(), fiscal_number);
    let s = concat(s, "): cohort walker returned unexpected doc.state ");
    let s = concat(s, state.as_str());
    let s = concat(s, " for doc ");
    let s = concat(s, hex_lower(doc_id.as_bytes()).as_str());
    concat(
        s,
        " (SELECT must filter to drain candidates: OFFLINE_LOCAL_ACK | SENT | KVT1 | KVT2 | ERROR_RETRYABLE post M3b W12 Commit 3 KVT2 cohort widening)",
    )
}

/// What a drain tick does with the active offline session and its backlog.
#[derive(Debug, Clone, Copy, PartialEq, Eq, Structural)]
pub enum BacklogPlan {
    /// No OPEN/DRAINING session: empty-backlog skip (reason `no_active_offline_session`).
    NoActiveSession,
    /// Empty cohort, nothing to recover: empty-backlog skip.
    EmptySkip,
    /// Empty cohort on a DRAINING session whose docs are all ACK: a prior
    /// tick crashed before finalizing — finalize now (crash-recovery entry).
    RecoveryFinalize,
    /// Drain the backlog; first move the session OPEN → DRAINING when asked.
    Drain { open_to_draining: bool },
}

/// `completable` is read only for an empty cohort of a DRAINING session;
/// it is ignored otherwise.
pub fn backlog_plan(session: Option<OfflineSessionState>, backlog_len: usize, completable: bool) -> (r: BacklogPlan)
    ensures
        r == (match session {
            None => BacklogPlan::NoActiveSession,
            Some(state) => if backlog_len == 0 {
                if state == OfflineSessionState::Draining && completable {
                    BacklogPlan::RecoveryFinalize
                } else {
                    BacklogPlan::EmptySkip
                }
            } else {
                BacklogPlan::Drain { open_to_draining: state == OfflineSessionState::Open }
            },
        }),
{
    match session {
        None => BacklogPlan::NoActiveSession,
        Some(state) => {
            if backlog_len == 0 {
                if state == OfflineSessionState::Draining && completable {
                    BacklogPlan::RecoveryFinalize
                } else {
                    BacklogPlan::EmptySkip
                }
            } else {
                BacklogPlan::Drain { open_to_draining: state == OfflineSessionState::Open }
            }
        },
    }
}

/// Shift edge closing the pending-drain ladder at finalize:
/// OPENED_LOCAL_PENDING_DRAIN → OPENED, CLOSING_LOCAL_PENDING_DRAIN →
/// CLOSED, OPENED → none; any other shift state is structural drift.
pub open spec fn finalize_shift_target_of(shift_state: ShiftState) -> Result<Option<ShiftState>, ()> {
    match shift_state {
        ShiftState::OpenedLocalPendingDrain => Ok(Some(ShiftState::Opened)),
        ShiftState::ClosingLocalPendingDrain => Ok(Some(ShiftState::Closed)),
        ShiftState::Opened => Ok(None),
        _ => Err(()),
    }
}

/// Finalize preconditions on the node's shift projection: the shift edge
/// to apply, or `Err` on structural drift (unexpected shift state, or a
/// pending-drain shift without a current shift id).
pub fn finalize_shift_target(shift_state: ShiftState, has_current_shift: bool) -> (r: Result<Option<ShiftState>, ()>)
    ensures
        r == (match finalize_shift_target_of(shift_state) {
            Ok(Some(t)) => if has_current_shift { Ok(Some(t)) } else { Err(()) },
            other => other,
        }),
{
    let target = match shift_state {
        ShiftState::OpenedLocalPendingDrain => Some(ShiftState::Opened),
        ShiftState::ClosingLocalPendingDrain => Some(ShiftState::Closed),
        ShiftState::Opened => None,
        _ => return Err(()),
    };
    if target.is_some() && !has_current_shift {
        return Err(());
    }
    Ok(target)
}

/// Entry path of the finalize envelope.
#[derive(Debug, Clone, Copy, PartialEq, Eq, Structural)]
pub enum FinalizeEntry {
    /// The tick drained every doc to ACK.
    NormalEligible,
    /// An empty cohort proved a crashed prior tick had already acked every doc.
    CrashRecovery,
}

impl FinalizeEntry {
    pub fn audit_event_name(self) -> (r: &'static str)
        ensures
            r@ == (match self {
                FinalizeEntry::NormalEligible => "OFFLINE_DRAIN_COMPLETED"@,
                FinalizeEntry::CrashRecovery => "OFFLINE_DRAIN_RECOVERED_FINALIZE"@,
            }),
    {
        match self {
            FinalizeEntry::NormalEligible => "OFFLINE_DRAIN_COMPLETED",
            FinalizeEntry::CrashRecovery => "OFFLINE_DRAIN_RECOVERED_FINALIZE",
        }
    }

    pub fn entry_reason_str(self) -> (r: &'static str)
        ensures
            r@ == (match self {
                FinalizeEntry::NormalEligible => "normal_eligible"@,
                FinalizeEntry::CrashRecovery => "crash_recovery"@,
            }),
    {
        match self {
            FinalizeEntry::NormalEligible => "normal_eligible",
            FinalizeEntry::CrashRecovery => "crash_recovery",
        }
    }
}

// ─── Per-doc outcome projections ─────────────────────────────────────

/// A non-`Sent` result of `stage_send::run` for a drain doc.
#[derive(Debug, Clone, Copy, PartialEq, Eq)]
pub enum SendFailure {
    /// Routed by the error-routing table to a durable retry class.
    Routed { retry_class: RetryClass },
    /// The doc was not in a sendable state.
    StateConflict { observed: DocState },
    /// The doc row is gone.
    DocumentMissing,
    /// The signer guard refused the send.
    SignerRefused,
    /// `stage_send` returned an error.
    Error(StageSendError),
}

pub open spec fn send_failure_verdict(f: SendFailure) -> (FailureClass, bool) {
    match f {
        SendFailure::Routed { retry_class } => (
            failure_class_of_retry(retry_class),
            manual_recon_retry_class(retry_class),
        ),
        SendFailure::StateConflict { .. } => (FailureClass::StateConflict, true),
        SendFailure::DocumentMissing => (FailureClass::NotFound, true),
        SendFailure::SignerRefused => (FailureClass::SignerRefused, true),
        SendFailure::Error(e) => (failure_class_of_send_err(e), true),
    }
}

/// Record a failed send for `doc_id`, returning the document outcome: the class
/// and whether it is manual-recon-class.
pub fn record_send_failure(summary: &mut DrainSummary, doc_id: DocumentId, f: SendFailure) -> (r: DocVerdict)
    ensures
        r == (DocVerdict::Failed { class: send_failure_verdict(f).0, manual_recon: send_failure_verdict(f).1 }),
        final(summary)@ == (DrainSummaryView {
            per_doc_failures: old(summary)@.per_doc_failures.push(
                (doc_id, failure_class_str(send_failure_verdict(f).0)),
            ),
            ..old(summary)@
        }),
{
    let (class, manual_recon) = match f {
        SendFailure::Routed { retry_class } => (
            failure_class_for_retry(retry_class),
            is_manual_recon_retry_class(retry_class),
        ),
        SendFailure::StateConflict { .. } => (FailureClass::StateConflict, true),
        SendFailure::DocumentMissing => (FailureClass::NotFound, true),
        SendFailure::SignerRefused => (FailureClass::SignerRefused, true),
        SendFailure::Error(e) => (failure_class_for_send_err(&e), true),
    };
    summary.record_doc_failure(doc_id, failure_class_for(class).to_string());
    DocVerdict::Failed { class, manual_recon }
}

/// Result of the KVT2 → ACK finalize stage for a KVT2 cohort doc.
#[derive(Debug, Clone, Copy, PartialEq, Eq)]
pub enum Kvt2AdvanceResult {
    Acked,
    AlreadyAcked,
    StateConflict { observed: DocState },
    DocumentMissing,
    ChainSeedMismatch,
}

/// Project a KVT2-recovery finalize result: both ACK shapes advance (as
/// `Acked` with the doc's server fiscal number, empty if absent); the
/// rest are manual-recon-class failures.
pub fn record_kvt2_advance(
    summary: &mut DrainSummary,
    doc_id: DocumentId,
    server_fiscal_no: Option<String>,
    result: Kvt2AdvanceResult,
) -> (r: DocVerdict)
    requires
        old(summary)@.advanced_to_ack < usize::MAX,
    ensures
        (result is Acked || result is AlreadyAcked) ==> r == DocVerdict::Advanced && final(summary)@ == (
        DrainSummaryView { advanced_to_ack: (old(summary)@.advanced_to_ack + 1) as usize, ..old(summary)@ }),
        !(result is Acked || result is AlreadyAcked) ==> {
            let class = match result {
                Kvt2AdvanceResult::StateConflict { .. } => FailureClass::StateConflict,
                Kvt2AdvanceResult::DocumentMissing => FailureClass::NotFound,
                _ => FailureClass::ChainSeedMismatch,
            };
            &&& r == DocVerdict::Failed { class, manual_recon: true }
            &&& final(summary)@ == (DrainSummaryView {
                per_doc_failures: old(summary)@.per_doc_failures.push((doc_id, failure_class_str(class))),
                ..old(summary)@
            })
        },
{
    match result {
        Kvt2AdvanceResult::Acked | Kvt2AdvanceResult::AlreadyAcked => {
            let sfn = match server_fiscal_no {
                Some(s) => s,
                None => String::new(),
            };
            summary.record_doc_advanced(&W12ConfirmOutcome::Acked { server_fiscal_no: sfn }, false);
            DocVerdict::Advanced
        },
        _ => {
            let class = match result {
                Kvt2AdvanceResult::StateConflict { .. } => FailureClass::StateConflict,
                Kvt2AdvanceResult::DocumentMissing => FailureClass::NotFound,
                _ => FailureClass::ChainSeedMismatch,
            };
            summary.record_doc_failure(doc_id, failure_class_for(class).to_string());
            DocVerdict::Failed { class, manual_recon: true }
        },
    }
}


/// What the drain's class guard does with an `ERROR_RETRYABLE` document.
#[derive(Debug, Clone, Copy, PartialEq, Eq)]
pub enum DrainErAction {
    /// Route the document through the online send.
    Redrive,
    /// Move `ERROR_RETRYABLE -> REQUIRES_MANUAL_RECONCILIATION` under
    /// `retry_class` with `severity` and `reason`, then fail the document
    /// as manual-recon-class `class`.
    Escalate { retry_class: RetryClass, severity: Severity, reason: &'static str, class: FailureClass },
    /// Fail the document in place (no escalation) as `class`.
    Hold { class: FailureClass, hold_reason: &'static str },
}

/// The class-guard action for a redrive decision.
pub open spec fn drain_er_action_of(decision: ErRedriveDecision) -> DrainErAction {
    match decision {
        ErRedriveDecision::Redrive => DrainErAction::Redrive,
        ErRedriveDecision::BudgetExhausted { .. } => DrainErAction::Escalate {
            retry_class: RetryClass::TransientRetry,
            severity: Severity::Error,
            reason: "budget_exhausted",
            class: FailureClass::BudgetExhausted,
        },
        ErRedriveDecision::EscalateManual { class } => DrainErAction::Escalate {
            retry_class: class,
            severity: Severity::Error,
            reason: "non_retryable_class",
            class: failure_class_of_retry(class),
        },
        ErRedriveDecision::EscalateInconsistent { class } => DrainErAction::Escalate {
            retry_class: class,
            severity: Severity::Critical,
            reason: "terminal_reject_inconsistent",
            class: failure_class_of_retry(class),
        },
        ErRedriveDecision::HoldProbeRequired => DrainErAction::Hold {
            class: FailureClass::WireRoutingProbeRequired,
            hold_reason: "probe_required",
        },
        ErRedriveDecision::HoldIndeterminate => DrainErAction::Hold {
            class: FailureClass::RetryClassIndeterminate,
            hold_reason: "retry_class_indeterminate",
        },
    }
}

/// The drain's class guard over an `ERROR_RETRYABLE` cohort document: the
/// action for the redrive decision, and, for every action but `Redrive`,
/// the failure it records on the summary and the document outcome it
/// returns (escalations are manual-recon-class, holds are not).
pub fn drain_er_action(summary: &mut DrainSummary, doc_id: DocumentId, decision: ErRedriveDecision) -> (r: (
    DrainErAction,
    Option<DocVerdict>,
))
    ensures
        match drain_er_action_of(decision) {
            DrainErAction::Redrive => r.0 == DrainErAction::Redrive && r.1 is None && final(summary)@ == old(summary)@,
            DrainErAction::Escalate { retry_class, severity, reason, class } => (r.0 matches DrainErAction::Escalate {
                retry_class: rc,
                severity: sv,
                reason: rs,
                class: c,
            } && rc == retry_class && sv == severity && rs@ == reason@ && c == class) && r.1 == Some(
                DocVerdict::Failed { class, manual_recon: true },
            ) && final(summary)@ == (DrainSummaryView {
                per_doc_failures: old(summary)@.per_doc_failures.push((doc_id, failure_class_str(class))),
                ..old(summary)@
            }),
            DrainErAction::Hold { class, hold_reason } => (r.0 matches DrainErAction::Hold { class: c, hold_reason: h }
                && c == class && h@ == hold_reason@) && r.1 == Some(DocVerdict::Failed { class, manual_recon: false })
                && final(summary)@ == (DrainSummaryView {
                per_doc_failures: old(summary)@.per_doc_failures.push((doc_id, failure_class_str(class))),
                ..old(summary)@
            }),
        },
{
    let action = match decision {
        ErRedriveDecision::Redrive => {
            return (DrainErAction::Redrive, None);
        },
        ErRedriveDecision::BudgetExhausted { .. } => DrainErAction::Escalate {
            retry_class: RetryClass::TransientRetry,
            severity: Severity::Error,
            reason: "budget_exhausted",
            class: FailureClass::BudgetExhausted,
        },
        ErRedriveDecision::EscalateManual { class } => DrainErAction::Escalate {
            retry_class: class,
            severity: Severity::Error,
            reason: "non_retryable_class",
            class: failure_class_for_retry(class),
        },
        ErRedriveDecision::EscalateInconsistent { class } => DrainErAction::Escalate {
            retry_class: class,
            severity: Severity::Critical,
            reason: "terminal_reject_inconsistent",
            class: failure_class_for_retry(class),
        },
        ErRedriveDecision::HoldProbeRequired => DrainErAction::Hold {
            class: FailureClass::WireRoutingProbeRequired,
            hold_reason: "probe_required",
        },
        ErRedriveDecision::HoldIndeterminate => DrainErAction::Hold {
            class: FailureClass::RetryClassIndeterminate,
            hold_reason: "retry_class_indeterminate",
        },
    };
    let verdict = match action {
        DrainErAction::Escalate { class, .. } => DocVerdict::Failed { class, manual_recon: true },
        DrainErAction::Hold { class, .. } => DocVerdict::Failed { class, manual_recon: false },
        DrainErAction::Redrive => DocVerdict::Advanced,
    };
    let class = match action {
        DrainErAction::Escalate { class, .. } => class,
        DrainErAction::Hold { class, .. } => class,
        DrainErAction::Redrive => FailureClass::Internal,
    };
    summary.record_doc_failure(doc_id, failure_class_for(class).to_string());
    (action, Some(verdict))
}

/// A drain that failed, held, queued or deferred any document cannot
/// finalize: each recorded blocker makes the summary ineligible, and the
/// gate then reports the blocker of highest precedence.
pub proof fn blockers_prevent_finalize(v: DrainSummaryView, doc: DocumentId, class: Seq<char>)
    requires
        v.held_at_kvt1 < usize::MAX,
        v.held_at_sent < usize::MAX,
        v.er_redrive_queued < usize::MAX,
        v.advanced_to_kvt1 < usize::MAX,
    ensures
        !finalizable(DrainSummaryView { per_doc_failures: v.per_doc_failures.push((doc, class)), ..v }),
        !finalizable(DrainSummaryView { held_at_kvt1: (v.held_at_kvt1 + 1) as usize, ..v }),
        !finalizable(DrainSummaryView { held_at_sent: (v.held_at_sent + 1) as usize, ..v }),
        !finalizable(DrainSummaryView { er_redrive_queued: (v.er_redrive_queued + 1) as usize, ..v }),
        !finalizable(DrainSummaryView { advanced_to_kvt1: (v.advanced_to_kvt1 + 1) as usize, ..v }),
        eligibility_of(DrainSummaryView { per_doc_failures: v.per_doc_failures.push((doc, class)), ..v })
            == (FinalizeEligibility::NotEligible {
            reason: NotEligibleReason::PerDocFailuresPresent { count: (v.per_doc_failures.len() + 1) as usize },
        }),
{
}

/// The finalize gate reads only the counters and the failure list: the
/// fiscal number, the lastChk replay count and the finalized flag never
/// change its verdict, and exactly the finalizable summaries are eligible.
pub proof fn finalize_gate_reads_counters_only(v: DrainSummaryView, w: DrainSummaryView)
    requires
        v.backlog_size_before == w.backlog_size_before,
        v.advanced_to_ack == w.advanced_to_ack,
        v.advanced_to_kvt1 == w.advanced_to_kvt1,
        v.held_at_kvt1 == w.held_at_kvt1,
        v.held_at_sent == w.held_at_sent,
        v.er_redrive_queued == w.er_redrive_queued,
        v.per_doc_failures.len() == w.per_doc_failures.len(),
    ensures
        eligibility_of(v) == eligibility_of(w),
        (eligibility_of(v) is Eligible) <==> finalizable(v),
{
}


/// The drain is strict-sequential: only a document that reached ACK lets
/// the chain continue; every hold or failure stops it, and only
/// manual-recon-class failures and a superseded predecessor escalate.
pub proof fn only_advance_continues_the_chain(verdict: DocVerdict)
    ensures
        (drain_step_of(verdict).0 == DrainStep::Continue) <==> verdict is Advanced,
        (drain_step_of(verdict).0 is Escalate) <==> (verdict is SupersededHeld || verdict matches DocVerdict::Failed {
            manual_recon: true,
            ..
        }),
{
}


/// The identity of a drain never changes: whatever recording, gate and
/// finalize operations run after construction, the fiscal number and the
/// backlog size it was made with stay as they were.
pub proof fn drain_identity_is_fixed(v: DrainSummaryView, ops: Seq<DrainOp>)
    ensures
        drain_ops_view(v, ops).fiscal_number == v.fiscal_number,
        drain_ops_view(v, ops).backlog_size_before == v.backlog_size_before,
    decreases ops.len(),
{
    if ops.len() > 0 {
        drain_identity_is_fixed(v, ops.drop_last());
    }
}

/// Holds recorded on a summary model.
pub open spec fn blockers(v: DrainSummaryView) -> int {
    v.held_at_kvt1 + v.held_at_sent + v.er_redrive_queued
}

/// Failures and holds recorded on a summary model: the documents that
/// stopped a run.
pub open spec fn stoppers(v: DrainSummaryView) -> int {
    v.per_doc_failures.len() + blockers(v)
}

/// The summary model after one document's outcome is recorded: a failure
/// is pushed on the failure list by the per-document path that formed
/// the verdict (`record_send_failure`, `record_kvt2_advance`,
/// `drain_er_action`), and the verdict is then applied as
/// `apply_drain_verdict` does.  Advance counters are not modelled here.
pub open spec fn doc_outcome_view(v: DrainSummaryView, doc: DocumentId, verdict: DocVerdict) -> DrainSummaryView {
    match verdict {
        DocVerdict::Failed { class, .. } => verdict_view(
            DrainSummaryView { per_doc_failures: v.per_doc_failures.push((doc, failure_class_str(class))), ..v },
            verdict,
        ),
        _ => verdict_view(v, verdict),
    }
}

/// One strict-sequential drain run over the documents and their outcomes,
/// in order: each outcome is recorded, and the run goes on only past a
/// document that reached ACK.  The summary model after the run, and how
/// many documents it processed.
pub open spec fn drain_run(v: DrainSummaryView, outcomes: Seq<(DocumentId, DocVerdict)>) -> (DrainSummaryView, nat)
    decreases outcomes.len(),
{
    if outcomes.len() == 0 {
        (v, 0)
    } else {
        let (doc, first) = outcomes[0];
        let v1 = doc_outcome_view(v, doc, first);
        if first is Advanced {
            let (w, n) = drain_run(v1, outcomes.skip(1));
            (w, n + 1)
        } else {
            (v1, 1)
        }
    }
}

/// A drain run stops at its first document that did not reach ACK: every
/// document before the last one processed advanced, the run ends early
/// only on a non-ACK document, and the run records exactly one failure or
/// hold when it stopped on such a document and none otherwise, so at most
/// one failed or held document per run.  Failures already recorded stay.
pub proof fn drain_run_stops_at_first_blocker(v: DrainSummaryView, outcomes: Seq<(DocumentId, DocVerdict)>)
    requires
        v.held_at_kvt1 < usize::MAX,
        v.held_at_sent < usize::MAX,
        v.er_redrive_queued < usize::MAX,
    ensures
        ({
            let (w, n) = drain_run(v, outcomes);
            &&& n <= outcomes.len()
            &&& forall|i: int| 0 <= i < n - 1 ==> #[trigger] outcomes[i].1 is Advanced
            &&& (n < outcomes.len() ==> n > 0 && !(outcomes[n - 1].1 is Advanced))
            &&& stoppers(w) == stoppers(v) + (if n > 0 && !(outcomes[n - 1].1 is Advanced) { 1int } else { 0int })
            &&& stoppers(w) <= stoppers(v) + 1
            &&& blockers(w) <= blockers(v) + 1
            &&& w.per_doc_failures.len() <= v.per_doc_failures.len() + 1
            &&& v.per_doc_failures.is_prefix_of(w.per_doc_failures)
            &&& w.fiscal_number == v.fiscal_number
            &&& w.backlog_size_before == v.backlog_size_before
        }),
    decreases outcomes.len(),
{
    if outcomes.len() > 0 {
        let (doc, first) = outcomes[0];
        let v1 = doc_outcome_view(v, doc, first);
        if first is Advanced {
            let rest = outcomes.skip(1);
            drain_run_stops_at_first_blocker(v1, rest);
            let (w, n) = drain_run(v1, rest);
            assert forall|i: int| 0 <= i < n ==> #[trigger] outcomes[i].1 is Advanced by {
                if 0 < i && i < n {
                    assert(outcomes[i] == rest[i - 1]);
                }
            }
            if n > 0 {
                assert(outcomes[n as int] == rest[n - 1]);
            }
        } else {
            assert(v.per_doc_failures.is_prefix_of(v1.per_doc_failures));
        }
    }
}

/// The degradation ladder of a held document: a doc held at SENT and a doc
/// held at KVT1 are treated alike — from 50 consecutive holds the node
/// goes to STOP_MODE, from 10 a prolonged-hold warning fires, below 10
/// nothing — and an ER-redrive downgrade never raises a tier.  The tier
/// never falls as holds accumulate.
pub proof fn hold_tier_ladder(projection: HoldFnDrainProjection, consecutive_holds: i64, more_holds: i64)
    requires
        consecutive_holds <= more_holds,
    ensures
        hold_tier_of(HoldFnDrainProjection::HeldAtSent, consecutive_holds) == hold_tier_of(
            HoldFnDrainProjection::HeldAtKvt1,
            consecutive_holds,
        ),
        projection != HoldFnDrainProjection::ErRedriveQueued ==> hold_tier_of(projection, consecutive_holds)
            == (if consecutive_holds >= 50 {
            HoldTier::StopMode
        } else if consecutive_holds >= 10 {
            HoldTier::ProlongedHold
        } else {
            HoldTier::NoTier
        }),
        hold_tier_of(HoldFnDrainProjection::ErRedriveQueued, consecutive_holds) == HoldTier::NoTier,
        hold_tier_of(projection, consecutive_holds) == HoldTier::StopMode ==> hold_tier_of(
            projection,
            more_holds,
        ) == HoldTier::StopMode,
        hold_tier_of(projection, consecutive_holds) == HoldTier::ProlongedHold ==> hold_tier_of(
            projection,
            more_holds,
        ) != HoldTier::NoTier,
{
}

/// The drain takes exactly the documents in `OFFLINE_LOCAL_ACK`,
/// `ERROR_RETRYABLE`, `SENT`, `KVT1` and `KVT2`, each state by a path of
/// its own; any other state reaching the drain is an internal error.
pub proof fn drain_routes_candidates_apart(a: DocState, b: DocState)
    ensures
        (drain_route_of(a) == DrainRoute::Unexpected) <==> !(a == DocState::OfflineLocalAck || a
            == DocState::ErrorRetryable || a == DocState::Sent || a == DocState::Kvt1 || a == DocState::Kvt2),
        drain_route_of(a) != DrainRoute::Unexpected && drain_route_of(a) == drain_route_of(b) ==> a == b,
        a == DocState::Sent ==> drain_route_of(a) == DrainRoute::LastChkReplay,
        a == DocState::OfflineLocalAck ==> drain_route_of(a) == DrainRoute::StageSend,
{
}

/// Finalize leaves the pending-drain ladder: an offline-opened shift ends
/// `OPENED`, an offline-closing one ends `CLOSED`, an already `OPENED`
/// shift is left alone, and a shift anywhere else is structural drift that
/// blocks finalize.  No finalize edge ends on a pending-drain state.
pub proof fn finalize_leaves_pending_drain_ladder(shift_state: ShiftState)
    ensures
        (finalize_shift_target_of(shift_state) is Err) <==> !(shift_state
            == ShiftState::OpenedLocalPendingDrain || shift_state == ShiftState::ClosingLocalPendingDrain
            || shift_state == ShiftState::Opened),
        finalize_shift_target_of(shift_state) matches Ok(Some(t)) ==> t != ShiftState::OpenedLocalPendingDrain
            && t != ShiftState::ClosingLocalPendingDrain && (t == ShiftState::Opened <==> shift_state
            == ShiftState::OpenedLocalPendingDrain) && (t == ShiftState::Closed <==> shift_state
            == ShiftState::ClosingLocalPendingDrain),
        shift_state == ShiftState::Opened ==> finalize_shift_target_of(shift_state) == Ok::<
            Option<ShiftState>,
            (),
        >(None),
{
}

} // verus!
