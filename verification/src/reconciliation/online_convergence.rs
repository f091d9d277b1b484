//! Online convergence: while an FN is `Online`, drive its resting
//! documents (`SENT`, `KVT1`, `ERROR_RETRYABLE`) to a settled state, one
//! tick at a time, each document isolated from the others' failures.
use vstd::prelude::*;

use super::er_redrive_policy::ErRedriveDecision;
use crate::model::{DocState, DocumentId, NodeMode, RetryClass, Severity, ShiftState};
use crate::offline_sync::kvt2_confirm::ConfirmDrainOutcome;
use crate::text::{hex_lower, hex_lower_spec};

verus! {

/// Counts of one convergence tick for one FN.
#[derive(Debug, Clone, PartialEq, Eq)]
pub struct TickSummary {
    pub fiscal_number: String,
    pub mode_skipped: bool,
    pub scanned: usize,
    pub advanced_sent_to_kvt1: usize,
    pub acked_from_kvt1: usize,
    pub sent_not_converged: usize,
    pub held_kvt1: usize,
    pub superseded_held_kvt1: usize,
    pub errors: usize,
    pub chain_seed_mismatch_escalated: usize,
    pub er_redriven: usize,
    pub er_escalated_to_manual: usize,
    pub er_held: usize,
}

/// Whether every document counter of `s` is zero.
pub open spec fn counters_zero(s: TickSummary) -> bool {
    s.scanned == 0 && s.advanced_sent_to_kvt1 == 0 && s.acked_from_kvt1 == 0 && s.sent_not_converged
        == 0 && s.held_kvt1 == 0 && s.superseded_held_kvt1 == 0 && s.errors == 0
        && s.chain_seed_mismatch_escalated == 0 && s.er_redriven == 0 && s.er_escalated_to_manual == 0
        && s.er_held == 0
}

impl TickSummary {
    /// An empty summary for `fiscal_number`.
    pub fn new(fiscal_number: &str) -> (s: TickSummary)
        ensures
            s.fiscal_number@ == fiscal_number@,
            !s.mode_skipped,
            counters_zero(s),
    {
        TickSummary {
            fiscal_number: fiscal_number.to_string(),
            mode_skipped: false,
            scanned: 0,
            advanced_sent_to_kvt1: 0,
            acked_from_kvt1: 0,
            sent_not_converged: 0,
            held_kvt1: 0,
            superseded_held_kvt1: 0,
            errors: 0,
            chain_seed_mismatch_escalated: 0,
            er_redriven: 0,
            er_escalated_to_manual: 0,
            er_held: 0,
        }
    }

    /// The summary of a tick skipped because the FN is not `Online`.
    pub fn skipped_mode(fiscal_number: &str) -> (s: TickSummary)
        ensures
            s.fiscal_number@ == fiscal_number@,
            s.mode_skipped,
            counters_zero(s),
    {
        let mut s = TickSummary::new(fiscal_number);
        s.mode_skipped = true;
        s
    }
}

/// Whether a tick converges the FN's documents.
#[derive(Debug, Clone, Copy, PartialEq, Eq, Structural)]
pub enum ConvergeGate {
    /// No node-state row: empty summary.
    NoNodeState,
    /// Not `Online`: skipped-mode summary.
    ModeNotOnline,
    /// The shift needs manual reconciliation: empty summary.
    ShiftNeedsManual,
    /// Converge the resting documents.
    Converge,
}

/// How a tick proceeds for a node-state row (`None`: no row).
pub open spec fn converge_gate_of(row: Option<(NodeMode, ShiftState)>) -> ConvergeGate {
    match row {
        None => ConvergeGate::NoNodeState,
        Some((mode, shift_state)) => if mode != NodeMode::Online {
            ConvergeGate::ModeNotOnline
        } else if shift_state == ShiftState::RequiresManualReconciliation {
            ConvergeGate::ShiftNeedsManual
        } else {
            ConvergeGate::Converge
        },
    }
}

/// How a tick proceeds (see [`converge_gate_of`]).
pub fn converge_gate(row: Option<(NodeMode, ShiftState)>) -> (r: ConvergeGate)
    ensures
        r == converge_gate_of(row),
{
    match row {
        None => ConvergeGate::NoNodeState,
        Some((mode, shift_state)) => match mode {
            NodeMode::Online => match shift_state {
                ShiftState::RequiresManualReconciliation => ConvergeGate::ShiftNeedsManual,
                _ => ConvergeGate::Converge,
            },
            _ => ConvergeGate::ModeNotOnline,
        },
    }
}

/// Whether a document state is one the tick converges.
pub open spec fn resting(state: DocState) -> bool {
    state == DocState::Sent || state == DocState::Kvt1 || state == DocState::ErrorRetryable
}

/// Whether the tick converges a document in `state`.
pub fn is_resting(state: DocState) -> (r: bool)
    ensures
        r == resting(state),
{
    match state {
        DocState::Sent | DocState::Kvt1 | DocState::ErrorRetryable => true,
        _ => false,
    }
}

/// One counter of a [`TickSummary`].
#[derive(Debug, Clone, Copy, PartialEq, Eq, Structural)]
pub enum TickCounter {
    AdvancedSentToKvt1,
    AckedFromKvt1,
    SentNotConverged,
    HeldKvt1,
    SupersededHeldKvt1,
    Errors,
    ChainSeedMismatchEscalated,
    ErRedriven,
    ErEscalatedToManual,
    ErHeld,
}

/// The value of one counter.
pub open spec fn counter_value(s: TickSummary, c: TickCounter) -> usize {
    match c {
        TickCounter::AdvancedSentToKvt1 => s.advanced_sent_to_kvt1,
        TickCounter::AckedFromKvt1 => s.acked_from_kvt1,
        TickCounter::SentNotConverged => s.sent_not_converged,
        TickCounter::HeldKvt1 => s.held_kvt1,
        TickCounter::SupersededHeldKvt1 => s.superseded_held_kvt1,
        TickCounter::Errors => s.errors,
        TickCounter::ChainSeedMismatchEscalated => s.chain_seed_mismatch_escalated,
        TickCounter::ErRedriven => s.er_redriven,
        TickCounter::ErEscalatedToManual => s.er_escalated_to_manual,
        TickCounter::ErHeld => s.er_held,
    }
}

impl TickSummary {
    /// Add one to counter `c`, leaving every other field as it was.
    pub fn bump(&mut self, c: TickCounter)
        requires
            counter_value(*old(self), c) < usize::MAX,
        ensures
            counter_value(*final(self), c) == counter_value(*old(self), c) + 1,
            forall|o: TickCounter| o != c ==> counter_value(*final(self), o) == counter_value(*old(self), o),
            final(self).fiscal_number == old(self).fiscal_number,
            final(self).mode_skipped == old(self).mode_skipped,
            final(self).scanned == old(self).scanned,
    {
        match c {
            TickCounter::AdvancedSentToKvt1 => self.advanced_sent_to_kvt1 = self.advanced_sent_to_kvt1 + 1,
            TickCounter::AckedFromKvt1 => self.acked_from_kvt1 = self.acked_from_kvt1 + 1,
            TickCounter::SentNotConverged => self.sent_not_converged = self.sent_not_converged + 1,
            TickCounter::HeldKvt1 => self.held_kvt1 = self.held_kvt1 + 1,
            TickCounter::SupersededHeldKvt1 => self.superseded_held_kvt1 = self.superseded_held_kvt1 + 1,
            TickCounter::Errors => self.errors = self.errors + 1,
            TickCounter::ChainSeedMismatchEscalated => {
                self.chain_seed_mismatch_escalated = self.chain_seed_mismatch_escalated + 1;
            },
            TickCounter::ErRedriven => self.er_redriven = self.er_redriven + 1,
            TickCounter::ErEscalatedToManual => self.er_escalated_to_manual = self.er_escalated_to_manual + 1,
            TickCounter::ErHeld => self.er_held = self.er_held + 1,
        }
    }
}

/// After the `last_chk` probe of a `SENT` document, the counter for its
/// re-read state (`None`: no longer pending); only `KVT1` continues to the
/// KVT2 confirmation.
pub fn sent_reread_counter(reread: Option<DocState>) -> (r: TickCounter)
    ensures
        r == (if reread == Some(DocState::Kvt1) {
            TickCounter::AdvancedSentToKvt1
        } else {
            TickCounter::SentNotConverged
        }),
{
    match reread {
        Some(DocState::Kvt1) => TickCounter::AdvancedSentToKvt1,
        _ => TickCounter::SentNotConverged,
    }
}

/// The counter for the KVT2 confirmation of a `KVT1` document.
pub fn kvt1_confirm_counter(outcome: &ConfirmDrainOutcome) -> (r: TickCounter)
    ensures
        r == (match *outcome {
            ConfirmDrainOutcome::Advanced => TickCounter::AckedFromKvt1,
            ConfirmDrainOutcome::HoldFnDrain { .. } => TickCounter::HeldKvt1,
            ConfirmDrainOutcome::SupersededHeld => TickCounter::SupersededHeldKvt1,
        }),
{
    match outcome {
        ConfirmDrainOutcome::Advanced => TickCounter::AckedFromKvt1,
        ConfirmDrainOutcome::HoldFnDrain { .. } => TickCounter::HeldKvt1,
        ConfirmDrainOutcome::SupersededHeld => TickCounter::SupersededHeldKvt1,
    }
}

/// Indeterminate holds in a row from which the hold audit turns `Critical`.
pub const HOLD_INDETERMINATE_CRITICAL_TICKS: i64 = 3;

/// What a convergence tick does with an `ERROR_RETRYABLE` document.
#[derive(Debug, Clone, Copy, PartialEq, Eq, Structural)]
pub enum ConvergeErAction {
    /// Send again; a failure writes `CONVERGE_ER_REDRIVE_ERROR` and counts
    /// an error.
    Redrive,
    /// Escalate to manual reconciliation under `class` with `severity`.
    EscalateToManual { class: RetryClass, severity: Severity },
    /// Hold for the `last_chk` reconciler (`CONVERGE_ER_PROBE_DEFERRED`,
    /// `Warning`).
    HoldProbeRequired,
    /// Hold with no durable class (`CONVERGE_ER_HOLD_INDETERMINATE`): the
    /// `tick_no`-th such hold, `Critical` from the third on.
    HoldIndeterminate { severity: Severity, tick_no: i64 },
}

/// The convergence action for a redrive decision, given how many
/// indeterminate-hold audits the document already has.
pub open spec fn converge_er_action_of(decision: ErRedriveDecision, prior_indeterminate: i64) -> ConvergeErAction {
    match decision {
        ErRedriveDecision::Redrive => ConvergeErAction::Redrive,
        ErRedriveDecision::BudgetExhausted { .. } => ConvergeErAction::EscalateToManual {
            class: RetryClass::TransientRetry,
            severity: Severity::Error,
        },
        ErRedriveDecision::EscalateManual { class } => ConvergeErAction::EscalateToManual {
            class,
            severity: Severity::Error,
        },
        ErRedriveDecision::EscalateInconsistent { class } => ConvergeErAction::EscalateToManual {
            class,
            severity: Severity::Critical,
        },
        ErRedriveDecision::HoldProbeRequired => ConvergeErAction::HoldProbeRequired,
        ErRedriveDecision::HoldIndeterminate => ConvergeErAction::HoldIndeterminate {
            severity: if prior_indeterminate + 1 >= HOLD_INDETERMINATE_CRITICAL_TICKS {
                Severity::Critical
            } else {
                Severity::Warning
            },
            tick_no: (prior_indeterminate + 1) as i64,
        },
    }
}

/// The convergence action (see [`converge_er_action_of`]).
pub fn converge_er_action(decision: ErRedriveDecision, prior_indeterminate: i64) -> (r: ConvergeErAction)
    requires
        prior_indeterminate < i64::MAX,
    ensures
        r == converge_er_action_of(decision, prior_indeterminate),
{
    match decision {
        ErRedriveDecision::Redrive => ConvergeErAction::Redrive,
        ErRedriveDecision::BudgetExhausted { .. } => ConvergeErAction::EscalateToManual {
            class: RetryClass::TransientRetry,
            severity: Severity::Error,
        },
        ErRedriveDecision::EscalateManual { class } => ConvergeErAction::EscalateToManual {
            class,
            severity: Severity::Error,
        },
        ErRedriveDecision::EscalateInconsistent { class } => ConvergeErAction::EscalateToManual {
            class,
            severity: Severity::Critical,
        },
        ErRedriveDecision::HoldProbeRequired => ConvergeErAction::HoldProbeRequired,
        ErRedriveDecision::HoldIndeterminate => {
            let tick_no = prior_indeterminate + 1;
            ConvergeErAction::HoldIndeterminate {
                severity: if tick_no >= HOLD_INDETERMINATE_CRITICAL_TICKS {
                    Severity::Critical
                } else {
                    Severity::Warning
                },
                tick_no,
            }
        },
    }
}

/// The counter for a converged `ERROR_RETRYABLE` document, given whether
/// a redrive's send succeeded (ignored for the other actions).
pub fn converge_er_counter(action: ConvergeErAction, redrive_ok: bool) -> (r: TickCounter)
    ensures
        r == (match action {
            ConvergeErAction::Redrive => if redrive_ok {
                TickCounter::ErRedriven
            } else {
                TickCounter::Errors
            },
            ConvergeErAction::EscalateToManual { .. } => TickCounter::ErEscalatedToManual,
            _ => TickCounter::ErHeld,
        }),
{
    match action {
        ConvergeErAction::Redrive => if redrive_ok {
            TickCounter::ErRedriven
        } else {
            TickCounter::Errors
        },
        ConvergeErAction::EscalateToManual { .. } => TickCounter::ErEscalatedToManual,
        _ => TickCounter::ErHeld,
    }
}

/// Lowercase hex of a document id, the audit entity id of a document.
pub fn doc_hex(doc_id: DocumentId) -> (r: String)
    ensures
        r@ == hex_lower_spec(doc_id.bytes@),
{
    hex_lower(doc_id.as_bytes())
}

/// An indeterminate hold escalates to `Critical` exactly from its third
/// consecutive tick on, and its tick number counts the prior holds.
pub proof fn indeterminate_hold_escalates_on_third_tick(prior_indeterminate: i64)
    requires
        0 <= prior_indeterminate < i64::MAX,
    ensures
        converge_er_action_of(ErRedriveDecision::HoldIndeterminate, prior_indeterminate) == (
        ConvergeErAction::HoldIndeterminate {
            severity: if prior_indeterminate >= 2 {
                Severity::Critical
            } else {
                Severity::Warning
            },
            tick_no: (prior_indeterminate + 1) as i64,
        }),
{
}

/// The online tick converges exactly the documents resting in `SENT`,
/// `KVT1` or `ERROR_RETRYABLE`: every other state — in flight, terminal,
/// local or manual — is left to its own owner.
pub proof fn tick_converges_resting_states(state: DocState)
    ensures
        resting(state) <==> (state == DocState::Sent || state == DocState::Kvt1 || state
            == DocState::ErrorRetryable),
        resting(DocState::Sent) && resting(DocState::Kvt1) && resting(DocState::ErrorRetryable),
        !resting(DocState::Prepared) && !resting(DocState::Signed) && !resting(DocState::Encrypted)
            && !resting(DocState::Sending) && !resting(DocState::Kvt2) && !resting(DocState::Ack)
            && !resting(DocState::Rejected) && !resting(DocState::Cancelled) && !resting(
            DocState::OfflineLocalAck,
        ) && !resting(DocState::RequiresManualReconciliation),
{
}

/// A tick converges only an `Online` FN whose shift does not await manual
/// reconciliation; an FN in any other mode is skipped as such, whatever
/// its shift.
pub proof fn tick_runs_only_online(row: Option<(NodeMode, ShiftState)>)
    ensures
        (converge_gate_of(row) == ConvergeGate::Converge) <==> (row matches Some((m, s)) && m
            == NodeMode::Online && s != ShiftState::RequiresManualReconciliation),
        (converge_gate_of(row) == ConvergeGate::ModeNotOnline) <==> (row matches Some((m, _)) && m
            != NodeMode::Online),
        (converge_gate_of(row) == ConvergeGate::NoNodeState) <==> row is None,
{
}

/// The tick carries out the redrive policy as decided: it redrives only a
/// redrive decision, escalates every escalation decision to manual
/// reconciliation (`Critical` only for the inconsistent one, `Error`
/// otherwise) under the decided class, and never escalates a hold.
pub proof fn tick_follows_redrive_policy(decision: ErRedriveDecision, prior_indeterminate: i64)
    requires
        0 <= prior_indeterminate < i64::MAX,
    ensures
        (converge_er_action_of(decision, prior_indeterminate) == ConvergeErAction::Redrive) <==> decision
            == ErRedriveDecision::Redrive,
        (converge_er_action_of(decision, prior_indeterminate) is EscalateToManual) <==> (decision is BudgetExhausted
            || decision is EscalateManual || decision is EscalateInconsistent),
        decision matches ErRedriveDecision::EscalateManual { class } ==> converge_er_action_of(
            decision,
            prior_indeterminate,
        ) == (ConvergeErAction::EscalateToManual { class, severity: Severity::Error }),
        decision matches ErRedriveDecision::EscalateInconsistent { class } ==> converge_er_action_of(
            decision,
            prior_indeterminate,
        ) == (ConvergeErAction::EscalateToManual { class, severity: Severity::Critical }),
        decision == ErRedriveDecision::HoldProbeRequired ==> converge_er_action_of(decision, prior_indeterminate)
            == ConvergeErAction::HoldProbeRequired,
        decision == ErRedriveDecision::HoldIndeterminate ==> (converge_er_action_of(
            decision,
            prior_indeterminate,
        ) matches ConvergeErAction::HoldIndeterminate { severity, tick_no } && tick_no == prior_indeterminate + 1
            && (severity == Severity::Critical <==> prior_indeterminate >= 2)),
{
}

} // verus!
