//! Boot reconciliation: the per-FN decision tree run at start-up, and the
//! per-document dispatch decisions of its pending-set pass.
//!
//! The orchestrator reads node state and documents, performs each chosen
//! action, and counts the result of every visited document in a
//! [`DispatchHistogram`]; the functions here choose the branch, the action
//! and the bucket.
use vstd::prelude::*;

use super::er_redrive_policy::ErRedriveDecision;
use super::last_chk_probe::ProbeOutcome;
use crate::digest::{sha256, sha256_of};
use crate::model::{DocState, DocumentId, NodeMode, RetryClass, Severity, ShiftState};
use crate::text::{concat, i64_decimal, int_decimal};
use crate::time::{parse_rfc3339_utc, parse_sqlite_utc, rfc3339_utc_of, sqlite_utc_of, UtcInstant};
use vstd::string::StringSliceAdditionalSpecFns;

verus! {

/// Per-outcome counts of the pending documents one boot pass visited.
/// Each visited document lands in exactly one bucket.
#[derive(Debug, Clone, Copy, PartialEq, Eq, Structural)]
pub struct DispatchHistogram {
    /// `SENDING` docs moved to `ERROR_RETRYABLE` (no re-send: the DPS does not deduplicate).
    pub sending_resumed: usize,
    /// `KVT1` docs held passively.
    pub kvt1_held: usize,
    /// `ENCRYPTED` docs rerouted to `ERROR_RETRYABLE`.
    pub encrypted_rerouted: usize,
    /// `KVT2` docs finalized to `ACK`.
    pub kvt2_finalized: usize,
    /// `KVT2` docs whose finalize failed (left in `KVT2`).
    pub kvt2_failed: usize,
    /// `PREPARED` docs deferred: no runtime context.
    pub prepared_deferred: usize,
    /// `SIGNED` docs deferred: no runtime context.
    pub signed_deferred: usize,
    /// `SENT` docs deferred: no runtime context.
    pub sent_deferred: usize,
    /// `ERROR_RETRYABLE` docs deferred: no runtime context.
    pub error_retryable_deferred: usize,
    /// `SIGNED` docs driven through the online send.
    pub signed_dispatched: usize,
    /// `ERROR_RETRYABLE` docs redriven through the online send.
    pub error_retryable_dispatched: usize,
    /// `SENT` docs whose `last_chk` matched: advanced to `KVT1`.
    pub sent_match_to_kvt1: usize,
    /// `SENT` docs whose `last_chk` named another check: manual reconciliation.
    pub sent_mismatch_to_manual: usize,
    /// `SENT` docs the DPS does not know: back to `ERROR_RETRYABLE`.
    pub sent_not_found_to_error_retryable: usize,
    /// `SENT` docs whose probe failed: left in `SENT`.
    pub sent_probe_failure_deferred: usize,
    /// `PREPARED` docs signed and sent.
    pub prepared_dispatched: usize,
    /// Docs acknowledged locally by the offline path.
    pub offline_local_ack_emitted: usize,
    /// Docs whose post-sign dispatch was refused.
    pub write_path_dispatch_refused: usize,
    /// `ERROR_RETRYABLE` docs escalated to manual (non-retryable class).
    pub error_retryable_escalated_to_manual: usize,
    /// `ERROR_RETRYABLE` docs held for the `last_chk` reconciler.
    pub error_retryable_probe_deferred: usize,
    /// `ERROR_RETRYABLE` docs held: no durable retry class.
    pub error_retryable_indeterminate_deferred: usize,
    /// `PREPARED` docs held: document and inbox rows drifted apart.
    pub prepared_replay_drift_deferred: usize,
    /// `ERROR_RETRYABLE` docs escalated: attempt budget used up.
    pub error_retryable_budget_exhausted: usize,
    /// Per-doc helper failures absorbed and audited.
    pub dispatch_errors: usize,
    /// Sends refused for a signer/cashier mismatch the operator can fix.
    pub signer_refused_mismatch: usize,
    /// Sends refused for a structural signer/shift inconsistency.
    pub signer_refused_structural_bug: usize,
}

/// One counter of a [`DispatchHistogram`].
#[derive(Debug, Clone, Copy, PartialEq, Eq, Structural)]
pub enum HistogramBucket {
    SendingResumed,
    Kvt1Held,
    EncryptedRerouted,
    Kvt2Finalized,
    Kvt2Failed,
    PreparedDeferred,
    SignedDeferred,
    SentDeferred,
    ErrorRetryableDeferred,
    SignedDispatched,
    ErrorRetryableDispatched,
    SentMatchToKvt1,
    SentMismatchToManual,
    SentNotFoundToErrorRetryable,
    SentProbeFailureDeferred,
    PreparedDispatched,
    OfflineLocalAckEmitted,
    WritePathDispatchRefused,
    ErrorRetryableEscalatedToManual,
    ErrorRetryableProbeDeferred,
    ErrorRetryableIndeterminateDeferred,
    PreparedReplayDriftDeferred,
    ErrorRetryableBudgetExhausted,
    DispatchErrors,
    SignerRefusedMismatch,
    SignerRefusedStructuralBug,
}

/// The all-zero histogram.
pub open spec fn empty_histogram() -> DispatchHistogram {
    DispatchHistogram {
        sending_resumed: 0,
        kvt1_held: 0,
        encrypted_rerouted: 0,
        kvt2_finalized: 0,
        kvt2_failed: 0,
        prepared_deferred: 0,
        signed_deferred: 0,
        sent_deferred: 0,
        error_retryable_deferred: 0,
        signed_dispatched: 0,
        error_retryable_dispatched: 0,
        sent_match_to_kvt1: 0,
        sent_mismatch_to_manual: 0,
        sent_not_found_to_error_retryable: 0,
        sent_probe_failure_deferred: 0,
        prepared_dispatched: 0,
        offline_local_ack_emitted: 0,
        write_path_dispatch_refused: 0,
        error_retryable_escalated_to_manual: 0,
        error_retryable_probe_deferred: 0,
        error_retryable_indeterminate_deferred: 0,
        prepared_replay_drift_deferred: 0,
        error_retryable_budget_exhausted: 0,
        dispatch_errors: 0,
        signer_refused_mismatch: 0,
        signer_refused_structural_bug: 0,
    }
}

/// Number of documents a histogram counts.
pub open spec fn histogram_total(h: DispatchHistogram) -> int {
    h.sending_resumed
        + h.kvt1_held
        + h.encrypted_rerouted
        + h.kvt2_finalized
        + h.kvt2_failed
        + h.prepared_deferred
        + h.signed_deferred
        + h.sent_deferred
        + h.error_retryable_deferred
        + h.signed_dispatched
        + h.error_retryable_dispatched
        + h.sent_match_to_kvt1
        + h.sent_mismatch_to_manual
        + h.sent_not_found_to_error_retryable
        + h.sent_probe_failure_deferred
        + h.prepared_dispatched
        + h.offline_local_ack_emitted
        + h.write_path_dispatch_refused
        + h.error_retryable_escalated_to_manual
        + h.error_retryable_probe_deferred
        + h.error_retryable_indeterminate_deferred
        + h.prepared_replay_drift_deferred
        + h.error_retryable_budget_exhausted
        + h.dispatch_errors
        + h.signer_refused_mismatch
        + h.signer_refused_structural_bug
}

/// The count held in one bucket.
pub open spec fn bucket_count(h: DispatchHistogram, b: HistogramBucket) -> usize {
    match b {
        HistogramBucket::SendingResumed => h.sending_resumed,
        HistogramBucket::Kvt1Held => h.kvt1_held,
        HistogramBucket::EncryptedRerouted => h.encrypted_rerouted,
        HistogramBucket::Kvt2Finalized => h.kvt2_finalized,
        HistogramBucket::Kvt2Failed => h.kvt2_failed,
        HistogramBucket::PreparedDeferred => h.prepared_deferred,
        HistogramBucket::SignedDeferred => h.signed_deferred,
        HistogramBucket::SentDeferred => h.sent_deferred,
        HistogramBucket::ErrorRetryableDeferred => h.error_retryable_deferred,
        HistogramBucket::SignedDispatched => h.signed_dispatched,
        HistogramBucket::ErrorRetryableDispatched => h.error_retryable_dispatched,
        HistogramBucket::SentMatchToKvt1 => h.sent_match_to_kvt1,
        HistogramBucket::SentMismatchToManual => h.sent_mismatch_to_manual,
        HistogramBucket::SentNotFoundToErrorRetryable => h.sent_not_found_to_error_retryable,
        HistogramBucket::SentProbeFailureDeferred => h.sent_probe_failure_deferred,
        HistogramBucket::PreparedDispatched => h.prepared_dispatched,
        HistogramBucket::OfflineLocalAckEmitted => h.offline_local_ack_emitted,
        HistogramBucket::WritePathDispatchRefused => h.write_path_dispatch_refused,
        HistogramBucket::ErrorRetryableEscalatedToManual => h.error_retryable_escalated_to_manual,
        HistogramBucket::ErrorRetryableProbeDeferred => h.error_retryable_probe_deferred,
        HistogramBucket::ErrorRetryableIndeterminateDeferred => h.error_retryable_indeterminate_deferred,
        HistogramBucket::PreparedReplayDriftDeferred => h.prepared_replay_drift_deferred,
        HistogramBucket::ErrorRetryableBudgetExhausted => h.error_retryable_budget_exhausted,
        HistogramBucket::DispatchErrors => h.dispatch_errors,
        HistogramBucket::SignerRefusedMismatch => h.signer_refused_mismatch,
        HistogramBucket::SignerRefusedStructuralBug => h.signer_refused_structural_bug,
    }
}

/// `h` with one more document in bucket `b`.
pub open spec fn bumped(h: DispatchHistogram, b: HistogramBucket) -> DispatchHistogram {
    match b {
        HistogramBucket::SendingResumed => DispatchHistogram { sending_resumed: (h.sending_resumed + 1) as usize, ..h },
        HistogramBucket::Kvt1Held => DispatchHistogram { kvt1_held: (h.kvt1_held + 1) as usize, ..h },
        HistogramBucket::EncryptedRerouted => DispatchHistogram { encrypted_rerouted: (h.encrypted_rerouted + 1) as usize, ..h },
        HistogramBucket::Kvt2Finalized => DispatchHistogram { kvt2_finalized: (h.kvt2_finalized + 1) as usize, ..h },
        HistogramBucket::Kvt2Failed => DispatchHistogram { kvt2_failed: (h.kvt2_failed + 1) as usize, ..h },
        HistogramBucket::PreparedDeferred => DispatchHistogram { prepared_deferred: (h.prepared_deferred + 1) as usize, ..h },
        HistogramBucket::SignedDeferred => DispatchHistogram { signed_deferred: (h.signed_deferred + 1) as usize, ..h },
        HistogramBucket::SentDeferred => DispatchHistogram { sent_deferred: (h.sent_deferred + 1) as usize, ..h },
        HistogramBucket::ErrorRetryableDeferred => DispatchHistogram { error_retryable_deferred: (h.error_retryable_deferred + 1) as usize, ..h },
        HistogramBucket::SignedDispatched => DispatchHistogram { signed_dispatched: (h.signed_dispatched + 1) as usize, ..h },
        HistogramBucket::ErrorRetryableDispatched => DispatchHistogram { error_retryable_dispatched: (h.error_retryable_dispatched + 1) as usize, ..h },
        HistogramBucket::SentMatchToKvt1 => DispatchHistogram { sent_match_to_kvt1: (h.sent_match_to_kvt1 + 1) as usize, ..h },
        HistogramBucket::SentMismatchToManual => DispatchHistogram { sent_mismatch_to_manual: (h.sent_mismatch_to_manual + 1) as usize, ..h },
        HistogramBucket::SentNotFoundToErrorRetryable => DispatchHistogram { sent_not_found_to_error_retryable: (h.sent_not_found_to_error_retryable + 1) as usize, ..h },
        HistogramBucket::SentProbeFailureDeferred => DispatchHistogram { sent_probe_failure_deferred: (h.sent_probe_failure_deferred + 1) as usize, ..h },
        HistogramBucket::PreparedDispatched => DispatchHistogram { prepared_dispatched: (h.prepared_dispatched + 1) as usize, ..h },
        HistogramBucket::OfflineLocalAckEmitted => DispatchHistogram { offline_local_ack_emitted: (h.offline_local_ack_emitted + 1) as usize, ..h },
        HistogramBucket::WritePathDispatchRefused => DispatchHistogram { write_path_dispatch_refused: (h.write_path_dispatch_refused + 1) as usize, ..h },
        HistogramBucket::ErrorRetryableEscalatedToManual => DispatchHistogram { error_retryable_escalated_to_manual: (h.error_retryable_escalated_to_manual + 1) as usize, ..h },
        HistogramBucket::ErrorRetryableProbeDeferred => DispatchHistogram { error_retryable_probe_deferred: (h.error_retryable_probe_deferred + 1) as usize, ..h },
        HistogramBucket::ErrorRetryableIndeterminateDeferred => DispatchHistogram { error_retryable_indeterminate_deferred: (h.error_retryable_indeterminate_deferred + 1) as usize, ..h },
        HistogramBucket::PreparedReplayDriftDeferred => DispatchHistogram { prepared_replay_drift_deferred: (h.prepared_replay_drift_deferred + 1) as usize, ..h },
        HistogramBucket::ErrorRetryableBudgetExhausted => DispatchHistogram { error_retryable_budget_exhausted: (h.error_retryable_budget_exhausted + 1) as usize, ..h },
        HistogramBucket::DispatchErrors => DispatchHistogram { dispatch_errors: (h.dispatch_errors + 1) as usize, ..h },
        HistogramBucket::SignerRefusedMismatch => DispatchHistogram { signer_refused_mismatch: (h.signer_refused_mismatch + 1) as usize, ..h },
        HistogramBucket::SignerRefusedStructuralBug => DispatchHistogram { signer_refused_structural_bug: (h.signer_refused_structural_bug + 1) as usize, ..h },
    }
}

/// Whether every field of `a + b` fits in a `usize`.
pub open spec fn merge_fits(a: DispatchHistogram, b: DispatchHistogram) -> bool {
    a.sending_resumed + b.sending_resumed <= usize::MAX
    && a.kvt1_held + b.kvt1_held <= usize::MAX
    && a.encrypted_rerouted + b.encrypted_rerouted <= usize::MAX
    && a.kvt2_finalized + b.kvt2_finalized <= usize::MAX
    && a.kvt2_failed + b.kvt2_failed <= usize::MAX
    && a.prepared_deferred + b.prepared_deferred <= usize::MAX
    && a.signed_deferred + b.signed_deferred <= usize::MAX
    && a.sent_deferred + b.sent_deferred <= usize::MAX
    && a.error_retryable_deferred + b.error_retryable_deferred <= usize::MAX
    && a.signed_dispatched + b.signed_dispatched <= usize::MAX
    && a.error_retryable_dispatched + b.error_retryable_dispatched <= usize::MAX
    && a.sent_match_to_kvt1 + b.sent_match_to_kvt1 <= usize::MAX
    && a.sent_mismatch_to_manual + b.sent_mismatch_to_manual <= usize::MAX
    && a.sent_not_found_to_error_retryable + b.sent_not_found_to_error_retryable <= usize::MAX
    && a.sent_probe_failure_deferred + b.sent_probe_failure_deferred <= usize::MAX
    && a.prepared_dispatched + b.prepared_dispatched <= usize::MAX
    && a.offline_local_ack_emitted + b.offline_local_ack_emitted <= usize::MAX
    && a.write_path_dispatch_refused + b.write_path_dispatch_refused <= usize::MAX
    && a.error_retryable_escalated_to_manual + b.error_retryable_escalated_to_manual <= usize::MAX
    && a.error_retryable_probe_deferred + b.error_retryable_probe_deferred <= usize::MAX
    && a.error_retryable_indeterminate_deferred + b.error_retryable_indeterminate_deferred <= usize::MAX
    && a.prepared_replay_drift_deferred + b.prepared_replay_drift_deferred <= usize::MAX
    && a.error_retryable_budget_exhausted + b.error_retryable_budget_exhausted <= usize::MAX
    && a.dispatch_errors + b.dispatch_errors <= usize::MAX
    && a.signer_refused_mismatch + b.signer_refused_mismatch <= usize::MAX
    && a.signer_refused_structural_bug + b.signer_refused_structural_bug <= usize::MAX
}

/// Field-wise sum of two histograms.
pub open spec fn merged(a: DispatchHistogram, b: DispatchHistogram) -> DispatchHistogram {
    DispatchHistogram {
        sending_resumed: (a.sending_resumed + b.sending_resumed) as usize,
        kvt1_held: (a.kvt1_held + b.kvt1_held) as usize,
        encrypted_rerouted: (a.encrypted_rerouted + b.encrypted_rerouted) as usize,
        kvt2_finalized: (a.kvt2_finalized + b.kvt2_finalized) as usize,
        kvt2_failed: (a.kvt2_failed + b.kvt2_failed) as usize,
        prepared_deferred: (a.prepared_deferred + b.prepared_deferred) as usize,
        signed_deferred: (a.signed_deferred + b.signed_deferred) as usize,
        sent_deferred: (a.sent_deferred + b.sent_deferred) as usize,
        error_retryable_deferred: (a.error_retryable_deferred + b.error_retryable_deferred) as usize,
        signed_dispatched: (a.signed_dispatched + b.signed_dispatched) as usize,
        error_retryable_dispatched: (a.error_retryable_dispatched + b.error_retryable_dispatched) as usize,
        sent_match_to_kvt1: (a.sent_match_to_kvt1 + b.sent_match_to_kvt1) as usize,
        sent_mismatch_to_manual: (a.sent_mismatch_to_manual + b.sent_mismatch_to_manual) as usize,
        sent_not_found_to_error_retryable: (a.sent_not_found_to_error_retryable + b.sent_not_found_to_error_retryable) as usize,
        sent_probe_failure_deferred: (a.sent_probe_failure_deferred + b.sent_probe_failure_deferred) as usize,
        prepared_dispatched: (a.prepared_dispatched + b.prepared_dispatched) as usize,
        offline_local_ack_emitted: (a.offline_local_ack_emitted + b.offline_local_ack_emitted) as usize,
        write_path_dispatch_refused: (a.write_path_dispatch_refused + b.write_path_dispatch_refused) as usize,
        error_retryable_escalated_to_manual: (a.error_retryable_escalated_to_manual + b.error_retryable_escalated_to_manual) as usize,
        error_retryable_probe_deferred: (a.error_retryable_probe_deferred + b.error_retryable_probe_deferred) as usize,
        error_retryable_indeterminate_deferred: (a.error_retryable_indeterminate_deferred + b.error_retryable_indeterminate_deferred) as usize,
        prepared_replay_drift_deferred: (a.prepared_replay_drift_deferred + b.prepared_replay_drift_deferred) as usize,
        error_retryable_budget_exhausted: (a.error_retryable_budget_exhausted + b.error_retryable_budget_exhausted) as usize,
        dispatch_errors: (a.dispatch_errors + b.dispatch_errors) as usize,
        signer_refused_mismatch: (a.signer_refused_mismatch + b.signer_refused_mismatch) as usize,
        signer_refused_structural_bug: (a.signer_refused_structural_bug + b.signer_refused_structural_bug) as usize,
    }
}

impl Default for DispatchHistogram {
    /// The all-zero histogram.
    fn default() -> (h: DispatchHistogram)
        ensures
            h == empty_histogram(),
    {
        DispatchHistogram {
            sending_resumed: 0,
            kvt1_held: 0,
            encrypted_rerouted: 0,
            kvt2_finalized: 0,
            kvt2_failed: 0,
            prepared_deferred: 0,
            signed_deferred: 0,
            sent_deferred: 0,
            error_retryable_deferred: 0,
            signed_dispatched: 0,
            error_retryable_dispatched: 0,
            sent_match_to_kvt1: 0,
            sent_mismatch_to_manual: 0,
            sent_not_found_to_error_retryable: 0,
            sent_probe_failure_deferred: 0,
            prepared_dispatched: 0,
            offline_local_ack_emitted: 0,
            write_path_dispatch_refused: 0,
            error_retryable_escalated_to_manual: 0,
            error_retryable_probe_deferred: 0,
            error_retryable_indeterminate_deferred: 0,
            prepared_replay_drift_deferred: 0,
            error_retryable_budget_exhausted: 0,
            dispatch_errors: 0,
            signer_refused_mismatch: 0,
            signer_refused_structural_bug: 0,
        }
    }
}

impl DispatchHistogram {
    /// Total number of documents counted.
    pub fn total_visited(&self) -> (r: usize)
        requires
            histogram_total(*self) <= usize::MAX,
        ensures
            r == histogram_total(*self),
    {
        self.sending_resumed
            + self.kvt1_held
            + self.encrypted_rerouted
            + self.kvt2_finalized
            + self.kvt2_failed
            + self.prepared_deferred
            + self.signed_deferred
            + self.sent_deferred
            + self.error_retryable_deferred
            + self.signed_dispatched
            + self.error_retryable_dispatched
            + self.sent_match_to_kvt1
            + self.sent_mismatch_to_manual
            + self.sent_not_found_to_error_retryable
            + self.sent_probe_failure_deferred
            + self.prepared_dispatched
            + self.offline_local_ack_emitted
            + self.write_path_dispatch_refused
            + self.error_retryable_escalated_to_manual
            + self.error_retryable_probe_deferred
            + self.error_retryable_indeterminate_deferred
            + self.prepared_replay_drift_deferred
            + self.error_retryable_budget_exhausted
            + self.dispatch_errors
            + self.signer_refused_mismatch
            + self.signer_refused_structural_bug
    }

    /// Add `other` into `self`, field by field.
    pub fn merge(&mut self, other: &DispatchHistogram)
        requires
            merge_fits(*old(self), *other),
        ensures
            *final(self) == merged(*old(self), *other),
    {
        self.sending_resumed = self.sending_resumed + other.sending_resumed;
        self.kvt1_held = self.kvt1_held + other.kvt1_held;
        self.encrypted_rerouted = self.encrypted_rerouted + other.encrypted_rerouted;
        self.kvt2_finalized = self.kvt2_finalized + other.kvt2_finalized;
        self.kvt2_failed = self.kvt2_failed + other.kvt2_failed;
        self.prepared_deferred = self.prepared_deferred + other.prepared_deferred;
        self.signed_deferred = self.signed_deferred + other.signed_deferred;
        self.sent_deferred = self.sent_deferred + other.sent_deferred;
        self.error_retryable_deferred = self.error_retryable_deferred + other.error_retryable_deferred;
        self.signed_dispatched = self.signed_dispatched + other.signed_dispatched;
        self.error_retryable_dispatched = self.error_retryable_dispatched + other.error_retryable_dispatched;
        self.sent_match_to_kvt1 = self.sent_match_to_kvt1 + other.sent_match_to_kvt1;
        self.sent_mismatch_to_manual = self.sent_mismatch_to_manual + other.sent_mismatch_to_manual;
        self.sent_not_found_to_error_retryable = self.sent_not_found_to_error_retryable + other.sent_not_found_to_error_retryable;
        self.sent_probe_failure_deferred = self.sent_probe_failure_deferred + other.sent_probe_failure_deferred;
        self.prepared_dispatched = self.prepared_dispatched + other.prepared_dispatched;
        self.offline_local_ack_emitted = self.offline_local_ack_emitted + other.offline_local_ack_emitted;
        self.write_path_dispatch_refused = self.write_path_dispatch_refused + other.write_path_dispatch_refused;
        self.error_retryable_escalated_to_manual = self.error_retryable_escalated_to_manual + other.error_retryable_escalated_to_manual;
        self.error_retryable_probe_deferred = self.error_retryable_probe_deferred + other.error_retryable_probe_deferred;
        self.error_retryable_indeterminate_deferred = self.error_retryable_indeterminate_deferred + other.error_retryable_indeterminate_deferred;
        self.prepared_replay_drift_deferred = self.prepared_replay_drift_deferred + other.prepared_replay_drift_deferred;
        self.error_retryable_budget_exhausted = self.error_retryable_budget_exhausted + other.error_retryable_budget_exhausted;
        self.dispatch_errors = self.dispatch_errors + other.dispatch_errors;
        self.signer_refused_mismatch = self.signer_refused_mismatch + other.signer_refused_mismatch;
        self.signer_refused_structural_bug = self.signer_refused_structural_bug + other.signer_refused_structural_bug;
    }

    /// The count of bucket `b`.
    pub fn count(&self, b: HistogramBucket) -> (r: usize)
        ensures
            r == bucket_count(*self, b),
    {
        match b {
            HistogramBucket::SendingResumed => self.sending_resumed,
            HistogramBucket::Kvt1Held => self.kvt1_held,
            HistogramBucket::EncryptedRerouted => self.encrypted_rerouted,
            HistogramBucket::Kvt2Finalized => self.kvt2_finalized,
            HistogramBucket::Kvt2Failed => self.kvt2_failed,
            HistogramBucket::PreparedDeferred => self.prepared_deferred,
            HistogramBucket::SignedDeferred => self.signed_deferred,
            HistogramBucket::SentDeferred => self.sent_deferred,
            HistogramBucket::ErrorRetryableDeferred => self.error_retryable_deferred,
            HistogramBucket::SignedDispatched => self.signed_dispatched,
            HistogramBucket::ErrorRetryableDispatched => self.error_retryable_dispatched,
            HistogramBucket::SentMatchToKvt1 => self.sent_match_to_kvt1,
            HistogramBucket::SentMismatchToManual => self.sent_mismatch_to_manual,
            HistogramBucket::SentNotFoundToErrorRetryable => self.sent_not_found_to_error_retryable,
            HistogramBucket::SentProbeFailureDeferred => self.sent_probe_failure_deferred,
            HistogramBucket::PreparedDispatched => self.prepared_dispatched,
            HistogramBucket::OfflineLocalAckEmitted => self.offline_local_ack_emitted,
            HistogramBucket::WritePathDispatchRefused => self.write_path_dispatch_refused,
            HistogramBucket::ErrorRetryableEscalatedToManual => self.error_retryable_escalated_to_manual,
            HistogramBucket::ErrorRetryableProbeDeferred => self.error_retryable_probe_deferred,
            HistogramBucket::ErrorRetryableIndeterminateDeferred => self.error_retryable_indeterminate_deferred,
            HistogramBucket::PreparedReplayDriftDeferred => self.prepared_replay_drift_deferred,
            HistogramBucket::ErrorRetryableBudgetExhausted => self.error_retryable_budget_exhausted,
            HistogramBucket::DispatchErrors => self.dispatch_errors,
            HistogramBucket::SignerRefusedMismatch => self.signer_refused_mismatch,
            HistogramBucket::SignerRefusedStructuralBug => self.signer_refused_structural_bug,
        }
    }

    /// Count one more document in bucket `b`.
    pub fn bump(&mut self, b: HistogramBucket)
        requires
            bucket_count(*old(self), b) < usize::MAX,
        ensures
            *final(self) == bumped(*old(self), b),
    {
        match b {
            HistogramBucket::SendingResumed => self.sending_resumed = self.sending_resumed + 1,
            HistogramBucket::Kvt1Held => self.kvt1_held = self.kvt1_held + 1,
            HistogramBucket::EncryptedRerouted => self.encrypted_rerouted = self.encrypted_rerouted + 1,
            HistogramBucket::Kvt2Finalized => self.kvt2_finalized = self.kvt2_finalized + 1,
            HistogramBucket::Kvt2Failed => self.kvt2_failed = self.kvt2_failed + 1,
            HistogramBucket::PreparedDeferred => self.prepared_deferred = self.prepared_deferred + 1,
            HistogramBucket::SignedDeferred => self.signed_deferred = self.signed_deferred + 1,
            HistogramBucket::SentDeferred => self.sent_deferred = self.sent_deferred + 1,
            HistogramBucket::ErrorRetryableDeferred => self.error_retryable_deferred = self.error_retryable_deferred + 1,
            HistogramBucket::SignedDispatched => self.signed_dispatched = self.signed_dispatched + 1,
            HistogramBucket::ErrorRetryableDispatched => self.error_retryable_dispatched = self.error_retryable_dispatched + 1,
            HistogramBucket::SentMatchToKvt1 => self.sent_match_to_kvt1 = self.sent_match_to_kvt1 + 1,
            HistogramBucket::SentMismatchToManual => self.sent_mismatch_to_manual = self.sent_mismatch_to_manual + 1,
            HistogramBucket::SentNotFoundToErrorRetryable => self.sent_not_found_to_error_retryable = self.sent_not_found_to_error_retryable + 1,
            HistogramBucket::SentProbeFailureDeferred => self.sent_probe_failure_deferred = self.sent_probe_failure_deferred + 1,
            HistogramBucket::PreparedDispatched => self.prepared_dispatched = self.prepared_dispatched + 1,
            HistogramBucket::OfflineLocalAckEmitted => self.offline_local_ack_emitted = self.offline_local_ack_emitted + 1,
            HistogramBucket::WritePathDispatchRefused => self.write_path_dispatch_refused = self.write_path_dispatch_refused + 1,
            HistogramBucket::ErrorRetryableEscalatedToManual => self.error_retryable_escalated_to_manual = self.error_retryable_escalated_to_manual + 1,
            HistogramBucket::ErrorRetryableProbeDeferred => self.error_retryable_probe_deferred = self.error_retryable_probe_deferred + 1,
            HistogramBucket::ErrorRetryableIndeterminateDeferred => self.error_retryable_indeterminate_deferred = self.error_retryable_indeterminate_deferred + 1,
            HistogramBucket::PreparedReplayDriftDeferred => self.prepared_replay_drift_deferred = self.prepared_replay_drift_deferred + 1,
            HistogramBucket::ErrorRetryableBudgetExhausted => self.error_retryable_budget_exhausted = self.error_retryable_budget_exhausted + 1,
            HistogramBucket::DispatchErrors => self.dispatch_errors = self.dispatch_errors + 1,
            HistogramBucket::SignerRefusedMismatch => self.signer_refused_mismatch = self.signer_refused_mismatch + 1,
            HistogramBucket::SignerRefusedStructuralBug => self.signer_refused_structural_bug = self.signer_refused_structural_bug + 1,
        }
    }
}

/// Adding two histograms adds their totals.
pub proof fn merge_adds_totals(a: DispatchHistogram, b: DispatchHistogram)
    requires
        merge_fits(a, b),
    ensures
        histogram_total(merged(a, b)) == histogram_total(a) + histogram_total(b),
{
}

/// Counting one document adds exactly one to the total and to its bucket,
/// and leaves every other bucket unchanged.
#[verifier::spinoff_prover]
pub proof fn bump_counts_one_document(h: DispatchHistogram, b: HistogramBucket, other: HistogramBucket)
    requires
        bucket_count(h, b) < usize::MAX,
    ensures
        histogram_total(bumped(h, b)) == histogram_total(h) + 1,
        bucket_count(bumped(h, b), b) == bucket_count(h, b) + 1,
        other != b ==> bucket_count(bumped(h, b), other) == bucket_count(h, other),
{
    match b {
        HistogramBucket::SendingResumed => {},
        HistogramBucket::Kvt1Held => {},
        HistogramBucket::EncryptedRerouted => {},
        HistogramBucket::Kvt2Finalized => {},
        HistogramBucket::Kvt2Failed => {},
        HistogramBucket::PreparedDeferred => {},
        HistogramBucket::SignedDeferred => {},
        HistogramBucket::SentDeferred => {},
        HistogramBucket::ErrorRetryableDeferred => {},
        HistogramBucket::SignedDispatched => {},
        HistogramBucket::ErrorRetryableDispatched => {},
        HistogramBucket::SentMatchToKvt1 => {},
        HistogramBucket::SentMismatchToManual => {},
        HistogramBucket::SentNotFoundToErrorRetryable => {},
        HistogramBucket::SentProbeFailureDeferred => {},
        HistogramBucket::PreparedDispatched => {},
        HistogramBucket::OfflineLocalAckEmitted => {},
        HistogramBucket::WritePathDispatchRefused => {},
        HistogramBucket::ErrorRetryableEscalatedToManual => {},
        HistogramBucket::ErrorRetryableProbeDeferred => {},
        HistogramBucket::ErrorRetryableIndeterminateDeferred => {},
        HistogramBucket::PreparedReplayDriftDeferred => {},
        HistogramBucket::ErrorRetryableBudgetExhausted => {},
        HistogramBucket::DispatchErrors => {},
        HistogramBucket::SignerRefusedMismatch => {},
        HistogramBucket::SignerRefusedStructuralBug => {},
    }
}

// ─── Branch outcomes ─────────────────────────────────────────────────

/// Sub-branch of a pending-set pass: (c) plain, or (e1) with a
/// mid-transition shift (`Opening` / `Closing`) cascading into (c).
#[derive(Debug, Clone, Copy, PartialEq, Eq, Structural)]
pub enum SubBranch {
    C,
    E1,
}

/// Audit tag of a sub-branch.
pub open spec fn sub_branch_tag(s: SubBranch) -> Seq<char> {
    match s {
        SubBranch::C => "c"@,
        SubBranch::E1 => "e1"@,
    }
}

impl SubBranch {
    /// Audit tag of the sub-branch.
    pub fn as_str(&self) -> (r: &'static str)
        ensures
            r@ == sub_branch_tag(*self),
    {
        match self {
            SubBranch::C => "c",
            SubBranch::E1 => "e1",
        }
    }
}

/// Outcome of the boot decision tree for one FN.
#[derive(Debug, Clone, Copy, PartialEq, Eq, Structural)]
pub enum BranchOutcome {
    /// (a) No node-state row: initial row written.
    Bootstrapped,
    /// (b) Nothing pending: idempotent no-op.
    IdempotentNoop,
    /// (c)/(e1) Pending documents dispatched.
    Reconciled { histogram: DispatchHistogram, sub_branch: SubBranch },
    /// (d) `GoingOnline`: the backlog drain owns this FN.
    OfflineRefusal { observed_mode: NodeMode },
    /// (e2) Orphan mid-transition shifts forced to `ERROR`.
    OrphanShiftResolved { orphans_resolved: usize },
    /// (f1) `Blocked` preserved.
    PreservedBlocked,
    /// (f2) `StopMode` preserved.
    PreservedStopMode,
    /// (f3) `CryptoDegraded` preserved.
    PreservedCryptoDegraded,
}

/// Audit tag of a branch outcome.
pub open spec fn branch_tag_of(o: BranchOutcome) -> Seq<char> {
    match o {
        BranchOutcome::Bootstrapped => "a"@,
        BranchOutcome::IdempotentNoop => "b"@,
        BranchOutcome::Reconciled { sub_branch, .. } => sub_branch_tag(sub_branch),
        BranchOutcome::OfflineRefusal { .. } => "d"@,
        BranchOutcome::OrphanShiftResolved { .. } => "e2"@,
        BranchOutcome::PreservedBlocked => "f1"@,
        BranchOutcome::PreservedStopMode => "f2"@,
        BranchOutcome::PreservedCryptoDegraded => "f3"@,
    }
}

impl BranchOutcome {
    /// Stable tag of the branch, used in audit payloads.
    pub fn branch_tag(&self) -> (r: &'static str)
        ensures
            r@ == branch_tag_of(*self),
    {
        match self {
            BranchOutcome::Bootstrapped => "a",
            BranchOutcome::IdempotentNoop => "b",
            BranchOutcome::Reconciled { sub_branch, .. } => sub_branch.as_str(),
            BranchOutcome::OfflineRefusal { .. } => "d",
            BranchOutcome::OrphanShiftResolved { .. } => "e2",
            BranchOutcome::PreservedBlocked => "f1",
            BranchOutcome::PreservedStopMode => "f2",
            BranchOutcome::PreservedCryptoDegraded => "f3",
        }
    }
}

/// Per-call aggregate of the boot decision tree over all FNs.
#[derive(Debug, Clone, Copy, PartialEq, Eq, Structural)]
pub struct ReconciliationSummary {
    pub branch_a: usize,
    pub branch_b: usize,
    pub branch_c: usize,
    pub branch_d_offline_refusal: usize,
    pub branch_e1: usize,
    pub branch_e2: usize,
    pub branch_f_blocked: usize,
    pub branch_f_stop_mode: usize,
    pub branch_f_crypto_degraded: usize,
    /// Union of the per-FN dispatch histograms.
    pub docs_advanced: DispatchHistogram,
    /// Orphan shifts forced to `ERROR`, over all FNs.
    pub shift_orphans_to_error: usize,
}

/// The all-zero summary.
pub open spec fn empty_summary() -> ReconciliationSummary {
    ReconciliationSummary {
        branch_a: 0,
        branch_b: 0,
        branch_c: 0,
        branch_d_offline_refusal: 0,
        branch_e1: 0,
        branch_e2: 0,
        branch_f_blocked: 0,
        branch_f_stop_mode: 0,
        branch_f_crypto_degraded: 0,
        docs_advanced: empty_histogram(),
        shift_orphans_to_error: 0,
    }
}

/// Number of FN outcomes a summary has recorded.
pub open spec fn branch_total(s: ReconciliationSummary) -> int {
    s.branch_a + s.branch_b + s.branch_c + s.branch_d_offline_refusal + s.branch_e1 + s.branch_e2
        + s.branch_f_blocked + s.branch_f_stop_mode + s.branch_f_crypto_degraded
}

/// Whether recording `o` into `s` keeps every counter within `usize`.
pub open spec fn record_fits(s: ReconciliationSummary, o: BranchOutcome) -> bool {
    match o {
        BranchOutcome::Bootstrapped => s.branch_a < usize::MAX,
        BranchOutcome::IdempotentNoop => s.branch_b < usize::MAX,
        BranchOutcome::Reconciled { histogram, sub_branch } => merge_fits(s.docs_advanced, histogram) && match sub_branch {
            SubBranch::C => s.branch_c < usize::MAX,
            SubBranch::E1 => s.branch_e1 < usize::MAX,
        },
        BranchOutcome::OfflineRefusal { .. } => s.branch_d_offline_refusal < usize::MAX,
        BranchOutcome::OrphanShiftResolved { orphans_resolved } => s.branch_e2 < usize::MAX
            && s.shift_orphans_to_error + orphans_resolved <= usize::MAX,
        BranchOutcome::PreservedBlocked => s.branch_f_blocked < usize::MAX,
        BranchOutcome::PreservedStopMode => s.branch_f_stop_mode < usize::MAX,
        BranchOutcome::PreservedCryptoDegraded => s.branch_f_crypto_degraded < usize::MAX,
    }
}

/// `s` after recording the outcome `o` of one FN.
pub open spec fn recorded(s: ReconciliationSummary, o: BranchOutcome) -> ReconciliationSummary {
    match o {
        BranchOutcome::Bootstrapped => ReconciliationSummary { branch_a: (s.branch_a + 1) as usize, ..s },
        BranchOutcome::IdempotentNoop => ReconciliationSummary { branch_b: (s.branch_b + 1) as usize, ..s },
        BranchOutcome::Reconciled { histogram, sub_branch } => match sub_branch {
            SubBranch::C => ReconciliationSummary {
                branch_c: (s.branch_c + 1) as usize,
                docs_advanced: merged(s.docs_advanced, histogram),
                ..s
            },
            SubBranch::E1 => ReconciliationSummary {
                branch_e1: (s.branch_e1 + 1) as usize,
                docs_advanced: merged(s.docs_advanced, histogram),
                ..s
            },
        },
        BranchOutcome::OfflineRefusal { .. } => ReconciliationSummary {
            branch_d_offline_refusal: (s.branch_d_offline_refusal + 1) as usize,
            ..s
        },
        BranchOutcome::OrphanShiftResolved { orphans_resolved } => ReconciliationSummary {
            branch_e2: (s.branch_e2 + 1) as usize,
            shift_orphans_to_error: (s.shift_orphans_to_error + orphans_resolved) as usize,
            ..s
        },
        BranchOutcome::PreservedBlocked => ReconciliationSummary {
            branch_f_blocked: (s.branch_f_blocked + 1) as usize,
            ..s
        },
        BranchOutcome::PreservedStopMode => ReconciliationSummary {
            branch_f_stop_mode: (s.branch_f_stop_mode + 1) as usize,
            ..s
        },
        BranchOutcome::PreservedCryptoDegraded => ReconciliationSummary {
            branch_f_crypto_degraded: (s.branch_f_crypto_degraded + 1) as usize,
            ..s
        },
    }
}

impl Default for ReconciliationSummary {
    /// The all-zero summary.
    fn default() -> (s: ReconciliationSummary)
        ensures
            s == empty_summary(),
    {
        ReconciliationSummary {
            branch_a: 0,
            branch_b: 0,
            branch_c: 0,
            branch_d_offline_refusal: 0,
            branch_e1: 0,
            branch_e2: 0,
            branch_f_blocked: 0,
            branch_f_stop_mode: 0,
            branch_f_crypto_degraded: 0,
            docs_advanced: DispatchHistogram::default(),
            shift_orphans_to_error: 0,
        }
    }
}

impl ReconciliationSummary {
    /// Fold one FN's outcome into the summary: its branch counter goes up
    /// by one, a histogram is merged into `docs_advanced`, an orphan count
    /// is added to `shift_orphans_to_error`.
    pub fn record(&mut self, outcome: &BranchOutcome)
        requires
            record_fits(*old(self), *outcome),
        ensures
            *final(self) == recorded(*old(self), *outcome),
    {
        match outcome {
            BranchOutcome::Bootstrapped => self.branch_a = self.branch_a + 1,
            BranchOutcome::IdempotentNoop => self.branch_b = self.branch_b + 1,
            BranchOutcome::Reconciled { histogram, sub_branch } => {
                match sub_branch {
                    SubBranch::C => self.branch_c = self.branch_c + 1,
                    SubBranch::E1 => self.branch_e1 = self.branch_e1 + 1,
                }
                self.docs_advanced.merge(histogram);
            },
            BranchOutcome::OfflineRefusal { .. } => {
                self.branch_d_offline_refusal = self.branch_d_offline_refusal + 1;
            },
            BranchOutcome::OrphanShiftResolved { orphans_resolved } => {
                self.branch_e2 = self.branch_e2 + 1;
                self.shift_orphans_to_error = self.shift_orphans_to_error + *orphans_resolved;
            },
            BranchOutcome::PreservedBlocked => self.branch_f_blocked = self.branch_f_blocked + 1,
            BranchOutcome::PreservedStopMode => self.branch_f_stop_mode = self.branch_f_stop_mode + 1,
            BranchOutcome::PreservedCryptoDegraded => {
                self.branch_f_crypto_degraded = self.branch_f_crypto_degraded + 1;
            },
        }
    }
}

/// Each recorded FN outcome lands in exactly one branch counter, and the
/// documents of a reconciled FN are all carried into `docs_advanced`.
pub proof fn record_counts_one_fn(s: ReconciliationSummary, o: BranchOutcome)
    requires
        record_fits(s, o),
    ensures
        branch_total(recorded(s, o)) == branch_total(s) + 1,
        histogram_total(recorded(s, o).docs_advanced) == histogram_total(s.docs_advanced) + match o {
            BranchOutcome::Reconciled { histogram, .. } => histogram_total(histogram),
            _ => 0,
        },
{
    match o {
        BranchOutcome::Reconciled { histogram, .. } => merge_adds_totals(s.docs_advanced, histogram),
        _ => {},
    }
}

// ─── Per-FN decision tree ────────────────────────────────────────────

/// What the boot pass does for one FN.
#[derive(Debug, Clone, Copy, PartialEq, Eq, Structural)]
pub enum BootPlan {
    /// (a) Write the initial node-state row (`Online`, shift `Closed`).
    Bootstrap,
    /// (d) `GoingOnline`: refuse; the backlog drain owns the FN.
    RefuseGoingOnline,
    /// (f1) Keep `Blocked`.
    PreserveBlocked,
    /// (f2) Keep `StopMode`.
    PreserveStopMode,
    /// (f3) Keep `CryptoDegraded`.
    PreserveCryptoDegraded,
    /// (e2) Force the orphan `Opening` / `Closing` shifts to `ERROR`.
    ResolveOrphanShifts,
    /// (b) Nothing pending.
    IdempotentNoop,
    /// (c)/(e1) Dispatch every pending document.
    DispatchPending { sub_branch: SubBranch },
}

/// Whether a shift is mid-transition.
pub open spec fn mid_transition(shift_state: ShiftState) -> bool {
    shift_state == ShiftState::Opening || shift_state == ShiftState::Closing
}

/// The boot plan for an FN whose node-state row holds `row` (`None`: no
/// row) and which has pending documents iff `has_pending`.
pub open spec fn boot_plan_of(row: Option<(NodeMode, ShiftState)>, has_pending: bool) -> BootPlan {
    match row {
        None => BootPlan::Bootstrap,
        Some((mode, shift_state)) => if mode == NodeMode::GoingOnline {
            BootPlan::RefuseGoingOnline
        } else if mode == NodeMode::Blocked {
            BootPlan::PreserveBlocked
        } else if mode == NodeMode::StopMode {
            BootPlan::PreserveStopMode
        } else if mode == NodeMode::CryptoDegraded {
            BootPlan::PreserveCryptoDegraded
        } else if mode == NodeMode::Online && mid_transition(shift_state) && !has_pending {
            BootPlan::ResolveOrphanShifts
        } else if !has_pending {
            BootPlan::IdempotentNoop
        } else if mid_transition(shift_state) {
            BootPlan::DispatchPending { sub_branch: SubBranch::E1 }
        } else {
            BootPlan::DispatchPending { sub_branch: SubBranch::C }
        },
    }
}

/// The per-FN boot decision tree (see [`boot_plan_of`]).
pub fn boot_plan(row: Option<(NodeMode, ShiftState)>, has_pending: bool) -> (r: BootPlan)
    ensures
        r == boot_plan_of(row, has_pending),
{
    match row {
        None => BootPlan::Bootstrap,
        Some((mode, shift_state)) => {
            let mid = match shift_state {
                ShiftState::Opening | ShiftState::Closing => true,
                _ => false,
            };
            match mode {
                NodeMode::GoingOnline => BootPlan::RefuseGoingOnline,
                NodeMode::Blocked => BootPlan::PreserveBlocked,
                NodeMode::StopMode => BootPlan::PreserveStopMode,
                NodeMode::CryptoDegraded => BootPlan::PreserveCryptoDegraded,
                _ => {
                    let online = match mode {
                        NodeMode::Online => true,
                        _ => false,
                    };
                    if online && mid && !has_pending {
                        BootPlan::ResolveOrphanShifts
                    } else if !has_pending {
                        BootPlan::IdempotentNoop
                    } else if mid {
                        BootPlan::DispatchPending { sub_branch: SubBranch::E1 }
                    } else {
                        BootPlan::DispatchPending { sub_branch: SubBranch::C }
                    }
                },
            }
        },
    }
}

/// The audit event and severity a plan writes for its FN (the orphan
/// resolution writes one `SHIFT_BOOT_ORPHAN_ERROR` row per shift instead).
pub open spec fn boot_plan_audit_of(plan: BootPlan) -> Option<(Seq<char>, Severity)> {
    match plan {
        BootPlan::Bootstrap => Some(("NODE_STATE_INITIALISED"@, Severity::Info)),
        BootPlan::RefuseGoingOnline => Some(("NODE_STATE_BOOT_OFFLINE_REFUSAL"@, Severity::Error)),
        BootPlan::PreserveBlocked => Some(("NODE_STATE_BOOT_BLOCKED_PRESERVED"@, Severity::Info)),
        BootPlan::PreserveStopMode => Some(("NODE_STATE_BOOT_STOP_MODE_PRESERVED"@, Severity::Warning)),
        BootPlan::PreserveCryptoDegraded => Some(
            ("NODE_STATE_BOOT_CRYPTO_DEGRADED_PRESERVED"@, Severity::Warning),
        ),
        BootPlan::ResolveOrphanShifts => Some(("SHIFT_BOOT_ORPHAN_ERROR"@, Severity::Critical)),
        BootPlan::IdempotentNoop => Some(("NODE_STATE_BOOT_IDEMPOTENT"@, Severity::Info)),
        BootPlan::DispatchPending { .. } => Some(("NODE_STATE_BOOT_RECONCILED"@, Severity::Info)),
    }
}

/// The audit event and severity of a plan.
pub fn boot_plan_audit(plan: BootPlan) -> (r: (&'static str, Severity))
    ensures
        boot_plan_audit_of(plan) == Some((r.0@, r.1)),
{
    match plan {
        BootPlan::Bootstrap => ("NODE_STATE_INITIALISED", Severity::Info),
        BootPlan::RefuseGoingOnline => ("NODE_STATE_BOOT_OFFLINE_REFUSAL", Severity::Error),
        BootPlan::PreserveBlocked => ("NODE_STATE_BOOT_BLOCKED_PRESERVED", Severity::Info),
        BootPlan::PreserveStopMode => ("NODE_STATE_BOOT_STOP_MODE_PRESERVED", Severity::Warning),
        BootPlan::PreserveCryptoDegraded => ("NODE_STATE_BOOT_CRYPTO_DEGRADED_PRESERVED", Severity::Warning),
        BootPlan::ResolveOrphanShifts => ("SHIFT_BOOT_ORPHAN_ERROR", Severity::Critical),
        BootPlan::IdempotentNoop => ("NODE_STATE_BOOT_IDEMPOTENT", Severity::Info),
        BootPlan::DispatchPending { .. } => ("NODE_STATE_BOOT_RECONCILED", Severity::Info),
    }
}

/// The branch partition: (e2) and (e1) are the only branches with a
/// mid-transition shift among the modes that reach the pending-set pass,
/// (e2) exactly when nothing is pending on an `Online` node; a
/// `GoingOnline` node never reaches document dispatch.
pub proof fn boot_branch_partition(row: Option<(NodeMode, ShiftState)>, has_pending: bool)
    ensures
        match row {
            Some((mode, shift_state)) => {
                &&& (boot_plan_of(row, has_pending) == BootPlan::ResolveOrphanShifts <==> (mode
                    == NodeMode::Online && mid_transition(shift_state) && !has_pending))
                &&& (boot_plan_of(row, has_pending) == (BootPlan::DispatchPending {
                    sub_branch: SubBranch::E1,
                }) ==> (mid_transition(shift_state) && has_pending))
                &&& (mode == NodeMode::GoingOnline ==> boot_plan_of(row, has_pending)
                    == BootPlan::RefuseGoingOnline)
            },
            None => boot_plan_of(row, has_pending) == BootPlan::Bootstrap,
        },
        boot_plan_of(row, has_pending) is DispatchPending ==> has_pending,
{
}

// ─── Per-document dispatch ───────────────────────────────────────────

/// How a visited document is counted: in a bucket, or as an absorbed
/// helper failure audited under the given branch tag.
#[derive(Debug, Clone, Copy, PartialEq, Eq)]
pub enum DispatchStep {
    Count(HistogramBucket),
    Error(&'static str),
}

/// The bucket a step counts into: a failure counts as a dispatch error.
pub open spec fn step_bucket(step: DispatchStep) -> HistogramBucket {
    match step {
        DispatchStep::Count(b) => b,
        DispatchStep::Error(_) => HistogramBucket::DispatchErrors,
    }
}

/// Whether `step` is the failure step tagged `tag`.
pub open spec fn is_error_step(step: DispatchStep, tag: Seq<char>) -> bool {
    step matches DispatchStep::Error(t) && t@ == tag
}

impl DispatchHistogram {
    /// Count one visited document as `step` says.
    pub fn count_step(&mut self, step: DispatchStep)
        requires
            bucket_count(*old(self), step_bucket(step)) < usize::MAX,
        ensures
            *final(self) == bumped(*old(self), step_bucket(step)),
    {
        match step {
            DispatchStep::Count(b) => self.bump(b),
            DispatchStep::Error(_) => self.bump(HistogramBucket::DispatchErrors),
        }
    }
}

/// The histogram after counting one document per step, in order.
pub open spec fn counted_steps(h: DispatchHistogram, steps: Seq<DispatchStep>) -> DispatchHistogram
    decreases steps.len(),
{
    if steps.len() == 0 {
        h
    } else {
        bumped(counted_steps(h, steps.drop_last()), step_bucket(steps.last()))
    }
}

/// How many of `steps` count into bucket `b`.
pub open spec fn steps_in(steps: Seq<DispatchStep>, b: HistogramBucket) -> nat
    decreases steps.len(),
{
    if steps.len() == 0 {
        0
    } else {
        steps_in(steps.drop_last(), b) + if step_bucket(steps.last()) == b {
            1nat
        } else {
            0nat
        }
    }
}

proof fn lemma_bucket_within_total(h: DispatchHistogram, b: HistogramBucket)
    ensures
        bucket_count(h, b) <= histogram_total(h),
{
    match b {
        HistogramBucket::SendingResumed => {},
        HistogramBucket::Kvt1Held => {},
        HistogramBucket::EncryptedRerouted => {},
        HistogramBucket::Kvt2Finalized => {},
        HistogramBucket::Kvt2Failed => {},
        HistogramBucket::PreparedDeferred => {},
        HistogramBucket::SignedDeferred => {},
        HistogramBucket::SentDeferred => {},
        HistogramBucket::ErrorRetryableDeferred => {},
        HistogramBucket::SignedDispatched => {},
        HistogramBucket::ErrorRetryableDispatched => {},
        HistogramBucket::SentMatchToKvt1 => {},
        HistogramBucket::SentMismatchToManual => {},
        HistogramBucket::SentNotFoundToErrorRetryable => {},
        HistogramBucket::SentProbeFailureDeferred => {},
        HistogramBucket::PreparedDispatched => {},
        HistogramBucket::OfflineLocalAckEmitted => {},
        HistogramBucket::WritePathDispatchRefused => {},
        HistogramBucket::ErrorRetryableEscalatedToManual => {},
        HistogramBucket::ErrorRetryableProbeDeferred => {},
        HistogramBucket::ErrorRetryableIndeterminateDeferred => {},
        HistogramBucket::PreparedReplayDriftDeferred => {},
        HistogramBucket::ErrorRetryableBudgetExhausted => {},
        HistogramBucket::DispatchErrors => {},
        HistogramBucket::SignerRefusedMismatch => {},
        HistogramBucket::SignerRefusedStructuralBug => {},
    }
}

/// Each visited pending document lands in exactly one bucket: counting a
/// pass's steps adds one document per step to the total, and to each
/// bucket exactly the steps that count into it.
pub proof fn each_pending_doc_counted_once(h: DispatchHistogram, steps: Seq<DispatchStep>, b: HistogramBucket)
    requires
        histogram_total(h) + steps.len() <= usize::MAX,
    ensures
        histogram_total(counted_steps(h, steps)) == histogram_total(h) + steps.len(),
        bucket_count(counted_steps(h, steps), b) == bucket_count(h, b) + steps_in(steps, b),
    decreases steps.len(),
{
    if steps.len() > 0 {
        let prev = steps.drop_last();
        each_pending_doc_counted_once(h, prev, b);
        each_pending_doc_counted_once(h, prev, step_bucket(steps.last()));
        let mid = counted_steps(h, prev);
        lemma_bucket_within_total(mid, step_bucket(steps.last()));
        bump_counts_one_document(mid, step_bucket(steps.last()), b);
    }
}

/// The action the pending-set pass takes for a document in a given state.
#[derive(Debug, Clone, Copy, PartialEq, Eq, Structural)]
pub enum PendingDocRoute {
    /// `SENDING`: move to `ERROR_RETRYABLE`, never re-send.
    ResumeSending,
    /// `KVT1`: hold passively.
    PassiveHoldKvt1,
    /// `ENCRYPTED`: reroute to `ERROR_RETRYABLE`.
    RerouteEncrypted,
    /// `KVT2`: finalize to `ACK`.
    FinalizeKvt2,
    /// `SIGNED` with runtime context: post-sign dispatch.
    DispatchSigned,
    /// `ERROR_RETRYABLE` with runtime context: redrive policy.
    RedriveErrorRetryable,
    /// `SENT` with runtime context: `last_chk` probe.
    ProbeSent,
    /// `PREPARED` with runtime context: sign, then post-sign dispatch.
    DispatchPrepared,
    /// A context-needy state without runtime context: defer, counted in
    /// `bucket`.
    DeferNoContext { bucket: HistogramBucket },
    /// A terminal state: the pending list broke its contract.
    ContractViolation,
}

/// The route of a pending document in `state`, with or without runtime
/// context (DPS channel and signing context).
pub open spec fn pending_doc_route_of(state: DocState, deps_available: bool) -> PendingDocRoute {
    match state {
        DocState::Sending => PendingDocRoute::ResumeSending,
        DocState::Kvt1 => PendingDocRoute::PassiveHoldKvt1,
        DocState::Encrypted => PendingDocRoute::RerouteEncrypted,
        DocState::Kvt2 => PendingDocRoute::FinalizeKvt2,
        DocState::Signed => if deps_available {
            PendingDocRoute::DispatchSigned
        } else {
            PendingDocRoute::DeferNoContext { bucket: HistogramBucket::SignedDeferred }
        },
        DocState::ErrorRetryable => if deps_available {
            PendingDocRoute::RedriveErrorRetryable
        } else {
            PendingDocRoute::DeferNoContext { bucket: HistogramBucket::ErrorRetryableDeferred }
        },
        DocState::Sent => if deps_available {
            PendingDocRoute::ProbeSent
        } else {
            PendingDocRoute::DeferNoContext { bucket: HistogramBucket::SentDeferred }
        },
        DocState::Prepared => if deps_available {
            PendingDocRoute::DispatchPrepared
        } else {
            PendingDocRoute::DeferNoContext { bucket: HistogramBucket::PreparedDeferred }
        },
        _ => PendingDocRoute::ContractViolation,
    }
}

/// The route of a pending document (see [`pending_doc_route_of`]).
pub fn pending_doc_route(state: DocState, deps_available: bool) -> (r: PendingDocRoute)
    ensures
        r == pending_doc_route_of(state, deps_available),
{
    match state {
        DocState::Sending => PendingDocRoute::ResumeSending,
        DocState::Kvt1 => PendingDocRoute::PassiveHoldKvt1,
        DocState::Encrypted => PendingDocRoute::RerouteEncrypted,
        DocState::Kvt2 => PendingDocRoute::FinalizeKvt2,
        DocState::Signed => if deps_available {
            PendingDocRoute::DispatchSigned
        } else {
            PendingDocRoute::DeferNoContext { bucket: HistogramBucket::SignedDeferred }
        },
        DocState::ErrorRetryable => if deps_available {
            PendingDocRoute::RedriveErrorRetryable
        } else {
            PendingDocRoute::DeferNoContext { bucket: HistogramBucket::ErrorRetryableDeferred }
        },
        DocState::Sent => if deps_available {
            PendingDocRoute::ProbeSent
        } else {
            PendingDocRoute::DeferNoContext { bucket: HistogramBucket::SentDeferred }
        },
        DocState::Prepared => if deps_available {
            PendingDocRoute::DispatchPrepared
        } else {
            PendingDocRoute::DeferNoContext { bucket: HistogramBucket::PreparedDeferred }
        },
        DocState::Ack | DocState::Rejected | DocState::Cancelled | DocState::OfflineLocalAck
        | DocState::RequiresManualReconciliation => PendingDocRoute::ContractViolation,
    }
}

/// How a document of a single-helper route is counted, given whether its
/// helper succeeded; `None` for the routes with their own step functions.
/// A failed `KVT2` finalize is counted in `kvt2_failed` (with its own audit
/// row), not as a dispatch error.
pub fn pending_doc_step(route: PendingDocRoute, helper_ok: bool) -> (r: Option<DispatchStep>)
    ensures
        match route {
            PendingDocRoute::ResumeSending => r is Some && (if helper_ok {
                r->0 == DispatchStep::Count(HistogramBucket::SendingResumed)
            } else {
                is_error_step(r->0, "c-sending"@)
            }),
            PendingDocRoute::PassiveHoldKvt1 => r is Some && (if helper_ok {
                r->0 == DispatchStep::Count(HistogramBucket::Kvt1Held)
            } else {
                is_error_step(r->0, "c-kvt1"@)
            }),
            PendingDocRoute::RerouteEncrypted => r is Some && (if helper_ok {
                r->0 == DispatchStep::Count(HistogramBucket::EncryptedRerouted)
            } else {
                is_error_step(r->0, "c-encrypted"@)
            }),
            PendingDocRoute::FinalizeKvt2 => r is Some && r->0 == DispatchStep::Count(
                if helper_ok {
                    HistogramBucket::Kvt2Finalized
                } else {
                    HistogramBucket::Kvt2Failed
                },
            ),
            PendingDocRoute::DeferNoContext { bucket } => r == Some(DispatchStep::Count(bucket)),
            _ => r is None,
        },
{
    match route {
        PendingDocRoute::ResumeSending => Some(
            if helper_ok {
                DispatchStep::Count(HistogramBucket::SendingResumed)
            } else {
                DispatchStep::Error("c-sending")
            },
        ),
        PendingDocRoute::PassiveHoldKvt1 => Some(
            if helper_ok {
                DispatchStep::Count(HistogramBucket::Kvt1Held)
            } else {
                DispatchStep::Error("c-kvt1")
            },
        ),
        PendingDocRoute::RerouteEncrypted => Some(
            if helper_ok {
                DispatchStep::Count(HistogramBucket::EncryptedRerouted)
            } else {
                DispatchStep::Error("c-encrypted")
            },
        ),
        PendingDocRoute::FinalizeKvt2 => Some(
            DispatchStep::Count(
                if helper_ok {
                    HistogramBucket::Kvt2Finalized
                } else {
                    HistogramBucket::Kvt2Failed
                },
            ),
        ),
        PendingDocRoute::DeferNoContext { bucket } => Some(DispatchStep::Count(bucket)),
        _ => None,
    }
}

/// The `rationale` of a `BOOT_DISPATCH_DEFERRED` audit row.
pub fn deferred_rationale(deps_available: bool) -> (r: &'static str)
    ensures
        r@ == (if deps_available {
            "ctx-needy dispatch arm pending wire-up (W11 PR-2 subsequent commits); doc stays in source state"@
        } else {
            "ctx-needy dispatch deferred to runtime composition (W11+); doc stays in source state"@
        }),
{
    if deps_available {
        "ctx-needy dispatch arm pending wire-up (W11 PR-2 subsequent commits); doc stays in source state"
    } else {
        "ctx-needy dispatch deferred to runtime composition (W11+); doc stays in source state"
    }
}

/// Why the signer check refused a send.
#[derive(Debug, Clone, Copy, PartialEq, Eq, Structural)]
pub enum SignerRefusal {
    /// The signer is not the shift's cashier: the operator can reissue.
    Mismatch,
    /// Missing signer, missing or foreign shift: a caller bug.
    StructuralBug,
}

/// Result of the online send of one document.
#[derive(Debug, Clone, Copy, PartialEq, Eq, Structural)]
pub enum SendResult {
    /// The send ran to an outcome, possibly a signer refusal.
    Completed { signer_refusal: Option<SignerRefusal> },
    /// The send failed with an error.
    Failed,
}

/// Result of the post-sign dispatch of one document.
#[derive(Debug, Clone, Copy, PartialEq, Eq, Structural)]
pub enum PostSignResult {
    /// Routed online, then sent.
    Online(SendResult),
    /// Routed offline and acknowledged locally.
    OfflineApplied,
    /// Routed offline and refused by the offline acknowledger.
    OfflineRefused,
    /// Refused by the dispatcher (mode not routable).
    Refused,
    /// The dispatcher failed with an error.
    DispatchFailed,
}

/// Count of a `SIGNED` document after its post-sign dispatch.
pub open spec fn signed_dispatch_step_of(result: PostSignResult) -> Option<HistogramBucket> {
    match result {
        PostSignResult::Online(SendResult::Completed { signer_refusal }) => Some(
            match signer_refusal {
                Some(SignerRefusal::Mismatch) => HistogramBucket::SignerRefusedMismatch,
                Some(SignerRefusal::StructuralBug) => HistogramBucket::SignerRefusedStructuralBug,
                None => HistogramBucket::SignedDispatched,
            },
        ),
        PostSignResult::OfflineApplied => Some(HistogramBucket::OfflineLocalAckEmitted),
        PostSignResult::OfflineRefused => Some(HistogramBucket::WritePathDispatchRefused),
        PostSignResult::Refused => Some(HistogramBucket::WritePathDispatchRefused),
        _ => None,
    }
}

/// How a `SIGNED` document is counted after its post-sign dispatch.
pub fn signed_dispatch_step(result: PostSignResult) -> (r: DispatchStep)
    ensures
        match signed_dispatch_step_of(result) {
            Some(b) => r == DispatchStep::Count(b),
            None => match result {
                PostSignResult::DispatchFailed => is_error_step(r, "c-signed-dispatch"@),
                _ => is_error_step(r, "c-signed"@),
            },
        },
{
    match result {
        PostSignResult::Online(SendResult::Completed { signer_refusal }) => DispatchStep::Count(
            match signer_refusal {
                Some(SignerRefusal::Mismatch) => HistogramBucket::SignerRefusedMismatch,
                Some(SignerRefusal::StructuralBug) => HistogramBucket::SignerRefusedStructuralBug,
                None => HistogramBucket::SignedDispatched,
            },
        ),
        PostSignResult::Online(SendResult::Failed) => DispatchStep::Error("c-signed"),
        PostSignResult::OfflineApplied => DispatchStep::Count(HistogramBucket::OfflineLocalAckEmitted),
        PostSignResult::OfflineRefused => DispatchStep::Count(HistogramBucket::WritePathDispatchRefused),
        PostSignResult::Refused => DispatchStep::Count(HistogramBucket::WritePathDispatchRefused),
        PostSignResult::DispatchFailed => DispatchStep::Error("c-signed-dispatch"),
    }
}

/// Count of a `PREPARED` document after signing and post-sign dispatch: any
/// completed send counts as dispatched.
pub open spec fn prepared_dispatch_step_of(result: PostSignResult) -> Option<HistogramBucket> {
    match result {
        PostSignResult::Online(SendResult::Completed { .. }) => Some(HistogramBucket::PreparedDispatched),
        PostSignResult::OfflineApplied => Some(HistogramBucket::OfflineLocalAckEmitted),
        PostSignResult::OfflineRefused => Some(HistogramBucket::WritePathDispatchRefused),
        PostSignResult::Refused => Some(HistogramBucket::WritePathDispatchRefused),
        _ => None,
    }
}

/// How a `PREPARED` document is counted after signing and post-sign dispatch.
pub fn prepared_dispatch_step(result: PostSignResult) -> (r: DispatchStep)
    ensures
        match prepared_dispatch_step_of(result) {
            Some(b) => r == DispatchStep::Count(b),
            None => match result {
                PostSignResult::DispatchFailed => is_error_step(r, "c-prepared-dispatch"@),
                _ => is_error_step(r, "c-prepared-send"@),
            },
        },
{
    match result {
        PostSignResult::Online(SendResult::Completed { .. }) => DispatchStep::Count(
            HistogramBucket::PreparedDispatched,
        ),
        PostSignResult::Online(SendResult::Failed) => DispatchStep::Error("c-prepared-send"),
        PostSignResult::OfflineApplied => DispatchStep::Count(HistogramBucket::OfflineLocalAckEmitted),
        PostSignResult::OfflineRefused => DispatchStep::Count(HistogramBucket::WritePathDispatchRefused),
        PostSignResult::Refused => DispatchStep::Count(HistogramBucket::WritePathDispatchRefused),
        PostSignResult::DispatchFailed => DispatchStep::Error("c-prepared-dispatch"),
    }
}

/// Branch tag of a `PREPARED` document whose inputs could not be read.
pub const PREPARED_INPUTS_ERROR_TAG: &'static str = "c-prepared-inputs";

/// Branch tag of a `PREPARED` document whose signing snapshot could not be
/// reloaded.
pub const PREPARED_SNAPSHOT_ERROR_TAG: &'static str = "c-prepared-snapshot-reload";

/// Branch tag of a `PREPARED` document whose signing failed.
pub const PREPARED_SIGN_ERROR_TAG: &'static str = "c-prepared-sign";

/// Branch tag of a `SENT` document without a server fiscal number.
pub const SENT_NO_SERVER_FISCAL_NO_TAG: &'static str = "c-sent-no-server-fiscal-no";

// ─── SENT crash recovery ─────────────────────────────────────────────

/// Outcome kind recorded on a transport trace closed without a state change.
#[derive(Debug, Clone, Copy, PartialEq, Eq, Structural)]
pub enum TraceOutcomeKind {
    RetryableTransport,
    RetryableServer,
}

/// The check id a `SENT` document's probe expects: its recorded server
/// fiscal number.  A `SENT` document without one is a structural breach:
/// no probe is made, and it counts as the dispatch error tagged
/// `c-sent-no-server-fiscal-no`.
pub fn sent_probe_expected_id(server_fiscal_no: Option<String>) -> (r: Result<String, DispatchStep>)
    ensures
        match server_fiscal_no {
            Some(s) => r matches Ok(e) && e@ == s@,
            None => r matches Err(DispatchStep::Error(tag)) && tag@ == "c-sent-no-server-fiscal-no"@,
        },
{
    match server_fiscal_no {
        Some(s) => Ok(s),
        None => Err(DispatchStep::Error("c-sent-no-server-fiscal-no")),
    }
}

/// What the `last_chk` probe of a `SENT` document leads to.
#[derive(Debug, Clone, Copy, PartialEq, Eq)]
pub enum SentProbeAction {
    /// The DPS holds this check: advance `SENT -> KVT1`.
    AdvanceToKvt1,
    /// The DPS's last check is another one: manual reconciliation.
    EscalateMismatch,
    /// The DPS holds no check: back to `ERROR_RETRYABLE` for a redrive.
    ReturnToErrorRetryable,
    /// The probe failed: close the trace, leave the document in `SENT`.
    CloseTrace { outcome_kind: TraceOutcomeKind, event: &'static str },
}

/// The action, the bucket counted when it succeeds, and the branch tag of
/// its failure, for one `SENT` probe outcome.
pub fn sent_probe_plan(outcome: &ProbeOutcome) -> (r: (SentProbeAction, HistogramBucket, &'static str))
    ensures
        match *outcome {
            ProbeOutcome::Match { .. } => r.0 == SentProbeAction::AdvanceToKvt1 && r.1
                == HistogramBucket::SentMatchToKvt1 && r.2@ == "c-sent-match"@,
            ProbeOutcome::Mismatch { .. } => r.0 == SentProbeAction::EscalateMismatch && r.1
                == HistogramBucket::SentMismatchToManual && r.2@ == "c-sent-mismatch"@,
            ProbeOutcome::NotFound => r.0 == SentProbeAction::ReturnToErrorRetryable && r.1
                == HistogramBucket::SentNotFoundToErrorRetryable && r.2@ == "c-sent-notfound"@,
            ProbeOutcome::TransportRetry { .. } => (r.0 matches SentProbeAction::CloseTrace {
                outcome_kind,
                event,
            } && outcome_kind == TraceOutcomeKind::RetryableTransport && event@
                == "LAST_CHK_TRANSPORT_RETRY"@) && r.1 == HistogramBucket::SentProbeFailureDeferred
                && r.2@ == "c-sent-probe-transport"@,
            ProbeOutcome::DecodeEscalate { .. } => (r.0 matches SentProbeAction::CloseTrace {
                outcome_kind,
                event,
            } && outcome_kind == TraceOutcomeKind::RetryableServer && event@
                == "LAST_CHK_DECODE_ESCALATE"@) && r.1 == HistogramBucket::SentProbeFailureDeferred
                && r.2@ == "c-sent-probe-decode"@,
        },
{
    match outcome {
        ProbeOutcome::Match { .. } => (
            SentProbeAction::AdvanceToKvt1,
            HistogramBucket::SentMatchToKvt1,
            "c-sent-match",
        ),
        ProbeOutcome::Mismatch { .. } => (
            SentProbeAction::EscalateMismatch,
            HistogramBucket::SentMismatchToManual,
            "c-sent-mismatch",
        ),
        ProbeOutcome::NotFound => (
            SentProbeAction::ReturnToErrorRetryable,
            HistogramBucket::SentNotFoundToErrorRetryable,
            "c-sent-notfound",
        ),
        ProbeOutcome::TransportRetry { .. } => (
            SentProbeAction::CloseTrace {
                outcome_kind: TraceOutcomeKind::RetryableTransport,
                event: "LAST_CHK_TRANSPORT_RETRY",
            },
            HistogramBucket::SentProbeFailureDeferred,
            "c-sent-probe-transport",
        ),
        ProbeOutcome::DecodeEscalate { .. } => (
            SentProbeAction::CloseTrace {
                outcome_kind: TraceOutcomeKind::RetryableServer,
                event: "LAST_CHK_DECODE_ESCALATE",
            },
            HistogramBucket::SentProbeFailureDeferred,
            "c-sent-probe-decode",
        ),
    }
}

// ─── ERROR_RETRYABLE by retry class ──────────────────────────────────

/// What the boot pass does with an `ERROR_RETRYABLE` document.
#[derive(Debug, Clone, Copy, PartialEq, Eq)]
pub enum ErBootAction {
    /// Send again.
    Redrive,
    /// Escalate to manual for an exhausted budget (`BOOT_ER_BUDGET_EXHAUSTED`,
    /// recorded under the `TransientRetry` class).
    EscalateBudget { attempts_used: i64 },
    /// Escalate to manual (`BOOT_ER_ESCALATED_TO_MANUAL`) with `severity`.
    EscalateToManual { class: RetryClass, severity: Severity },
    /// Keep the document and write a hold audit row.
    Hold { event: &'static str, severity: Severity, class_label: &'static str, rationale: &'static str },
}

/// The `rationale` of a `BOOT_ER_PROBE_DEFERRED` hold.
pub open spec fn probe_required_rationale() -> Seq<char> {
    "ProbeRequired retry_class \u{2014} submit-time last_chk reconciliation deferred to M5 generic SENDING reconciler (per PRRO_GATE-6bj M3a annotation); doc stays in ERROR_RETRYABLE"@
}

/// The `rationale` of a `BOOT_ER_RETRY_CLASS_INDETERMINATE` hold.
pub open spec fn indeterminate_rationale() -> Seq<char> {
    "ER doc has no durable retry_class (transport_trace row missing OR retry_class NULL/unknown); operator triage required; doc stays in ERROR_RETRYABLE"@
}

/// The action, the bucket counted when it succeeds, and the branch tag of
/// its failure, for a redrive decision.  For `Redrive` the count of a
/// completed send comes from [`redrive_send_step`].
pub fn er_boot_plan(decision: ErRedriveDecision) -> (r: (ErBootAction, HistogramBucket, &'static str))
    ensures
        match decision {
            ErRedriveDecision::Redrive => r.0 == ErBootAction::Redrive && r.1
                == HistogramBucket::ErrorRetryableDispatched && r.2@ == "c-error-retryable-transient"@,
            ErRedriveDecision::BudgetExhausted { attempts_used } => r.0 == (ErBootAction::EscalateBudget {
                attempts_used,
            }) && r.1 == HistogramBucket::ErrorRetryableBudgetExhausted && r.2@
                == "c-error-retryable-budget"@,
            ErRedriveDecision::EscalateManual { class } => r.0 == (ErBootAction::EscalateToManual {
                class,
                severity: Severity::Error,
            }) && r.1 == HistogramBucket::ErrorRetryableEscalatedToManual && r.2@
                == "c-error-retryable-escalate"@,
            ErRedriveDecision::EscalateInconsistent { class } => r.0 == (ErBootAction::EscalateToManual {
                class,
                severity: Severity::Critical,
            }) && r.1 == HistogramBucket::ErrorRetryableEscalatedToManual && r.2@
                == "c-error-retryable-terminal-inconsistent"@,
            ErRedriveDecision::HoldProbeRequired => (r.0 matches ErBootAction::Hold {
                event,
                severity,
                class_label,
                rationale,
            } && event@ == "BOOT_ER_PROBE_DEFERRED"@ && severity == Severity::Warning && class_label@
                == "ProbeRequired"@ && rationale@ == probe_required_rationale()) && r.1 == HistogramBucket::ErrorRetryableProbeDeferred && r.2@
                == "c-error-retryable-probe"@,
            ErRedriveDecision::HoldIndeterminate => (r.0 matches ErBootAction::Hold {
                event,
                severity,
                class_label,
                rationale,
            } && event@ == "BOOT_ER_RETRY_CLASS_INDETERMINATE"@ && severity == Severity::Error
                && class_label@ == "<none>"@ && rationale@ == indeterminate_rationale()) && r.1 == HistogramBucket::ErrorRetryableIndeterminateDeferred
                && r.2@ == "c-error-retryable-indeterminate"@,
        },
{
    match decision {
        ErRedriveDecision::Redrive => (
            ErBootAction::Redrive,
            HistogramBucket::ErrorRetryableDispatched,
            "c-error-retryable-transient",
        ),
        ErRedriveDecision::BudgetExhausted { attempts_used } => (
            ErBootAction::EscalateBudget { attempts_used },
            HistogramBucket::ErrorRetryableBudgetExhausted,
            "c-error-retryable-budget",
        ),
        ErRedriveDecision::EscalateManual { class } => (
            ErBootAction::EscalateToManual { class, severity: Severity::Error },
            HistogramBucket::ErrorRetryableEscalatedToManual,
            "c-error-retryable-escalate",
        ),
        ErRedriveDecision::EscalateInconsistent { class } => (
            ErBootAction::EscalateToManual { class, severity: Severity::Critical },
            HistogramBucket::ErrorRetryableEscalatedToManual,
            "c-error-retryable-terminal-inconsistent",
        ),
        ErRedriveDecision::HoldProbeRequired => (
            ErBootAction::Hold {
                event: "BOOT_ER_PROBE_DEFERRED",
                severity: Severity::Warning,
                class_label: "ProbeRequired",
                rationale: "ProbeRequired retry_class \u{2014} submit-time last_chk reconciliation deferred to M5 generic SENDING reconciler (per PRRO_GATE-6bj M3a annotation); doc stays in ERROR_RETRYABLE",
            },
            HistogramBucket::ErrorRetryableProbeDeferred,
            "c-error-retryable-probe",
        ),
        ErRedriveDecision::HoldIndeterminate => (
            ErBootAction::Hold {
                event: "BOOT_ER_RETRY_CLASS_INDETERMINATE",
                severity: Severity::Error,
                class_label: "<none>",
                rationale: "ER doc has no durable retry_class (transport_trace row missing OR retry_class NULL/unknown); operator triage required; doc stays in ERROR_RETRYABLE",
            },
            HistogramBucket::ErrorRetryableIndeterminateDeferred,
            "c-error-retryable-indeterminate",
        ),
    }
}

/// How a redriven `ERROR_RETRYABLE` document is counted after its send.
pub fn redrive_send_step(result: SendResult) -> (r: DispatchStep)
    ensures
        match result {
            SendResult::Completed { signer_refusal } => r == DispatchStep::Count(
                match signer_refusal {
                    Some(SignerRefusal::Mismatch) => HistogramBucket::SignerRefusedMismatch,
                    Some(SignerRefusal::StructuralBug) => HistogramBucket::SignerRefusedStructuralBug,
                    None => HistogramBucket::ErrorRetryableDispatched,
                },
            ),
            SendResult::Failed => is_error_step(r, "c-error-retryable-transient"@),
        },
{
    match result {
        SendResult::Completed { signer_refusal } => DispatchStep::Count(
            match signer_refusal {
                Some(SignerRefusal::Mismatch) => HistogramBucket::SignerRefusedMismatch,
                Some(SignerRefusal::StructuralBug) => HistogramBucket::SignerRefusedStructuralBug,
                None => HistogramBucket::ErrorRetryableDispatched,
            },
        ),
        SendResult::Failed => DispatchStep::Error("c-error-retryable-transient"),
    }
}

// ─── PREPARED replay drift ───────────────────────────────────────────

/// What a `PREPARED` document row holds that its replay depends on.
#[derive(Debug, Clone, PartialEq, Eq)]
pub struct PreparedDocSnapshot {
    pub fiscal_number: String,
    /// Wire name of the document type (`doc_type`).
    pub doc_type: String,
    pub payload_json: String,
    pub payload_sha256_canonical: [u8; 32],
    pub source_sha256: Option<[u8; 32]>,
}

/// What the matching ingress-inbox row holds.
#[derive(Debug, Clone, PartialEq, Eq)]
pub struct InboxSnapshot {
    pub fiscal_number: String,
    pub operation_type: String,
    pub payload_json: String,
    pub payload_sha256_canonical: [u8; 32],
}

/// Result of the replay drift check.
#[derive(Debug, Clone, Copy, PartialEq, Eq, Structural)]
pub struct ReplayDrift {
    /// The document and inbox rows disagree: hold the document.
    pub drift: bool,
    /// The payload texts differ (only checked outside the Z-class path).
    pub payload_json_mismatch: bool,
}

/// Whether a document type is Z-class (its payload is re-derived, so its
/// bytes legitimately differ from the inbox's).
pub open spec fn z_class(doc_type: Seq<char>) -> bool {
    doc_type == "Z_REPORT"@ || doc_type == "SHIFT_CLOSE"@
}

/// The drift verdict.  A Z-class document with a recorded source digest is
/// checked by digests: its source digest against the inbox's canonical
/// digest, and both stored canonical digests against a fresh SHA-256 of
/// their payloads.  Any other document is checked by canonical digest and
/// payload text.  Both paths also compare the fiscal number and the
/// document type against the inbox operation type.
pub open spec fn replay_drift_of(fd: PreparedDocSnapshot, inbox: InboxSnapshot) -> ReplayDrift {
    match fd.source_sha256 {
        Some(src) if z_class(fd.doc_type@) => ReplayDrift {
            drift: fd.fiscal_number@ != inbox.fiscal_number@ || src@ != inbox.payload_sha256_canonical@
                || fd.doc_type@ != inbox.operation_type@ || sha256_of(
                vstd::utf8::encode_utf8(fd.payload_json@),
            ) != fd.payload_sha256_canonical@ || sha256_of(vstd::utf8::encode_utf8(inbox.payload_json@))
                != inbox.payload_sha256_canonical@,
            payload_json_mismatch: false,
        },
        _ => {
            let pjm = fd.payload_json@ != inbox.payload_json@;
            ReplayDrift {
                drift: fd.fiscal_number@ != inbox.fiscal_number@ || fd.payload_sha256_canonical@
                    != inbox.payload_sha256_canonical@ || fd.doc_type@ != inbox.operation_type@ || pjm,
                payload_json_mismatch: pjm,
            }
        },
    }
}

fn digest_eq(a: &[u8; 32], b: &[u8; 32]) -> (r: bool)
    ensures
        r == (a@ == b@),
{
    let mut i: usize = 0;
    while i < 32
        invariant
            i <= 32,
            a@.len() == 32,
            b@.len() == 32,
            forall|k: int| 0 <= k < i ==> a@[k] == b@[k],
        decreases 32 - i,
    {
        if a[i] != b[i] {
            return false;
        }
        i = i + 1;
    }
    assert(a@ =~= b@);
    true
}

fn payload_digest(payload: &String) -> (r: [u8; 32])
    ensures
        r@ == sha256_of(vstd::utf8::encode_utf8(payload@)),
{
    sha256(payload.as_str().as_bytes())
}

/// The replay drift check of a `PREPARED` document against its inbox row
/// (see [`replay_drift_of`]).
pub fn replay_drift(fd: &PreparedDocSnapshot, inbox: &InboxSnapshot) -> (r: ReplayDrift)
    ensures
        r == replay_drift_of(*fd, *inbox),
{
    let z_report = "Z_REPORT".to_string();
    let shift_close = "SHIFT_CLOSE".to_string();
    let is_z = fd.doc_type.eq(&z_report) || fd.doc_type.eq(&shift_close);
    let same_fn = fd.fiscal_number.eq(&inbox.fiscal_number);
    let same_type = fd.doc_type.eq(&inbox.operation_type);
    match &fd.source_sha256 {
        Some(src) if is_z => {
            let drift = !same_fn || !digest_eq(src, &inbox.payload_sha256_canonical) || !same_type
                || !digest_eq(&payload_digest(&fd.payload_json), &fd.payload_sha256_canonical)
                || !digest_eq(&payload_digest(&inbox.payload_json), &inbox.payload_sha256_canonical);
            ReplayDrift { drift, payload_json_mismatch: false }
        },
        _ => {
            let pjm = !fd.payload_json.eq(&inbox.payload_json);
            let drift = !same_fn || !digest_eq(&fd.payload_sha256_canonical, &inbox.payload_sha256_canonical)
                || !same_type || pjm;
            ReplayDrift { drift, payload_json_mismatch: pjm }
        },
    }
}

/// How a drifted `PREPARED` document is held: it stays in `PREPARED`, one
/// audit row is written, and it is counted in `bucket`.
#[derive(Debug, Clone, Copy, PartialEq, Eq)]
pub struct DriftHold {
    pub event: &'static str,
    pub severity: Severity,
    pub branch: &'static str,
    pub rationale: &'static str,
    pub bucket: HistogramBucket,
}

/// The `rationale` of a `BOOT_PREPARED_REPLAY_DRIFT` audit row.
pub open spec fn replay_drift_rationale() -> Seq<char> {
    "fiscal_documents \u{2194} ingress_inbox drift (mismatch on fiscal_number / payload_sha256_canonical / doc_type vs operation_type / payload_json byte-equality); recovery holds doc in PREPARED \u{2014} operator triage required"@
}

/// The reaction to the replay drift check of a `PREPARED` document: on
/// drift, hold it with a `Critical` `BOOT_PREPARED_REPLAY_DRIFT` row
/// (branch `c-prepared-replay-drift`) counted in
/// `prepared_replay_drift_deferred`; without drift, `None`: go on to sign.
pub fn prepared_drift_reaction(check: ReplayDrift) -> (r: Option<DriftHold>)
    ensures
        !check.drift ==> r is None,
        check.drift ==> (r matches Some(h) && h.event@ == "BOOT_PREPARED_REPLAY_DRIFT"@ && h.severity
            == Severity::Critical && h.branch@ == "c-prepared-replay-drift"@ && h.rationale@
            == replay_drift_rationale() && h.bucket == HistogramBucket::PreparedReplayDriftDeferred),
{
    if check.drift {
        Some(
            DriftHold {
                event: "BOOT_PREPARED_REPLAY_DRIFT",
                severity: Severity::Critical,
                branch: "c-prepared-replay-drift",
                rationale: "fiscal_documents \u{2194} ingress_inbox drift (mismatch on fiscal_number / payload_sha256_canonical / doc_type vs operation_type / payload_json byte-equality); recovery holds doc in PREPARED \u{2014} operator triage required",
                bucket: HistogramBucket::PreparedReplayDriftDeferred,
            },
        )
    } else {
        None
    }
}

// ─── KVT1 hold age ───────────────────────────────────────────────────

/// Age in whole seconds from `earlier` to `later`, clamped at zero below
/// (clock skew) and at `i64::MAX` above.
pub open spec fn whole_seconds_between(later: UtcInstant, earlier: UtcInstant) -> int {
    let diff_nanos = (later.secs - earlier.secs) * 1_000_000_000 + (later.nanos - earlier.nanos);
    if diff_nanos <= 0 {
        0
    } else if diff_nanos / 1_000_000_000 > i64::MAX {
        i64::MAX as int
    } else {
        diff_nanos / 1_000_000_000
    }
}

/// The severity of a KVT1 hold of `age` seconds: `Info` under an hour,
/// `Warning` under a day, `Error` from a day on.
pub open spec fn kvt1_age_severity(age: int) -> Severity {
    if age >= 86_400 {
        Severity::Error
    } else if age >= 3_600 {
        Severity::Warning
    } else {
        Severity::Info
    }
}

/// The instant `first_kvt1_at` denotes: the SQLite form first, RFC 3339
/// as the fallback.
pub open spec fn kvt1_instant_of(first_kvt1_at: Seq<char>) -> Option<(i64, u32)> {
    match sqlite_utc_of(first_kvt1_at) {
        Some(t) => Some(t),
        None => rfc3339_utc_of(first_kvt1_at),
    }
}

/// Age and severity of a document held in `KVT1` since `first_kvt1_at`, at
/// `now`; `(0, Info)` when the timestamp cannot be read.
pub fn kvt1_age_and_severity(first_kvt1_at: &str, now: UtcInstant) -> (r: (i64, Severity))
    ensures
        match kvt1_instant_of(first_kvt1_at@) {
            None => r == (0i64, Severity::Info),
            Some((secs, nanos)) => r.0 == whole_seconds_between(now, UtcInstant { secs, nanos })
                && r.1 == kvt1_age_severity(r.0 as int),
        },
{
    let parsed = match parse_sqlite_utc(first_kvt1_at) {
        Some(t) => Some(t),
        None => parse_rfc3339_utc(first_kvt1_at),
    };
    let kvt1_at = match parsed {
        Some(t) => t,
        None => {
            return (0, Severity::Info);
        },
    };
    let diff_nanos: i128 = (now.secs as i128 - kvt1_at.secs as i128) * 1_000_000_000i128 + (now.nanos as i128
        - kvt1_at.nanos as i128);
    let age: i64 = if diff_nanos <= 0 {
        0
    } else if diff_nanos / 1_000_000_000i128 > i64::MAX as i128 {
        i64::MAX
    } else {
        (diff_nanos / 1_000_000_000i128) as i64
    };
    let severity = if age >= 86_400 {
        Severity::Error
    } else if age >= 3_600 {
        Severity::Warning
    } else {
        Severity::Info
    };
    (age, severity)
}

// ─── Orphan transport traces ─────────────────────────────────────────

/// The SQLite `datetime('now', ..)` modifier that selects traces started
/// more than `ttl_secs` seconds ago: `-{ttl_secs} seconds`.
pub fn orphan_age_modifier(ttl_secs: i64) -> (r: String)
    ensures
        r@ == seq!['-'] + int_decimal(ttl_secs as int) + " seconds"@,
{
    proof {
        reveal_strlit("-");
    }
    let s = concat("-".to_string(), i64_decimal(ttl_secs).as_str());
    assert(s@ =~= seq!['-'] + int_decimal(ttl_secs as int));
    concat(s, " seconds")
}

/// The document id of an orphan trace row: `None` when the stored id is
/// not 16 bytes long (the scan then stops with an error).
pub fn orphan_trace_doc_id(bytes: &[u8]) -> (r: Option<DocumentId>)
    ensures
        r is Some <==> bytes@.len() == 16,
        r matches Some(id) ==> id.bytes@ == bytes@,
{
    if bytes.len() != 16 {
        None
    } else {
        let arr: [u8; 16] = [
            bytes[0], bytes[1], bytes[2], bytes[3], bytes[4], bytes[5], bytes[6], bytes[7],
            bytes[8], bytes[9], bytes[10], bytes[11], bytes[12], bytes[13], bytes[14], bytes[15],
        ];
        assert(arr@ =~= bytes@);
        Some(DocumentId::from_bytes(arr))
    }
}

/// How a closed orphan trace is recorded: the outcome written on the
/// trace row and the audit row that goes with it.
pub struct OrphanClose {
    pub outcome_kind: &'static str,
    pub error_kind: &'static str,
    pub error_message: &'static str,
    pub event: &'static str,
    pub severity: Severity,
    pub reason: &'static str,
}

/// The record of a closed orphan trace: `SYSTEM_CRASH` /
/// `ORPHANED_AT_BOOT_RECOVERY` on the row, an `Info`
/// `TRANSPORT_TRACE_ORPHAN_CLOSED` audit row.
pub fn orphan_close() -> (r: OrphanClose)
    ensures
        r.outcome_kind@ == "SYSTEM_CRASH"@,
        r.error_kind@ == "ORPHANED_AT_BOOT_RECOVERY"@,
        r.error_message@ == "Process exited mid-wire-call; no outcome captured"@,
        r.event@ == "TRANSPORT_TRACE_ORPHAN_CLOSED"@,
        r.severity == Severity::Info,
        r.reason@ == "Process exited mid-wire-call; no outcome captured (boot scanner)"@,
{
    OrphanClose {
        outcome_kind: "SYSTEM_CRASH",
        error_kind: "ORPHANED_AT_BOOT_RECOVERY",
        error_message: "Process exited mid-wire-call; no outcome captured",
        event: "TRANSPORT_TRACE_ORPHAN_CLOSED",
        severity: Severity::Info,
        reason: "Process exited mid-wire-call; no outcome captured (boot scanner)",
    }
}

// ─── Absorbed dispatch errors ────────────────────────────────────────

/// The audit row of a per-document dispatch failure that the boot pass
/// absorbs: the document stays in its source state.
pub struct DispatchErrorAudit {
    pub entity_type: &'static str,
    pub event: &'static str,
    pub severity: Severity,
    pub rationale: &'static str,
}

/// Count an absorbed dispatch failure in `dispatch_errors` and give the
/// `Warning` `BOOT_DISPATCH_ERROR` row to write for it.
pub fn record_dispatch_error(histogram: &mut DispatchHistogram) -> (r: DispatchErrorAudit)
    requires
        old(histogram).dispatch_errors < usize::MAX,
    ensures
        *final(histogram) == bumped(*old(histogram), HistogramBucket::DispatchErrors),
        r.entity_type@ == "fiscal_document"@,
        r.event@ == "BOOT_DISPATCH_ERROR"@,
        r.severity == Severity::Warning,
        r.rationale@ == "per-doc helper failure absorbed by try-and-audit shim; doc stays in source state"@,
{
    histogram.bump(HistogramBucket::DispatchErrors);
    DispatchErrorAudit {
        entity_type: "fiscal_document",
        event: "BOOT_DISPATCH_ERROR",
        severity: Severity::Warning,
        rationale: "per-doc helper failure absorbed by try-and-audit shim; doc stays in source state",
    }
}

/// Whether a node-state row exists and holds mode `m`.
pub open spec fn row_mode_is(row: Option<(NodeMode, ShiftState)>, m: NodeMode) -> bool {
    match row {
        Some((mode, _)) => mode == m,
        None => false,
    }
}

/// A node held in `Blocked`, `StopMode` or `CryptoDegraded` keeps its mode
/// through boot, whatever its shift state and pending set: the plan is the
/// matching preserve plan, so no document of such a node is dispatched and
/// no shift of it is touched.  Conversely a preserve plan comes only from
/// that mode, and pending documents are dispatched only on a node that is
/// `Online`, `Offline` or `GoingOffline`.
pub proof fn boot_preserves_held_modes(row: Option<(NodeMode, ShiftState)>, has_pending: bool)
    ensures
        row_mode_is(row, NodeMode::Blocked) ==> boot_plan_of(row, has_pending)
            == BootPlan::PreserveBlocked,
        row_mode_is(row, NodeMode::StopMode) ==> boot_plan_of(row, has_pending)
            == BootPlan::PreserveStopMode,
        row_mode_is(row, NodeMode::CryptoDegraded) ==> boot_plan_of(row, has_pending)
            == BootPlan::PreserveCryptoDegraded,
        boot_plan_of(row, has_pending) == BootPlan::PreserveBlocked ==> row_mode_is(row, NodeMode::Blocked),
        boot_plan_of(row, has_pending) == BootPlan::PreserveStopMode ==> row_mode_is(row, NodeMode::StopMode),
        boot_plan_of(row, has_pending) == BootPlan::PreserveCryptoDegraded ==> row_mode_is(row, NodeMode::CryptoDegraded),
        boot_plan_of(row, has_pending) is DispatchPending ==> (has_pending && (row_mode_is(row, NodeMode::Online) || row_mode_is(row, NodeMode::Offline)
            || row_mode_is(row, NodeMode::GoingOffline))),
{
}

/// The states that need a runtime context (DPS channel and signing
/// context) to be dispatched.
pub open spec fn context_needy(state: DocState) -> bool {
    state == DocState::Prepared || state == DocState::Signed || state == DocState::Sent || state
        == DocState::ErrorRetryable
}

/// How the pending pass treats a document: `SENDING`, `KVT1`, `ENCRYPTED`
/// and `KVT2` are handled the same with or without runtime context, and a
/// `SENDING` document is never sent again; a context-needy document is
/// deferred exactly when the context is missing, each state into a bucket
/// of its own; a terminal or local-ack document on the pending list is a
/// contract violation, never dispatched.
pub proof fn pending_route_needs_context(state: DocState, deps_available: bool)
    ensures
        !context_needy(state) ==> pending_doc_route_of(state, deps_available) == pending_doc_route_of(
            state,
            !deps_available,
        ),
        state == DocState::Sending ==> pending_doc_route_of(state, deps_available)
            == PendingDocRoute::ResumeSending,
        context_needy(state) ==> ((pending_doc_route_of(state, deps_available) is DeferNoContext)
            <==> !deps_available),
        (pending_doc_route_of(state, deps_available) is DeferNoContext) ==> context_needy(state),
        pending_doc_route_of(state, false) matches PendingDocRoute::DeferNoContext { bucket } ==> bucket
            == (if state == DocState::Prepared {
            HistogramBucket::PreparedDeferred
        } else if state == DocState::Signed {
            HistogramBucket::SignedDeferred
        } else if state == DocState::Sent {
            HistogramBucket::SentDeferred
        } else {
            HistogramBucket::ErrorRetryableDeferred
        }),
        (pending_doc_route_of(state, deps_available) == PendingDocRoute::ContractViolation) <==> (state
            == DocState::Ack || state == DocState::Rejected || state == DocState::Cancelled || state
            == DocState::OfflineLocalAck || state == DocState::RequiresManualReconciliation),
{
}

} // verus!
