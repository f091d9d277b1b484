//! Boot pass over delivery reservations: resume crashed calls, apply
//! recorded outcomes, and reconstruct lost node state for the FNs that
//! still hold a live reservation.
use vstd::prelude::*;

verus! {

/// Counts of one boot reservation pass.
#[derive(Debug, Clone, Copy, PartialEq, Eq, Structural)]
pub struct ReservationBootSummary {
    /// Crashed `CALL_STARTED` reservations resumed.
    pub normalized: u64,
    /// Recorded outcomes applied.
    pub applied: u64,
    /// Recorded outcomes held for the operator.
    pub held: u64,
    /// FNs whose lost node state was reconstructed.
    pub reconstructed: u64,
    /// Recorded outcomes resolved without being applied.
    pub dropped: u64,
}

/// Number of reservations (and FNs) the pass acted on.
pub open spec fn boot_pass_total(s: ReservationBootSummary) -> int {
    s.normalized + s.applied + s.held + s.reconstructed + s.dropped
}

impl Default for ReservationBootSummary {
    /// The all-zero summary.
    fn default() -> (s: ReservationBootSummary)
        ensures
            boot_pass_total(s) == 0,
            s.normalized == 0 && s.applied == 0 && s.held == 0 && s.reconstructed == 0 && s.dropped == 0,
    {
        ReservationBootSummary { normalized: 0, applied: 0, held: 0, reconstructed: 0, dropped: 0 }
    }
}

impl ReservationBootSummary {
    /// Whether the pass did anything at all.
    pub fn is_active(&self) -> (r: bool)
        requires
            boot_pass_total(*self) <= u64::MAX,
        ensures
            r == (boot_pass_total(*self) > 0),
    {
        self.normalized + self.applied + self.held + self.reconstructed + self.dropped > 0
    }
}

/// Kind of a failed attempt to apply a recorded outcome.
#[derive(Debug, Clone, Copy, PartialEq, Eq, Structural)]
pub enum ApplyErrorKind {
    /// The outcome is held for the operator: not a boot error.
    HeldNotAutoRelease,
    /// The FN's node state is missing: defer to reconstruction.
    NodeStateMissing,
    /// Anything else: fatal to the pass.
    Other,
}

/// Classified result of applying one recorded outcome.
#[derive(Debug, Clone, Copy, PartialEq, Eq, Structural)]
pub enum ApplyClass {
    /// Resolved; `applied` tells whether the outcome was applied.
    Resolved { applied: bool },
    Held,
    NodeMissing,
    Fatal,
}

/// Classify an apply attempt: `Ok(applied)` or the error's kind.
pub fn classify_apply(result: Result<bool, ApplyErrorKind>) -> (r: ApplyClass)
    ensures
        r == (match result {
            Ok(applied) => ApplyClass::Resolved { applied },
            Err(ApplyErrorKind::HeldNotAutoRelease) => ApplyClass::Held,
            Err(ApplyErrorKind::NodeStateMissing) => ApplyClass::NodeMissing,
            Err(ApplyErrorKind::Other) => ApplyClass::Fatal,
        }),
{
    match result {
        Ok(applied) => ApplyClass::Resolved { applied },
        Err(ApplyErrorKind::HeldNotAutoRelease) => ApplyClass::Held,
        Err(ApplyErrorKind::NodeStateMissing) => ApplyClass::NodeMissing,
        Err(ApplyErrorKind::Other) => ApplyClass::Fatal,
    }
}

/// What the pass does after classifying one apply attempt.
#[derive(Debug, Clone, Copy, PartialEq, Eq, Structural)]
pub enum ApplyStep {
    /// Counted; go on with the next reservation.
    Counted,
    /// Defer the FN to node-state reconstruction.
    DeferFn,
    /// Abort the pass with the error.
    Abort,
}

/// `s` after one classified apply attempt.
pub open spec fn apply_recorded(s: ReservationBootSummary, class: ApplyClass) -> ReservationBootSummary {
    match class {
        ApplyClass::Resolved { applied } => if applied {
            ReservationBootSummary { applied: (s.applied + 1) as u64, ..s }
        } else {
            ReservationBootSummary { dropped: (s.dropped + 1) as u64, ..s }
        },
        ApplyClass::Held => ReservationBootSummary { held: (s.held + 1) as u64, ..s },
        _ => s,
    }
}

impl ReservationBootSummary {
    /// Count one classified apply attempt and say how the pass goes on.
    pub fn record_apply(&mut self, class: ApplyClass) -> (r: ApplyStep)
        requires
            boot_pass_total(*old(self)) < u64::MAX,
        ensures
            *final(self) == apply_recorded(*old(self), class),
            r == (match class {
                ApplyClass::Resolved { .. } | ApplyClass::Held => ApplyStep::Counted,
                ApplyClass::NodeMissing => ApplyStep::DeferFn,
                ApplyClass::Fatal => ApplyStep::Abort,
            }),
    {
        match class {
            ApplyClass::Resolved { applied } => {
                if applied {
                    self.applied = self.applied + 1;
                } else {
                    self.dropped = self.dropped + 1;
                }
                ApplyStep::Counted
            },
            ApplyClass::Held => {
                self.held = self.held + 1;
                ApplyStep::Counted
            },
            ApplyClass::NodeMissing => ApplyStep::DeferFn,
            ApplyClass::Fatal => ApplyStep::Abort,
        }
    }

    /// Count a resumed crashed reservation (`converted`: the resume applied).
    pub fn record_normalized(&mut self, converted: bool)
        requires
            boot_pass_total(*old(self)) < u64::MAX,
        ensures
            *final(self) == (if converted {
                ReservationBootSummary { normalized: (old(self).normalized + 1) as u64, ..*old(self) }
            } else {
                *old(self)
            }),
    {
        if converted {
            self.normalized = self.normalized + 1;
        }
    }

    /// Count a reconstructed FN (`reconstructed`: the node state was rebuilt).
    pub fn record_reconstructed(&mut self, reconstructed: bool)
        requires
            boot_pass_total(*old(self)) < u64::MAX,
        ensures
            *final(self) == (if reconstructed {
                ReservationBootSummary { reconstructed: (old(self).reconstructed + 1) as u64, ..*old(self) }
            } else {
                *old(self)
            }),
    {
        if reconstructed {
            self.reconstructed = self.reconstructed + 1;
        }
    }
}

/// A resolved or held outcome always makes the pass active; a deferral or
/// an abort counts nothing.
pub proof fn counted_apply_activates_pass(s: ReservationBootSummary, class: ApplyClass)
    requires
        boot_pass_total(s) < u64::MAX,
    ensures
        (class is Resolved || class is Held) ==> boot_pass_total(apply_recorded(s, class)) == boot_pass_total(s) + 1,
        (class is NodeMissing || class is Fatal) ==> apply_recorded(s, class) == s,
{
}

} // verus!
