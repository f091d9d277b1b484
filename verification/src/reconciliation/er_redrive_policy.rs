//! Redrive policy for `ERROR_RETRYABLE` documents.
//!
//! The decision rests on the durable retry class of the document's last
//! transport attempt and, for the two retryable classes, on how many
//! attempts the document has used against that class's budget.
use vstd::prelude::*;

use crate::model::RetryClass;

verus! {

/// Attempt budget of a `TransientRetry` document across boot ticks.
pub const MAX_BOOT_ATTEMPTS: i64 = 5;

/// Attempt budget of a `DrainChainSettleRetry` document: a chain-settle
/// wait, given a longer runway than a transient failure.
pub const MAX_DRAIN_CHAIN_SETTLE_ATTEMPTS: i64 = 18;

/// What to do with one `ERROR_RETRYABLE` document.
#[derive(Debug, Clone, Copy, PartialEq, Eq, Structural)]
pub enum ErRedriveDecision {
    /// Send again.
    Redrive,
    /// The class's attempt budget is used up: escalate to manual.
    BudgetExhausted { attempts_used: i64 },
    /// A class that no retry can fix: escalate to manual.
    EscalateManual { class: RetryClass },
    /// `TerminalReject` should never rest in `ERROR_RETRYABLE`: escalate
    /// as a structural inconsistency.
    EscalateInconsistent { class: RetryClass },
    /// `ProbeRequired`: hold for the submit-time `last_chk` reconciler.
    HoldProbeRequired,
    /// No durable retry class: hold for operator triage.
    HoldIndeterminate,
}

/// The attempt budget that applies to a retry class, if any.
pub open spec fn attempt_budget_of(class: Option<RetryClass>) -> Option<i64> {
    match class {
        Some(RetryClass::TransientRetry) => Some(MAX_BOOT_ATTEMPTS),
        Some(RetryClass::DrainChainSettleRetry) => Some(MAX_DRAIN_CHAIN_SETTLE_ATTEMPTS),
        _ => None,
    }
}

/// The attempt budget for `class`: `Some` exactly for the two retryable
/// classes, whose decision also needs the attempts used.
pub fn attempt_budget(class: Option<RetryClass>) -> (r: Option<i64>)
    ensures
        r == attempt_budget_of(class),
{
    match class {
        Some(RetryClass::TransientRetry) => Some(MAX_BOOT_ATTEMPTS),
        Some(RetryClass::DrainChainSettleRetry) => Some(MAX_DRAIN_CHAIN_SETTLE_ATTEMPTS),
        _ => None,
    }
}

/// The redrive decision for a document whose last attempt carries `class`
/// (`None`: no trace row, or no known class) and which has used
/// `attempts_used` attempts (read only for the retryable classes).
pub open spec fn er_redrive_decision_of(class: Option<RetryClass>, attempts_used: i64) -> ErRedriveDecision {
    match class {
        Some(RetryClass::TransientRetry) => if attempts_used >= MAX_BOOT_ATTEMPTS {
            ErRedriveDecision::BudgetExhausted { attempts_used }
        } else {
            ErRedriveDecision::Redrive
        },
        Some(RetryClass::DrainChainSettleRetry) => if attempts_used >= MAX_DRAIN_CHAIN_SETTLE_ATTEMPTS {
            ErRedriveDecision::BudgetExhausted { attempts_used }
        } else {
            ErRedriveDecision::Redrive
        },
        Some(RetryClass::FnConfigError) => ErRedriveDecision::EscalateManual {
            class: RetryClass::FnConfigError,
        },
        Some(RetryClass::WrapperBug) => ErRedriveDecision::EscalateManual { class: RetryClass::WrapperBug },
        Some(RetryClass::OperatorEscalation) => ErRedriveDecision::EscalateManual {
            class: RetryClass::OperatorEscalation,
        },
        Some(RetryClass::MacRecovery) => ErRedriveDecision::EscalateManual { class: RetryClass::MacRecovery },
        Some(RetryClass::TerminalReject) => ErRedriveDecision::EscalateInconsistent {
            class: RetryClass::TerminalReject,
        },
        Some(RetryClass::ProbeRequired) => ErRedriveDecision::HoldProbeRequired,
        None => ErRedriveDecision::HoldIndeterminate,
    }
}

/// The redrive decision (see [`er_redrive_decision_of`]).
pub fn er_redrive_decision(class: Option<RetryClass>, attempts_used: i64) -> (r: ErRedriveDecision)
    ensures
        r == er_redrive_decision_of(class, attempts_used),
{
    match class {
        Some(RetryClass::TransientRetry) => {
            if attempts_used >= MAX_BOOT_ATTEMPTS {
                ErRedriveDecision::BudgetExhausted { attempts_used }
            } else {
                ErRedriveDecision::Redrive
            }
        },
        Some(RetryClass::DrainChainSettleRetry) => {
            if attempts_used >= MAX_DRAIN_CHAIN_SETTLE_ATTEMPTS {
                ErRedriveDecision::BudgetExhausted { attempts_used }
            } else {
                ErRedriveDecision::Redrive
            }
        },
        Some(rc) => match rc {
            RetryClass::FnConfigError | RetryClass::WrapperBug | RetryClass::OperatorEscalation
            | RetryClass::MacRecovery => ErRedriveDecision::EscalateManual { class: rc },
            RetryClass::TerminalReject => ErRedriveDecision::EscalateInconsistent {
                class: RetryClass::TerminalReject,
            },
            _ => ErRedriveDecision::HoldProbeRequired,
        },
        None => ErRedriveDecision::HoldIndeterminate,
    }
}

/// A document is redriven only while its class has a budget and the
/// attempts used stay below it; every budgeted class ends, once the budget
/// is reached, in `BudgetExhausted` carrying the attempts used.
pub proof fn redrive_only_within_budget(class: Option<RetryClass>, attempts_used: i64)
    ensures
        er_redrive_decision_of(class, attempts_used) == ErRedriveDecision::Redrive <==> (
        attempt_budget_of(class) is Some && attempts_used < attempt_budget_of(class)->0),
        (attempt_budget_of(class) is Some && attempts_used >= attempt_budget_of(class)->0)
            ==> er_redrive_decision_of(class, attempts_used) == (ErRedriveDecision::BudgetExhausted {
            attempts_used,
        }),
        attempt_budget_of(class) is None ==> er_redrive_decision_of(class, attempts_used)
            == er_redrive_decision_of(class, 0),
{
}

/// The retry classes an operator has to act on: configuration, wrapper,
/// explicit-escalation and MAC-recovery failures.
pub open spec fn operator_actionable(c: RetryClass) -> bool {
    c == RetryClass::FnConfigError || c == RetryClass::WrapperBug || c == RetryClass::OperatorEscalation
        || c == RetryClass::MacRecovery
}

/// What each kind of class leads to, whatever the attempts used: an
/// operator-actionable class always escalates to manual reconciliation
/// under its own class, and only such a class does; only `ProbeRequired`
/// is held for the `last_chk` reconciler; only a missing class is held as
/// indeterminate; only `TerminalReject` escalates as inconsistent; and the
/// two budgeted classes are never held or escalated before their budget of
/// 5 (transient) or 18 (chain-settle) attempts is used.
pub proof fn redrive_decision_by_class(class: Option<RetryClass>, attempts_used: i64)
    ensures
        (class matches Some(c) && operator_actionable(c)) ==> er_redrive_decision_of(class, attempts_used)
            == (ErRedriveDecision::EscalateManual { class: class->0 }),
        er_redrive_decision_of(class, attempts_used) is EscalateManual ==> (class matches Some(c)
            && operator_actionable(c)),
        (er_redrive_decision_of(class, attempts_used) == ErRedriveDecision::HoldProbeRequired) <==> class
            == Some(RetryClass::ProbeRequired),
        (er_redrive_decision_of(class, attempts_used) == ErRedriveDecision::HoldIndeterminate) <==> class
            is None,
        (er_redrive_decision_of(class, attempts_used) is EscalateInconsistent) <==> class == Some(
            RetryClass::TerminalReject,
        ),
        class == Some(RetryClass::TransientRetry) ==> (er_redrive_decision_of(class, attempts_used)
            == ErRedriveDecision::Redrive <==> attempts_used < 5),
        class == Some(RetryClass::DrainChainSettleRetry) ==> (er_redrive_decision_of(class, attempts_used)
            == ErRedriveDecision::Redrive <==> attempts_used < 18),
{
}

} // verus!
