use prro::model::{DocState, DocumentId, RetryClass, Severity};
use prro::offline_sync::backlog_drain::{
    apply_drain_verdict, backlog_plan, drain_doc_route, drain_er_action, finalize_shift_target,
    unexpected_state_message, BacklogPlan, DrainErAction, DrainRoute, DrainStep, FinalizeEntry,
};
use prro::model::{OfflineSessionState, ShiftState};
use prro::reconciliation::er_redrive_policy::ErRedriveDecision;
use prro::offline_sync::backlog_drain::{
    DocVerdict, DrainSummary, FailureClass, FinalizeEligibility, FinalizeError, HoldFnDrainProjection,
    NotEligibleReason, W12ConfirmOutcome,
};

const FN: &str = "1234567890";

fn doc() -> DocumentId {
    DocumentId::from_bytes([7u8; 16])
}

fn summary_with_size(backlog_size: usize) -> DrainSummary {
    DrainSummary::new(FN.to_string(), backlog_size)
}

#[test]
fn record_doc_held_at_kvt1_increments_counter() {
    let mut s = summary_with_size(3);
    assert_eq!(s.held_at_kvt1(), 0);
    s.record_doc_held_at_kvt1(doc(), "wire_routing_probe_required".into());
    assert_eq!(s.held_at_kvt1(), 1);
    assert_eq!(s.held_at_sent(), 0);
    assert_eq!(s.er_redrive_queued(), 0);
}

#[test]
fn record_doc_held_at_sent_increments_counter() {
    let mut s = summary_with_size(3);
    s.record_doc_held_at_sent(doc(), "transport".into());
    assert_eq!(s.held_at_sent(), 1);
    assert_eq!(s.held_at_kvt1(), 0);
    assert_eq!(s.er_redrive_queued(), 0);
}

#[test]
fn record_doc_er_redrive_queued_increments_counter() {
    let mut s = summary_with_size(3);
    s.record_doc_er_redrive_queued(doc(), "sent_not_found_downgrade".into());
    assert_eq!(s.er_redrive_queued(), 1);
    assert_eq!(s.held_at_kvt1(), 0);
    assert_eq!(s.held_at_sent(), 0);
}

#[test]
fn held_at_kvt1_blocks_finalize_with_docs_held_at_kvt1() {
    let mut s = summary_with_size(1);
    s.record_doc_held_at_kvt1(doc(), "transport".into());
    match s.finalize_eligibility() {
        FinalizeEligibility::NotEligible {
            reason: NotEligibleReason::DocsHeldAtKvt1 { count },
        } => assert_eq!(count, 1),
        other => panic!("expected DocsHeldAtKvt1, got {other:?}"),
    }
}

#[test]
fn held_at_sent_blocks_finalize_with_docs_held_at_sent() {
    let mut s = summary_with_size(1);
    s.record_doc_held_at_sent(doc(), "transport".into());
    assert!(matches!(
        s.finalize_eligibility(),
        FinalizeEligibility::NotEligible {
            reason: NotEligibleReason::DocsHeldAtSent { count: 1 },
        }
    ));
}

#[test]
fn er_redrive_queued_blocks_finalize_with_docs_er_redrive_queued() {
    let mut s = summary_with_size(1);
    s.record_doc_er_redrive_queued(doc(), "sent_not_found_downgrade".into());
    assert!(matches!(
        s.finalize_eligibility(),
        FinalizeEligibility::NotEligible {
            reason: NotEligibleReason::DocsErRedriveQueued { count: 1 },
        }
    ));
}

#[test]
fn per_doc_failure_takes_precedence_over_w12_counters() {
    let mut s = summary_with_size(3);
    s.record_doc_failure(doc(), "transport".into());
    s.record_doc_held_at_kvt1(doc(), "transport".into());
    s.record_doc_held_at_sent(doc(), "transport".into());
    s.record_doc_er_redrive_queued(doc(), "sent_not_found_downgrade".into());
    assert!(matches!(
        s.finalize_eligibility(),
        FinalizeEligibility::NotEligible {
            reason: NotEligibleReason::PerDocFailuresPresent { count: 1 },
        }
    ));
}

#[test]
fn held_at_kvt1_takes_precedence_over_held_at_sent_and_er_redrive() {
    let mut s = summary_with_size(3);
    s.record_doc_held_at_kvt1(doc(), "transport".into());
    s.record_doc_held_at_sent(doc(), "transport".into());
    s.record_doc_er_redrive_queued(doc(), "sent_not_found_downgrade".into());
    assert!(matches!(
        s.finalize_eligibility(),
        FinalizeEligibility::NotEligible {
            reason: NotEligibleReason::DocsHeldAtKvt1 { count: 1 },
        }
    ));
}

#[test]
fn held_at_sent_takes_precedence_over_er_redrive_queued() {
    let mut s = summary_with_size(2);
    s.record_doc_held_at_sent(doc(), "transport".into());
    s.record_doc_er_redrive_queued(doc(), "sent_not_found_downgrade".into());
    assert!(matches!(
        s.finalize_eligibility(),
        FinalizeEligibility::NotEligible {
            reason: NotEligibleReason::DocsHeldAtSent { count: 1 },
        }
    ));
}

#[test]
fn w12_counters_take_precedence_over_legacy_deferred_at_kvt1() {
    let mut s = summary_with_size(2);
    s.record_doc_advanced(&W12ConfirmOutcome::DeferredKvt1, false);
    s.record_doc_er_redrive_queued(doc(), "sent_not_found_downgrade".into());
    assert!(matches!(
        s.finalize_eligibility(),
        FinalizeEligibility::NotEligible {
            reason: NotEligibleReason::DocsErRedriveQueued { count: 1 },
        }
    ));
}

#[test]
fn eligible_only_when_all_w12_counters_zero_and_acked_complete() {
    let mut s = summary_with_size(1);
    s.record_doc_advanced(
        &W12ConfirmOutcome::Acked {
            server_fiscal_no: "FN-001".into(),
        },
        false,
    );
    assert_eq!(s.held_at_kvt1(), 0);
    assert_eq!(s.held_at_sent(), 0);
    assert_eq!(s.er_redrive_queued(), 0);
    assert_eq!(s.advanced_to_ack(), 1);
    assert_eq!(s.advanced_to_kvt1(), 0);
    assert!(matches!(s.finalize_eligibility(), FinalizeEligibility::Eligible));
}

#[test]
fn hold_fn_drain_variant_constructible_per_projection() {
    let v_kvt1 = DocVerdict::HoldFnDrain {
        class: FailureClass::WireRoutingProbeRequired,
        projection: HoldFnDrainProjection::HeldAtKvt1,
        consecutive_holds: 0,
    };
    let v_sent = DocVerdict::HoldFnDrain {
        class: FailureClass::Transport,
        projection: HoldFnDrainProjection::HeldAtSent,
        consecutive_holds: 0,
    };
    let v_er = DocVerdict::HoldFnDrain {
        class: FailureClass::BudgetExhausted,
        projection: HoldFnDrainProjection::ErRedriveQueued,
        consecutive_holds: 0,
    };
    for v in [v_kvt1, v_sent, v_er] {
        match v {
            DocVerdict::HoldFnDrain { projection, .. } => {
                let _ = projection;
            }
            DocVerdict::Advanced | DocVerdict::Failed { .. } | DocVerdict::SupersededHeld => {
                panic!("unexpected non-HoldFnDrain variant")
            }
        }
    }
}

#[test]
fn mark_finalized_sets_flag_only_when_eligible() {
    let mut s = summary_with_size(1);
    assert_eq!(
        s.mark_finalized(),
        Err(FinalizeError::NotEligible(NotEligibleReason::AckCountMismatch { expected: 1, actual: 0 }))
    );
    assert!(!s.finalized());
    s.record_doc_advanced(&W12ConfirmOutcome::Acked { server_fiscal_no: "X".into() }, true);
    assert_eq!(s.advanced_via_lastchk_replay(), 1);
    assert_eq!(s.mark_finalized(), Ok(()));
    assert!(s.finalized());
    assert_eq!(s.fiscal_number(), FN);
    assert_eq!(s.backlog_size_before(), 1);
}

#[test]
fn recorded_failure_keeps_document_and_class() {
    let mut s = summary_with_size(2);
    s.record_doc_failure(doc(), "state_conflict".into());
    assert_eq!(s.per_doc_failures().len(), 1);
    assert_eq!(s.per_doc_failures()[0].0, doc());
    assert_eq!(s.per_doc_failures()[0].1, "state_conflict");
}

#[test]
fn deferred_kvt1_blocks_finalize_when_nothing_else_does() {
    let mut s = summary_with_size(1);
    s.record_doc_advanced(&W12ConfirmOutcome::DeferredKvt1, false);
    assert!(matches!(
        s.finalize_eligibility(),
        FinalizeEligibility::NotEligible {
            reason: NotEligibleReason::DocsDeferredAtKvt1 { count: 1 },
        }
    ));
}

#[test]
fn confirm_outcome_audit_literals() {
    assert_eq!(W12ConfirmOutcome::DeferredKvt1.final_state_str(), "KVT1");
    assert_eq!(W12ConfirmOutcome::DeferredKvt1.w12_status_str(), "DeferredKvt1");
    let acked = W12ConfirmOutcome::Acked { server_fiscal_no: "1".into() };
    assert_eq!(acked.final_state_str(), "ACK");
    assert_eq!(acked.w12_status_str(), "Acked");
}

#[test]
fn class_guard_escalates_or_holds_er_docs() {
    let mut s = summary_with_size(2);
    let (action, verdict) = drain_er_action(&mut s, doc(), ErRedriveDecision::Redrive);
    assert_eq!(action, DrainErAction::Redrive);
    assert_eq!(verdict, None);
    assert_eq!(s.per_doc_failures().len(), 0);
    let (action, verdict) =
        drain_er_action(&mut s, doc(), ErRedriveDecision::EscalateInconsistent { class: RetryClass::TerminalReject });
    assert_eq!(
        action,
        DrainErAction::Escalate {
            retry_class: RetryClass::TerminalReject,
            severity: Severity::Critical,
            reason: "terminal_reject_inconsistent",
            class: FailureClass::WireRoutingTerminalReject,
        }
    );
    assert_eq!(verdict, Some(DocVerdict::Failed { class: FailureClass::WireRoutingTerminalReject, manual_recon: true }));
    let (_, verdict) = drain_er_action(&mut s, doc(), ErRedriveDecision::HoldIndeterminate);
    assert_eq!(verdict, Some(DocVerdict::Failed { class: FailureClass::RetryClassIndeterminate, manual_recon: false }));
    assert_eq!(s.per_doc_failures().len(), 2);
    assert_eq!(s.per_doc_failures()[1].1, "retry_class_indeterminate");
}

#[test]
fn finalize_closes_pending_drain_ladder() {
    assert_eq!(finalize_shift_target(ShiftState::OpenedLocalPendingDrain, true), Ok(Some(ShiftState::Opened)));
    assert_eq!(finalize_shift_target(ShiftState::ClosingLocalPendingDrain, true), Ok(Some(ShiftState::Closed)));
    assert_eq!(finalize_shift_target(ShiftState::Opened, false), Ok(None));
    assert_eq!(finalize_shift_target(ShiftState::OpenedLocalPendingDrain, false), Err(()));
    assert_eq!(finalize_shift_target(ShiftState::Closing, true), Err(()));
    assert_eq!(FinalizeEntry::NormalEligible.audit_event_name(), "OFFLINE_DRAIN_COMPLETED");
    assert_eq!(FinalizeEntry::CrashRecovery.audit_event_name(), "OFFLINE_DRAIN_RECOVERED_FINALIZE");
}

#[test]
fn backlog_plan_by_session_and_cohort() {
    assert_eq!(backlog_plan(None, 3, true), BacklogPlan::NoActiveSession);
    assert_eq!(backlog_plan(Some(OfflineSessionState::Draining), 0, true), BacklogPlan::RecoveryFinalize);
    assert_eq!(backlog_plan(Some(OfflineSessionState::Open), 0, true), BacklogPlan::EmptySkip);
    assert_eq!(backlog_plan(Some(OfflineSessionState::Open), 2, false), BacklogPlan::Drain { open_to_draining: true });
    assert_eq!(backlog_plan(Some(OfflineSessionState::Draining), 2, false), BacklogPlan::Drain { open_to_draining: false });
}

#[test]
fn drain_routes_each_candidate_state() {
    assert_eq!(drain_doc_route(DocState::OfflineLocalAck), DrainRoute::StageSend);
    assert_eq!(drain_doc_route(DocState::ErrorRetryable), DrainRoute::ErClassGuard);
    assert_eq!(drain_doc_route(DocState::Sent), DrainRoute::LastChkReplay);
    assert_eq!(drain_doc_route(DocState::Kvt1), DrainRoute::W12Only);
    assert_eq!(drain_doc_route(DocState::Kvt2), DrainRoute::W12Kvt2Advance);
    assert_eq!(drain_doc_route(DocState::Ack), DrainRoute::Unexpected);
    assert_eq!(drain_doc_route(DocState::Prepared), DrainRoute::Unexpected);
}

#[test]
fn unexpected_drain_state_message_names_fn_state_and_doc() {
    let msg = unexpected_state_message(FN, DocState::Ack, DocumentId::from_bytes([0xabu8; 16]));
    assert_eq!(
        msg,
        format!(
            "backlog_drain({FN}): cohort walker returned unexpected doc.state ACK for doc {} \
             (SELECT must filter to drain candidates: OFFLINE_LOCAL_ACK | SENT | KVT1 | KVT2 | \
             ERROR_RETRYABLE post M3b W12 Commit 3 KVT2 cohort widening)",
            "ab".repeat(16)
        )
    );
}

#[test]
fn drain_identity_survives_every_operation() {
    let mut s = DrainSummary::new(FN.to_string(), 4);
    let id = DocumentId::from_bytes([1u8; 16]);
    s.record_doc_advanced(&W12ConfirmOutcome::Acked { server_fiscal_no: "77".to_string() }, false);
    s.record_doc_held_at_kvt1(id, "hold".to_string());
    s.record_doc_held_at_sent(id, "hold".to_string());
    s.record_doc_er_redrive_queued(id, "redrive".to_string());
    s.record_doc_failure(id, "x".to_string());
    let _ = s.finalize_eligibility();
    let _ = s.mark_finalized();
    assert_eq!(s.fiscal_number(), FN);
    assert_eq!(s.backlog_size_before(), 4);
}

#[test]
fn drain_stops_at_first_non_ack_document() {
    let mut s = DrainSummary::new(FN.to_string(), 3);
    let id = DocumentId::from_bytes([2u8; 16]);
    s.record_doc_advanced(&W12ConfirmOutcome::Acked { server_fiscal_no: "77".to_string() }, false);
    assert_eq!(apply_drain_verdict(&mut s, id, DocVerdict::Advanced), DrainStep::Continue);
    let step = apply_drain_verdict(
        &mut s,
        id,
        DocVerdict::HoldFnDrain {
            projection: HoldFnDrainProjection::HeldAtSent,
            class: FailureClass::Transport,
            consecutive_holds: 1,
        },
    );
    assert!(matches!(step, DrainStep::Halt { .. }));
    assert_eq!(s.held_at_sent(), 1);
    assert_eq!(s.advanced_to_ack(), 1);
}
