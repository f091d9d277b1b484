use prro::model::{CheckAck, DocState, DocType, DocumentId, DpsError, NodeMode, RetryClass, Severity, ShiftState, TransitionOutcome};
use prro::offline_sync::backlog_drain::{FailureClass, HoldFnDrainProjection};
use prro::offline_sync::kvt2_confirm::ConfirmDrainOutcome;
use prro::reconciliation::boot_phase::{
    boot_plan, boot_plan_audit, deferred_rationale, er_boot_plan, kvt1_age_and_severity, pending_doc_route,
    orphan_age_modifier, orphan_close, orphan_trace_doc_id, pending_doc_step, prepared_dispatch_step,
    prepared_drift_reaction, record_dispatch_error, redrive_send_step, replay_drift, sent_probe_expected_id,
    sent_probe_plan,
    signed_dispatch_step, BootPlan, BranchOutcome, DispatchHistogram, DispatchStep, ErBootAction, HistogramBucket,
    InboxSnapshot, PendingDocRoute, PostSignResult, PreparedDocSnapshot, ReconciliationSummary, ReplayDrift,
    SendResult, SentProbeAction, SignerRefusal, SubBranch, TraceOutcomeKind,
};
use prro::reconciliation::er_redrive_policy::{attempt_budget, er_redrive_decision, ErRedriveDecision};
use prro::reconciliation::held_evidence_probe::{already_recorded, held_detail, held_verdict, HeldVerdict};
use prro::reconciliation::inbox_reaper::{
    classify_doc_state, reap_action, reap_mark, reap_payload, sweep_age_modifier, DocTerminalOutcome, ReapMark, ReaperSummary,
};
use prro::reconciliation::last_chk_probe::{last_chk_outcome, ProbeOutcome};
use prro::reconciliation::online_convergence::{
    converge_er_action, converge_er_counter, converge_gate, doc_hex, kvt1_confirm_counter, sent_reread_counter,
    ConvergeErAction, ConvergeGate, TickCounter, TickSummary,
};
use prro::reconciliation::operator_completion::{
    completion_payload, resolution_tag, shift_projection, OperatorCompletionError, OperatorResolution,
};
use prro::reconciliation::reservation_boot_pass::{classify_apply, ApplyClass, ApplyErrorKind, ApplyStep, ReservationBootSummary};
use prro::reconciliation::runtime::ReconciliationRuntime;
use prro::reconciliation::sent_not_found::{require_stop_mode_set, require_transition_applied, SentNotFoundError};
use prro::time::{Duration, UtcInstant};

fn ack(id: &str) -> CheckAck {
    CheckAck { id: id.into(), id_sign: vec![], data_sign: vec![1, 2, 3] }
}

#[test]
fn probe_match_when_ack_id_equals_expected() {
    match last_chk_outcome(Ok(ack("abc-123")), "abc-123", "") {
        ProbeOutcome::Match { ack } => {
            assert_eq!(ack.id, "abc-123");
            assert_eq!(ack.data_sign, vec![1, 2, 3]);
        }
        other => panic!("expected Match, got {other:?}"),
    }
}

#[test]
fn probe_mismatch_when_ack_id_differs() {
    assert_eq!(
        last_chk_outcome(Ok(ack("other-doc")), "abc-123", ""),
        ProbeOutcome::Mismatch { actual_id: "other-doc".into() }
    );
}

#[test]
fn probe_not_found_on_dps_not_found() {
    assert_eq!(last_chk_outcome(Err(DpsError::NotFound), "abc", ""), ProbeOutcome::NotFound);
}

#[test]
fn probe_transport_retry_on_transport_error() {
    assert_eq!(
        last_chk_outcome(Err(DpsError::Transport("reset".into())), "abc", ""),
        ProbeOutcome::TransportRetry { reason: "reset".into() }
    );
}

#[test]
fn probe_decode_escalate_on_decode_error() {
    assert_eq!(
        last_chk_outcome(Err(DpsError::Decode("bad".into())), "abc", ""),
        ProbeOutcome::DecodeEscalate { reason: "bad".into() }
    );
}

#[test]
fn probe_unexpected_error_escalates_with_rendered_text() {
    assert_eq!(
        last_chk_outcome(Err(DpsError::Internal("x".into())), "abc", "internal x"),
        ProbeOutcome::DecodeEscalate { reason: "unexpected DpsError shape for last_chk: internal x".into() }
    );
}

#[test]
fn er_redrive_budgets_per_class() {
    assert_eq!(attempt_budget(Some(RetryClass::TransientRetry)), Some(5));
    assert_eq!(attempt_budget(Some(RetryClass::DrainChainSettleRetry)), Some(18));
    assert_eq!(attempt_budget(Some(RetryClass::WrapperBug)), None);
    assert_eq!(er_redrive_decision(Some(RetryClass::TransientRetry), 4), ErRedriveDecision::Redrive);
    assert_eq!(
        er_redrive_decision(Some(RetryClass::TransientRetry), 5),
        ErRedriveDecision::BudgetExhausted { attempts_used: 5 }
    );
    assert_eq!(er_redrive_decision(Some(RetryClass::DrainChainSettleRetry), 17), ErRedriveDecision::Redrive);
    assert_eq!(
        er_redrive_decision(Some(RetryClass::DrainChainSettleRetry), 18),
        ErRedriveDecision::BudgetExhausted { attempts_used: 18 }
    );
    assert_eq!(
        er_redrive_decision(Some(RetryClass::MacRecovery), 0),
        ErRedriveDecision::EscalateManual { class: RetryClass::MacRecovery }
    );
    assert_eq!(
        er_redrive_decision(Some(RetryClass::TerminalReject), 0),
        ErRedriveDecision::EscalateInconsistent { class: RetryClass::TerminalReject }
    );
    assert_eq!(er_redrive_decision(Some(RetryClass::ProbeRequired), 0), ErRedriveDecision::HoldProbeRequired);
    assert_eq!(er_redrive_decision(None, 0), ErRedriveDecision::HoldIndeterminate);
}

#[test]
fn held_verdicts_and_dedup() {
    assert_eq!(held_verdict(ProbeOutcome::NotFound), HeldVerdict::PeerHasNoChecks);
    assert_eq!(
        held_verdict(ProbeOutcome::Match { ack: ack("z") }),
        HeldVerdict::PeerHoldsOther { actual_id: "z".into() }
    );
    let v = HeldVerdict::Indeterminate { reason: "timeout".into() };
    assert_eq!(v.as_str(), "Indeterminate");
    assert_eq!(held_detail(&v), "timeout");
    let last = Some(r#"{"reservation_id":"ab01","lnd":3,"verdict":"PeerHasNoChecks","detail":""}"#.to_string());
    assert!(already_recorded(last.clone(), "ab01", &HeldVerdict::PeerHasNoChecks));
    assert!(!already_recorded(last.clone(), "ab02", &HeldVerdict::PeerHasNoChecks));
    assert!(!already_recorded(last, "ab01", &v));
    assert!(!already_recorded(Some("not json".into()), "ab01", &HeldVerdict::PeerHasNoChecks));
    assert!(!already_recorded(None, "ab01", &HeldVerdict::PeerHasNoChecks));
}

#[test]
fn histogram_counts_and_merges() {
    let mut h = DispatchHistogram::default();
    assert_eq!(h.total_visited(), 0);
    h.bump(HistogramBucket::SendingResumed);
    h.bump(HistogramBucket::DispatchErrors);
    h.bump(HistogramBucket::DispatchErrors);
    assert_eq!(h.sending_resumed, 1);
    assert_eq!(h.count(HistogramBucket::DispatchErrors), 2);
    assert_eq!(h.total_visited(), 3);
    let mut g = DispatchHistogram::default();
    g.kvt1_held = 4;
    g.merge(&h);
    assert_eq!(g.total_visited(), 7);
    assert_eq!(g.dispatch_errors, 2);
}

#[test]
fn summary_records_each_branch_once() {
    let mut s = ReconciliationSummary::default();
    let mut h = DispatchHistogram::default();
    h.kvt1_held = 2;
    s.record(&BranchOutcome::Bootstrapped);
    s.record(&BranchOutcome::Reconciled { histogram: h, sub_branch: SubBranch::E1 });
    s.record(&BranchOutcome::OrphanShiftResolved { orphans_resolved: 3 });
    s.record(&BranchOutcome::OfflineRefusal { observed_mode: NodeMode::GoingOnline });
    s.record(&BranchOutcome::PreservedStopMode);
    assert_eq!((s.branch_a, s.branch_e1, s.branch_e2, s.branch_d_offline_refusal, s.branch_f_stop_mode), (1, 1, 1, 1, 1));
    assert_eq!(s.branch_c, 0);
    assert_eq!(s.shift_orphans_to_error, 3);
    assert_eq!(s.docs_advanced.kvt1_held, 2);
}

#[test]
fn branch_tags_are_stable() {
    let h = DispatchHistogram::default();
    assert_eq!(BranchOutcome::Bootstrapped.branch_tag(), "a");
    assert_eq!(BranchOutcome::IdempotentNoop.branch_tag(), "b");
    assert_eq!(BranchOutcome::Reconciled { histogram: h, sub_branch: SubBranch::C }.branch_tag(), "c");
    assert_eq!(BranchOutcome::Reconciled { histogram: h, sub_branch: SubBranch::E1 }.branch_tag(), "e1");
    assert_eq!(BranchOutcome::OfflineRefusal { observed_mode: NodeMode::GoingOnline }.branch_tag(), "d");
    assert_eq!(BranchOutcome::OrphanShiftResolved { orphans_resolved: 1 }.branch_tag(), "e2");
    assert_eq!(BranchOutcome::PreservedBlocked.branch_tag(), "f1");
    assert_eq!(BranchOutcome::PreservedStopMode.branch_tag(), "f2");
    assert_eq!(BranchOutcome::PreservedCryptoDegraded.branch_tag(), "f3");
    assert_eq!(SubBranch::E1.as_str(), "e1");
}

#[test]
fn boot_decision_tree() {
    assert_eq!(boot_plan(None, true), BootPlan::Bootstrap);
    assert_eq!(boot_plan(Some((NodeMode::GoingOnline, ShiftState::Opened)), true), BootPlan::RefuseGoingOnline);
    assert_eq!(boot_plan(Some((NodeMode::Blocked, ShiftState::Opened)), true), BootPlan::PreserveBlocked);
    assert_eq!(boot_plan(Some((NodeMode::Online, ShiftState::Opening)), false), BootPlan::ResolveOrphanShifts);
    assert_eq!(boot_plan(Some((NodeMode::Offline, ShiftState::Opening)), false), BootPlan::IdempotentNoop);
    assert_eq!(boot_plan(Some((NodeMode::Online, ShiftState::Opened)), false), BootPlan::IdempotentNoop);
    assert_eq!(
        boot_plan(Some((NodeMode::Online, ShiftState::Closing)), true),
        BootPlan::DispatchPending { sub_branch: SubBranch::E1 }
    );
    assert_eq!(
        boot_plan(Some((NodeMode::Offline, ShiftState::Opened)), true),
        BootPlan::DispatchPending { sub_branch: SubBranch::C }
    );
    assert_eq!(boot_plan_audit(BootPlan::RefuseGoingOnline), ("NODE_STATE_BOOT_OFFLINE_REFUSAL", Severity::Error));
    assert_eq!(boot_plan_audit(BootPlan::PreserveBlocked), ("NODE_STATE_BOOT_BLOCKED_PRESERVED", Severity::Info));
}

#[test]
fn pending_docs_route_by_state_and_context() {
    assert_eq!(pending_doc_route(DocState::Sending, false), PendingDocRoute::ResumeSending);
    assert_eq!(pending_doc_route(DocState::Sent, true), PendingDocRoute::ProbeSent);
    assert_eq!(
        pending_doc_route(DocState::Sent, false),
        PendingDocRoute::DeferNoContext { bucket: HistogramBucket::SentDeferred }
    );
    assert_eq!(pending_doc_route(DocState::Ack, true), PendingDocRoute::ContractViolation);
    assert_eq!(
        pending_doc_step(PendingDocRoute::FinalizeKvt2, false),
        Some(DispatchStep::Count(HistogramBucket::Kvt2Failed))
    );
    assert_eq!(pending_doc_step(PendingDocRoute::ResumeSending, false), Some(DispatchStep::Error("c-sending")));
    assert_eq!(pending_doc_step(PendingDocRoute::ProbeSent, true), None);
    assert!(deferred_rationale(false).starts_with("ctx-needy dispatch deferred"));
}

#[test]
fn post_sign_results_count_per_origin() {
    let mismatch = PostSignResult::Online(SendResult::Completed { signer_refusal: Some(SignerRefusal::Mismatch) });
    assert_eq!(signed_dispatch_step(mismatch), DispatchStep::Count(HistogramBucket::SignerRefusedMismatch));
    assert_eq!(prepared_dispatch_step(mismatch), DispatchStep::Count(HistogramBucket::PreparedDispatched));
    assert_eq!(signed_dispatch_step(PostSignResult::Online(SendResult::Failed)), DispatchStep::Error("c-signed"));
    assert_eq!(prepared_dispatch_step(PostSignResult::DispatchFailed), DispatchStep::Error("c-prepared-dispatch"));
    assert_eq!(
        signed_dispatch_step(PostSignResult::OfflineApplied),
        DispatchStep::Count(HistogramBucket::OfflineLocalAckEmitted)
    );
    assert_eq!(
        redrive_send_step(SendResult::Completed { signer_refusal: None }),
        DispatchStep::Count(HistogramBucket::ErrorRetryableDispatched)
    );
}

#[test]
fn sent_probe_and_er_plans() {
    let (action, bucket, tag) = sent_probe_plan(&ProbeOutcome::TransportRetry { reason: "r".into() });
    assert_eq!(
        action,
        SentProbeAction::CloseTrace { outcome_kind: TraceOutcomeKind::RetryableTransport, event: "LAST_CHK_TRANSPORT_RETRY" }
    );
    assert_eq!(bucket, HistogramBucket::SentProbeFailureDeferred);
    assert_eq!(tag, "c-sent-probe-transport");
    let (action, bucket, _) = sent_probe_plan(&ProbeOutcome::NotFound);
    assert_eq!(action, SentProbeAction::ReturnToErrorRetryable);
    assert_eq!(bucket, HistogramBucket::SentNotFoundToErrorRetryable);
    let (action, bucket, tag) = er_boot_plan(ErRedriveDecision::EscalateInconsistent { class: RetryClass::TerminalReject });
    assert_eq!(action, ErBootAction::EscalateToManual { class: RetryClass::TerminalReject, severity: Severity::Critical });
    assert_eq!(bucket, HistogramBucket::ErrorRetryableEscalatedToManual);
    assert_eq!(tag, "c-error-retryable-terminal-inconsistent");
    match er_boot_plan(ErRedriveDecision::HoldIndeterminate).0 {
        ErBootAction::Hold { event, severity, class_label, .. } => {
            assert_eq!(event, "BOOT_ER_RETRY_CLASS_INDETERMINATE");
            assert_eq!(severity, Severity::Error);
            assert_eq!(class_label, "<none>");
        }
        other => panic!("expected Hold, got {other:?}"),
    }
}

fn prepared(doc_type: &str, payload: &str, sha: [u8; 32], source: Option<[u8; 32]>) -> PreparedDocSnapshot {
    PreparedDocSnapshot {
        fiscal_number: "FN1".into(),
        doc_type: doc_type.into(),
        payload_json: payload.into(),
        payload_sha256_canonical: sha,
        source_sha256: source,
    }
}

fn inbox(op: &str, payload: &str, sha: [u8; 32]) -> InboxSnapshot {
    InboxSnapshot { fiscal_number: "FN1".into(), operation_type: op.into(), payload_json: payload.into(), payload_sha256_canonical: sha }
}

#[test]
fn prepared_replay_drift_checks() {
    let same = replay_drift(&prepared("SELL", "{}", [1; 32], None), &inbox("SELL", "{}", [1; 32]));
    assert_eq!(same, ReplayDrift { drift: false, payload_json_mismatch: false });
    let text = replay_drift(&prepared("SELL", "{}", [1; 32], None), &inbox("SELL", "{ }", [1; 32]));
    assert_eq!(text, ReplayDrift { drift: true, payload_json_mismatch: true });
    let kind = replay_drift(&prepared("SELL", "{}", [1; 32], None), &inbox("RETURN", "{}", [1; 32]));
    assert_eq!(kind, ReplayDrift { drift: true, payload_json_mismatch: false });
    // "abc" hashes to ba7816bf...; a Z-class document is checked by digests.
    let abc: [u8; 32] = [
        0xba, 0x78, 0x16, 0xbf, 0x8f, 0x01, 0xcf, 0xea, 0x41, 0x41, 0x40, 0xde, 0x5d, 0xae, 0x22, 0x23, 0xb0, 0x03,
        0x61, 0xa3, 0x96, 0x17, 0x7a, 0x9c, 0xb4, 0x10, 0xff, 0x61, 0xf2, 0x00, 0x15, 0xad,
    ];
    let z_ok = replay_drift(&prepared("Z_REPORT", "abc", abc, Some(abc)), &inbox("Z_REPORT", "abc", abc));
    assert_eq!(z_ok, ReplayDrift { drift: false, payload_json_mismatch: false });
    let z_bad = replay_drift(&prepared("Z_REPORT", "abc", [9; 32], Some(abc)), &inbox("Z_REPORT", "abc", abc));
    assert_eq!(z_bad, ReplayDrift { drift: true, payload_json_mismatch: false });
}

#[test]
fn kvt1_age_thresholds() {
    let base = 1_704_067_200i64; // 2024-01-01T00:00:00Z
    let at = |secs: i64| UtcInstant { secs, nanos: 0 };
    assert_eq!(kvt1_age_and_severity("2024-01-01 00:00:00", at(base + 59)), (59, Severity::Info));
    assert_eq!(kvt1_age_and_severity("2024-01-01 00:00:00", at(base + 7_200)), (7_200, Severity::Warning));
    assert_eq!(kvt1_age_and_severity("2024-01-01T00:00:00Z", at(base + 90_000)), (90_000, Severity::Error));
    assert_eq!(kvt1_age_and_severity("2024-01-01T00:00:00+02:00", at(base)), (7_200, Severity::Warning));
    assert_eq!(kvt1_age_and_severity("2024-01-01 00:00:00", at(base - 10)), (0, Severity::Info));
    assert_eq!(kvt1_age_and_severity("yesterday", at(base)), (0, Severity::Info));
}

#[test]
fn reaper_decisions_and_counts() {
    let in_flight = DocTerminalOutcome { state: DocState::Sending, accepted: false, terminally_failed: false };
    assert!(reap_action(Some(in_flight)).is_none());
    let accepted = DocTerminalOutcome { state: DocState::Ack, accepted: true, terminally_failed: false };
    let a = reap_action(Some(accepted)).unwrap();
    assert!(a.to_done);
    assert_eq!(a.event, "INBOX_REAPER_ACCEPTED_CONVERGED_DONE");
    let none = reap_action(None).unwrap();
    assert_eq!((none.event, none.severity), ("INBOX_REAPER_NO_DOC_TERMINALISED", Severity::Critical));
    assert_eq!(reap_mark(false, "NEW"), ReapMark::RejectIfNew);
    assert_eq!(reap_mark(false, "PROCESSING"), ReapMark::RejectIfProcessing);
    assert_eq!(reap_mark(true, "NEW"), ReapMark::Done);
    assert_eq!(
        reap_payload(&[0xab; 16], "NEW", Some(DocState::Rejected)),
        format!(r#"{{"request_id":"{}","prior_status":"NEW","doc_state":"REJECTED"}}"#, "ab".repeat(16))
    );
    assert_eq!(
        reap_payload(&[0u8; 16], "PROCESSING", None),
        format!(r#"{{"request_id":"{}","prior_status":"PROCESSING","doc_state":null}}"#, "00".repeat(16))
    );
    let mut s = ReaperSummary::default();
    s.scanned = 4;
    s.record_row(Some(in_flight), false);
    s.record_row(Some(accepted), true);
    s.record_row(None, true);
    s.record_row(None, false);
    assert_eq!(
        (s.in_flight_skipped, s.accepted_converged_done, s.no_doc_terminalised, s.raced, s.failed_terminalised),
        (1, 1, 1, 1, 0)
    );
    assert_eq!(sweep_age_modifier(Some(Duration::from_secs(900))), "-900 seconds");
    assert_eq!(sweep_age_modifier(None), "+0 seconds");
}

#[test]
fn convergence_gate_and_counters() {
    assert_eq!(converge_gate(None), ConvergeGate::NoNodeState);
    assert_eq!(converge_gate(Some((NodeMode::Offline, ShiftState::Opened))), ConvergeGate::ModeNotOnline);
    assert_eq!(
        converge_gate(Some((NodeMode::Online, ShiftState::RequiresManualReconciliation))),
        ConvergeGate::ShiftNeedsManual
    );
    assert_eq!(converge_gate(Some((NodeMode::Online, ShiftState::Opened))), ConvergeGate::Converge);
    let s = TickSummary::skipped_mode("FN1");
    assert!(s.mode_skipped);
    assert_eq!(s.fiscal_number, "FN1");
    let mut t = TickSummary::new("FN1");
    t.bump(TickCounter::HeldKvt1);
    t.bump(kvt1_confirm_counter(&ConfirmDrainOutcome::Advanced));
    assert_eq!((t.held_kvt1, t.acked_from_kvt1, t.errors), (1, 1, 0));
    assert_eq!(
        kvt1_confirm_counter(&ConfirmDrainOutcome::HoldFnDrain {
            projection: HoldFnDrainProjection::HeldAtKvt1,
            consecutive_holds: 1,
            class: FailureClass::Transport
        }),
        TickCounter::HeldKvt1
    );
    assert_eq!(sent_reread_counter(Some(DocState::Kvt1)), TickCounter::AdvancedSentToKvt1);
    assert_eq!(sent_reread_counter(Some(DocState::Sent)), TickCounter::SentNotConverged);
    assert_eq!(sent_reread_counter(None), TickCounter::SentNotConverged);
    assert_eq!(
        converge_er_action(ErRedriveDecision::HoldIndeterminate, 1),
        ConvergeErAction::HoldIndeterminate { severity: Severity::Warning, tick_no: 2 }
    );
    assert_eq!(
        converge_er_action(ErRedriveDecision::HoldIndeterminate, 2),
        ConvergeErAction::HoldIndeterminate { severity: Severity::Critical, tick_no: 3 }
    );
    assert_eq!(
        converge_er_action(ErRedriveDecision::BudgetExhausted { attempts_used: 9 }, 0),
        ConvergeErAction::EscalateToManual { class: RetryClass::TransientRetry, severity: Severity::Error }
    );
    assert_eq!(converge_er_counter(ConvergeErAction::Redrive, false), TickCounter::Errors);
    assert_eq!(doc_hex(DocumentId::from_bytes([0x0f; 16])), "0f".repeat(16));
}

#[test]
fn operator_resolution_shift_edges() {
    let accepted = OperatorResolution::Accepted { server_fiscal_no: "1".into() };
    assert_eq!(shift_projection(DocType::ShiftOpen, &accepted, true), Ok(Some((ShiftState::Opening, ShiftState::Opened))));
    assert_eq!(
        shift_projection(DocType::ZReport, &OperatorResolution::NotAccepted, true),
        Ok(Some((ShiftState::Closing, ShiftState::Opened)))
    );
    assert_eq!(
        shift_projection(DocType::ShiftClose, &OperatorResolution::NotAcceptedOffline, false),
        Ok(Some((ShiftState::ClosingLocalPendingDrain, ShiftState::OpenedLocalPendingDrain)))
    );
    assert_eq!(shift_projection(DocType::ShiftOpen, &accepted, false), Ok(None));
    assert_eq!(
        shift_projection(DocType::ShiftOpen, &OperatorResolution::MacReseed { seed: [0; 32] }, true),
        Err(OperatorCompletionError::MacReseedOnShiftFamily)
    );
    assert_eq!(shift_projection(DocType::Sell, &OperatorResolution::MacReseed { seed: [0; 32] }, true), Ok(None));
    assert_eq!(resolution_tag(&OperatorResolution::NotAcceptedOffline), "NotAcceptedOffline");
    assert_eq!(
        OperatorCompletionError::ShiftProjectionFailed(TransitionOutcome::Conflict).message(),
        "shift-state projection failed: Conflict"
    );
    let payload = completion_payload(
        &accepted,
        true,
        false,
        "Online",
        &vec![(DocumentId::from_bytes([1; 16]), 7), (DocumentId::from_bytes([2; 16]), -1)],
        Some(None),
    );
    assert_eq!(
        payload,
        format!(
            "{{\"resolution\":\"Accepted\",\"applied\":true,\"seed_advanced\":false,\"mode_target\":\"Online\",\"cancelled_cohort\":[{{\"doc\":\"{}\",\"lnd\":7}},{{\"doc\":\"{}\",\"lnd\":-1}}],\"rewound_seed\":\"genesis\"}}",
            "01".repeat(16),
            "02".repeat(16)
        )
    );
}

#[test]
fn reservation_pass_counts() {
    assert_eq!(classify_apply(Ok(true)), ApplyClass::Resolved { applied: true });
    assert_eq!(classify_apply(Err(ApplyErrorKind::HeldNotAutoRelease)), ApplyClass::Held);
    assert_eq!(classify_apply(Err(ApplyErrorKind::Other)), ApplyClass::Fatal);
    let mut s = ReservationBootSummary::default();
    assert!(!s.is_active());
    assert_eq!(s.record_apply(ApplyClass::Resolved { applied: false }), ApplyStep::Counted);
    assert_eq!(s.record_apply(ApplyClass::NodeMissing), ApplyStep::DeferFn);
    assert_eq!(s.dropped, 1);
    assert!(s.is_active());
    s.record_normalized(true);
    s.record_reconstructed(false);
    assert_eq!((s.normalized, s.reconstructed), (1, 0));
}

#[test]
fn runtime_resolves_views() {
    let single: ReconciliationRuntime<u8, fn(&str) -> Option<u8>> = ReconciliationRuntime::single_fn(7);
    assert_eq!(single.resolve("any"), Some(7));
    let per = ReconciliationRuntime::with_resolver(|f: &str| if f == "FN1" { Some(1u8) } else { None });
    assert_eq!(per.resolve("FN1"), Some(1));
    assert_eq!(per.resolve("FN2"), None);
}

#[test]
fn sent_not_found_escalation_checks() {
    assert_eq!(
        require_transition_applied(TransitionOutcome::Conflict),
        Err(SentNotFoundError::DocNotSent(TransitionOutcome::Conflict))
    );
    assert_eq!(require_transition_applied(TransitionOutcome::Applied), Ok(()));
    assert_eq!(require_stop_mode_set(false), Err(SentNotFoundError::NodeStateMissing));
    assert_eq!(require_stop_mode_set(true), Ok(()));
    assert_eq!(
        SentNotFoundError::DocNotSent(TransitionOutcome::NotFound).message(),
        "document is not in SENT (cannot escalate to manual): NotFound"
    );
}

#[test]
fn prepared_drift_holds_with_critical_audit() {
    let h = prepared_drift_reaction(ReplayDrift { drift: true, payload_json_mismatch: false })
        .expect("drift is held");
    assert_eq!(h.event, "BOOT_PREPARED_REPLAY_DRIFT");
    assert_eq!(h.severity, Severity::Critical);
    assert_eq!(h.branch, "c-prepared-replay-drift");
    assert!(h.rationale.starts_with("fiscal_documents \u{2194} ingress_inbox drift"));
    assert!(h.rationale.ends_with("recovery holds doc in PREPARED \u{2014} operator triage required"));
    assert_eq!(h.bucket, HistogramBucket::PreparedReplayDriftDeferred);
    assert!(prepared_drift_reaction(ReplayDrift { drift: false, payload_json_mismatch: true }).is_none());
}

#[test]
fn each_dispatched_doc_lands_in_one_bucket() {
    let mut h = DispatchHistogram::default();
    let steps = [
        DispatchStep::Count(HistogramBucket::PreparedReplayDriftDeferred),
        DispatchStep::Error("prepared_dispatch"),
        DispatchStep::Count(HistogramBucket::Kvt1Held),
        DispatchStep::Count(HistogramBucket::Kvt1Held),
    ];
    for s in steps {
        h.count_step(s);
    }
    assert_eq!(h.prepared_replay_drift_deferred, 1);
    assert_eq!(h.dispatch_errors, 1);
    assert_eq!(h.kvt1_held, 2);
    assert_eq!(h.total_visited(), 4);
}

#[test]
fn orphan_scan_age_modifier_and_doc_id() {
    assert_eq!(orphan_age_modifier(60), "-60 seconds");
    assert_eq!(orphan_age_modifier(0), "-0 seconds");
    assert_eq!(orphan_age_modifier(-5), "--5 seconds");
    let bytes = [9u8; 16];
    assert_eq!(orphan_trace_doc_id(&bytes), Some(DocumentId::from_bytes(bytes)));
    assert_eq!(orphan_trace_doc_id(&bytes[..15]), None);
    assert_eq!(orphan_trace_doc_id(&[0u8; 17]), None);
    let c = orphan_close();
    assert_eq!(c.outcome_kind, "SYSTEM_CRASH");
    assert_eq!(c.error_kind, "ORPHANED_AT_BOOT_RECOVERY");
    assert_eq!(c.event, "TRANSPORT_TRACE_ORPHAN_CLOSED");
    assert_eq!(c.severity, Severity::Info);
}

#[test]
fn absorbed_dispatch_error_is_counted_and_audited() {
    let mut h = DispatchHistogram::default();
    let a = record_dispatch_error(&mut h);
    assert_eq!(h.dispatch_errors, 1);
    assert_eq!(h.total_visited(), 1);
    assert_eq!(a.entity_type, "fiscal_document");
    assert_eq!(a.event, "BOOT_DISPATCH_ERROR");
    assert_eq!(a.severity, Severity::Warning);
}

#[test]
fn inbox_doc_states_classify_by_replay_rules() {
    let ack = classify_doc_state(DocState::Ack);
    assert!(ack.accepted && !ack.terminally_failed);
    assert!(classify_doc_state(DocState::OfflineLocalAck).accepted);
    let rej = classify_doc_state(DocState::Rejected);
    assert!(!rej.accepted && rej.terminally_failed);
    assert!(classify_doc_state(DocState::RequiresManualReconciliation).terminally_failed);
    let sent = classify_doc_state(DocState::Sent);
    assert!(!sent.accepted && !sent.terminally_failed);
    assert_eq!(sent.state, DocState::Sent);
}

#[test]
fn sent_doc_without_server_fiscal_no_is_a_dispatch_error() {
    assert_eq!(sent_probe_expected_id(Some("4242".to_string())), Ok("4242".to_string()));
    assert_eq!(sent_probe_expected_id(None), Err(DispatchStep::Error("c-sent-no-server-fiscal-no")));
}
