use prro::model::{AuthorizationKind, CheckAck, DpsError};
use prro::offline_sync::backlog_drain::{FailureClass, HoldFnDrainProjection};
use prro::offline_sync::kvt2_confirm::{
    classify_check_result, confirm_plan, downgrade_outcome, hold_outcome, hold_projection, map_confirm_error,
    map_hold_reason_to_class, max_lnd, superseded_by_newer, BootError, ConfirmDrainOutcome, ConfirmError,
    ConfirmPlan, Kvt2ConfirmHoldReason, Kvt2ConfirmOutcome, Kvt2ConfirmSource, Kvt2ConfirmStructuralReason,
};

fn ack(id: &str, data_sign: Vec<u8>) -> CheckAck {
    CheckAck {
        id: id.to_string(),
        id_sign: vec![],
        data_sign,
    }
}

#[test]
fn ok_with_data_sign_returns_acked_sent_fresh() {
    let result = Ok(ack("FN-001", vec![0xAA, 0xBB, 0xCC]));
    let outcome = classify_check_result(result, Kvt2ConfirmSource::SentFresh, None, false);
    match outcome {
        Kvt2ConfirmOutcome::Acked {
            kvt1_raw_bytes,
            sent_replay_trace_attempt_no,
        } => {
            assert_eq!(kvt1_raw_bytes, vec![0xAA, 0xBB, 0xCC]);
            assert_eq!(sent_replay_trace_attempt_no, None);
        }
        other => panic!("expected Acked, got {other:?}"),
    }
}

#[test]
fn ok_with_data_sign_returns_acked_sent_replay_threads_trace_attempt_no() {
    let result = Ok(ack("FN-001", vec![0xDE, 0xAD]));
    let outcome = classify_check_result(result, Kvt2ConfirmSource::SentReplay, Some(7), false);
    match outcome {
        Kvt2ConfirmOutcome::Acked {
            kvt1_raw_bytes,
            sent_replay_trace_attempt_no,
        } => {
            assert_eq!(kvt1_raw_bytes, vec![0xDE, 0xAD]);
            assert_eq!(sent_replay_trace_attempt_no, Some(7));
        }
        other => panic!("expected Acked with trace_attempt_no=Some(7), got {other:?}"),
    }
}

#[test]
fn ok_with_data_sign_returns_acked_kvt1_reentry() {
    let result = Ok(ack("FN-001", vec![0xFF]));
    let outcome = classify_check_result(result, Kvt2ConfirmSource::Kvt1Reentry, None, false);
    assert!(matches!(
        outcome,
        Kvt2ConfirmOutcome::Acked {
            sent_replay_trace_attempt_no: None,
            ..
        }
    ));
}

#[test]
fn ok_with_empty_data_sign_returns_hold_data_sign_empty() {
    let result = Ok(ack("FN-001", vec![]));
    let outcome = classify_check_result(result, Kvt2ConfirmSource::SentReplay, Some(3), false);
    assert!(matches!(
        outcome,
        Kvt2ConfirmOutcome::Hold {
            reason: Kvt2ConfirmHoldReason::LastChkDataSignEmpty,
            sent_replay_trace_attempt_no: Some(3),
        }
    ));
}

#[test]
fn err_transport_returns_hold_dps_transport() {
    let result = Err(DpsError::Transport("conn reset".into()));
    let outcome = classify_check_result(result, Kvt2ConfirmSource::SentFresh, None, false);
    match outcome {
        Kvt2ConfirmOutcome::Hold {
            reason: Kvt2ConfirmHoldReason::DpsTransport(msg),
            sent_replay_trace_attempt_no: None,
        } => assert_eq!(msg, "conn reset"),
        other => panic!("expected Hold::DpsTransport, got {other:?}"),
    }
}

#[test]
fn err_server_returns_hold_dps_server_with_code_in_msg() {
    let result = Err(DpsError::Server {
        code: -42,
        message: "internal".into(),
    });
    let outcome = classify_check_result(result, Kvt2ConfirmSource::Kvt1Reentry, None, false);
    match outcome {
        Kvt2ConfirmOutcome::Hold {
            reason: Kvt2ConfirmHoldReason::DpsServer(msg),
            ..
        } => {
            assert!(msg.contains("-42"), "msg should carry status code: {msg}");
            assert!(msg.contains("internal"), "msg should carry message: {msg}");
        }
        other => panic!("expected Hold::DpsServer, got {other:?}"),
    }
}

#[test]
fn err_authorization_returns_hold_dps_authorization() {
    let result = Err(DpsError::Authorization {
        code: -13,
        kind: AuthorizationKind::FiscalNumberNotRegistered,
        message: "FN not registered".into(),
    });
    let outcome = classify_check_result(result, Kvt2ConfirmSource::SentReplay, Some(1), false);
    assert!(matches!(
        outcome,
        Kvt2ConfirmOutcome::Hold {
            reason: Kvt2ConfirmHoldReason::DpsAuthorization(_),
            sent_replay_trace_attempt_no: Some(1),
        }
    ));
}

#[test]
fn err_decode_returns_hold_dps_decode() {
    let result = Err(DpsError::Decode("invalid proto".into()));
    let outcome = classify_check_result(result, Kvt2ConfirmSource::SentFresh, None, false);
    match outcome {
        Kvt2ConfirmOutcome::Hold {
            reason: Kvt2ConfirmHoldReason::DpsDecode(msg),
            ..
        } => assert_eq!(msg, "invalid proto"),
        other => panic!("expected Hold::DpsDecode, got {other:?}"),
    }
}

#[test]
fn err_other_variant_falls_back_to_hold_dps_server_defensively() {
    let result = Err(DpsError::QueryNotSupported("byLocalIdentity"));
    let outcome = classify_check_result(result, Kvt2ConfirmSource::SentFresh, None, false);
    assert!(matches!(
        outcome,
        Kvt2ConfirmOutcome::Hold {
            reason: Kvt2ConfirmHoldReason::DpsServer(_),
            ..
        }
    ));
}

#[test]
fn err_mismatch_returns_structural_drift_sent_fresh() {
    let result = Err(DpsError::ServerFiscalIdMismatch {
        expected_id: "FN-A".into(),
        actual_id: "FN-B".into(),
    });
    let outcome = classify_check_result(result, Kvt2ConfirmSource::SentFresh, None, false);
    match outcome {
        Kvt2ConfirmOutcome::StructuralDrift {
            reason: Kvt2ConfirmStructuralReason::LastChkIdMismatch { observed, expected },
            ..
        } => {
            assert_eq!(observed, "FN-B");
            assert_eq!(expected, "FN-A");
        }
        other => panic!("expected StructuralDrift::LastChkIdMismatch, got {other:?}"),
    }
}

#[test]
fn err_mismatch_returns_structural_drift_sent_replay() {
    let result = Err(DpsError::ServerFiscalIdMismatch {
        expected_id: "FN-A".into(),
        actual_id: "FN-B".into(),
    });
    let outcome = classify_check_result(result, Kvt2ConfirmSource::SentReplay, Some(9), false);
    assert!(matches!(
        outcome,
        Kvt2ConfirmOutcome::StructuralDrift {
            reason: Kvt2ConfirmStructuralReason::LastChkIdMismatch { .. },
            sent_replay_trace_attempt_no: Some(9),
        }
    ));
}

#[test]
fn err_mismatch_returns_structural_drift_kvt1_reentry() {
    let result = Err(DpsError::ServerFiscalIdMismatch {
        expected_id: "FN-A".into(),
        actual_id: "FN-B".into(),
    });
    let outcome = classify_check_result(result, Kvt2ConfirmSource::Kvt1Reentry, None, false);
    assert!(matches!(
        outcome,
        Kvt2ConfirmOutcome::StructuralDrift {
            reason: Kvt2ConfirmStructuralReason::LastChkIdMismatch { .. },
            ..
        }
    ));
}

#[test]
fn err_not_found_sent_replay_returns_sent_not_found_downgrade() {
    let result = Err(DpsError::NotFound);
    let outcome = classify_check_result(result, Kvt2ConfirmSource::SentReplay, Some(5), false);
    assert!(matches!(
        outcome,
        Kvt2ConfirmOutcome::SentNotFoundDowngrade { trace_attempt_no: 5 }
    ));
}

#[test]
fn err_not_found_sent_fresh_returns_structural_drift() {
    let result = Err(DpsError::NotFound);
    let outcome = classify_check_result(result, Kvt2ConfirmSource::SentFresh, None, false);
    match outcome {
        Kvt2ConfirmOutcome::StructuralDrift {
            reason:
                Kvt2ConfirmStructuralReason::NotFoundOutsideSentReplay {
                    source: Kvt2ConfirmSource::SentFresh,
                },
            sent_replay_trace_attempt_no: None,
        } => {}
        other => panic!("expected StructuralDrift::NotFoundOutsideSentReplay{{SentFresh}}, got {other:?}"),
    }
}

#[test]
fn err_not_found_kvt1_reentry_returns_structural_drift() {
    let result = Err(DpsError::NotFound);
    let outcome = classify_check_result(result, Kvt2ConfirmSource::Kvt1Reentry, None, false);
    assert!(matches!(
        outcome,
        Kvt2ConfirmOutcome::StructuralDrift {
            reason: Kvt2ConfirmStructuralReason::NotFoundOutsideSentReplay {
                source: Kvt2ConfirmSource::Kvt1Reentry,
            },
            ..
        }
    ));
}

#[test]
fn map_hold_reason_to_class_covers_all_5_branches() {
    assert_eq!(
        map_hold_reason_to_class(&Kvt2ConfirmHoldReason::DpsTransport("timeout".into())),
        FailureClass::Transport
    );
    assert_eq!(
        map_hold_reason_to_class(&Kvt2ConfirmHoldReason::DpsServer("status=-5".into())),
        FailureClass::Server
    );
    assert_eq!(
        map_hold_reason_to_class(&Kvt2ConfirmHoldReason::DpsAuthorization("DocumentReject(code=-1)".into())),
        FailureClass::Authorization
    );
    assert_eq!(
        map_hold_reason_to_class(&Kvt2ConfirmHoldReason::DpsDecode("malformed".into())),
        FailureClass::Decode
    );
    assert_eq!(
        map_hold_reason_to_class(&Kvt2ConfirmHoldReason::LastChkDataSignEmpty),
        FailureClass::Internal
    );
}

#[test]
fn server_and_authorization_hold_details_are_exact() {
    let outcome = classify_check_result(
        Err(DpsError::Server { code: -42, message: "internal".into() }),
        Kvt2ConfirmSource::SentFresh,
        None,
        false,
    );
    assert_eq!(
        outcome,
        Kvt2ConfirmOutcome::Hold {
            reason: Kvt2ConfirmHoldReason::DpsServer("status=-42: internal".into()),
            sent_replay_trace_attempt_no: None,
        }
    );
    let outcome = classify_check_result(
        Err(DpsError::Authorization {
            code: -1,
            kind: AuthorizationKind::DocumentReject,
            message: "bad".into(),
        }),
        Kvt2ConfirmSource::SentFresh,
        None,
        false,
    );
    assert_eq!(
        outcome,
        Kvt2ConfirmOutcome::Hold {
            reason: Kvt2ConfirmHoldReason::DpsAuthorization("DocumentReject(code=-1): bad".into()),
            sent_replay_trace_attempt_no: None,
        }
    );
}

#[test]
fn other_error_detail_is_its_debug_rendering() {
    let outcome = classify_check_result(
        Err(DpsError::QueryNotSupported("byLocalIdentity")),
        Kvt2ConfirmSource::SentFresh,
        None,
        false,
    );
    assert_eq!(
        outcome,
        Kvt2ConfirmOutcome::Hold {
            reason: Kvt2ConfirmHoldReason::DpsServer(format!(
                "{:?}",
                DpsError::QueryNotSupported("byLocalIdentity")
            )),
            sent_replay_trace_attempt_no: None,
        }
    );
}

#[test]
fn superseded_tip_is_held_not_drift() {
    let result: Result<CheckAck, DpsError> = Err(DpsError::ServerFiscalIdMismatch {
        expected_id: "A".into(),
        actual_id: "B".into(),
    });
    let newer = vec!["C".to_string(), "B".to_string()];
    assert!(superseded_by_newer(&result, &newer));
    assert!(!superseded_by_newer(&result, &["C".to_string()]));
    let outcome = classify_check_result(result, Kvt2ConfirmSource::SentReplay, Some(2), true);
    assert_eq!(
        outcome,
        Kvt2ConfirmOutcome::SupersededHold { dps_tip_id: "B".into(), sent_replay_trace_attempt_no: Some(2) }
    );
}

#[test]
fn plans_follow_source_context() {
    let acked = Kvt2ConfirmOutcome::Acked { kvt1_raw_bytes: vec![1], sent_replay_trace_attempt_no: None };
    assert_eq!(confirm_plan(Kvt2ConfirmSource::SentFresh, &acked), ConfirmPlan::AdvanceToAck);
    assert_eq!(confirm_plan(Kvt2ConfirmSource::SentReplay, &acked), ConfirmPlan::ReplayAdvance);
    let hold = Kvt2ConfirmOutcome::Hold {
        reason: Kvt2ConfirmHoldReason::LastChkDataSignEmpty,
        sent_replay_trace_attempt_no: None,
    };
    assert_eq!(
        confirm_plan(Kvt2ConfirmSource::Kvt1Reentry, &hold),
        ConfirmPlan::HoldLight { projection: HoldFnDrainProjection::HeldAtKvt1 }
    );
    assert_eq!(
        confirm_plan(Kvt2ConfirmSource::SentFresh, &Kvt2ConfirmOutcome::SentNotFoundDowngrade { trace_attempt_no: 1 }),
        ConfirmPlan::Fault
    );
}

#[test]
fn drain_outcomes_of_hold_and_downgrade() {
    assert_eq!(
        hold_outcome(HoldFnDrainProjection::HeldAtSent, 4, &Kvt2ConfirmHoldReason::DpsDecode("x".into())),
        ConfirmDrainOutcome::HoldFnDrain {
            projection: HoldFnDrainProjection::HeldAtSent,
            consecutive_holds: 4,
            class: FailureClass::Decode,
        }
    );
    assert_eq!(
        downgrade_outcome(),
        ConfirmDrainOutcome::HoldFnDrain {
            projection: HoldFnDrainProjection::ErRedriveQueued,
            consecutive_holds: 0,
            class: FailureClass::NotFound,
        }
    );
}

#[test]
fn max_lnd_picks_largest() {
    assert_eq!(max_lnd(&[]), None);
    assert_eq!(max_lnd(&[3, 9, -1]), Some(9));
}

#[test]
fn confirm_errors_map_to_boot_errors() {
    assert_eq!(
        map_confirm_error(ConfirmError::StructuralDrift { detail: "d".into() }, "FN1"),
        BootError::Internal("d".into())
    );
    assert_eq!(
        map_confirm_error(ConfirmError::Database { source: "db down".into() }, "FN1"),
        BootError::ReconciliationFailed { fiscal_number: "FN1".into(), source: "db down".into() }
    );
    assert_eq!(
        map_confirm_error(ConfirmError::Infrastructure { source: "io".into() }, "FN2"),
        BootError::ReconciliationFailed { fiscal_number: "FN2".into(), source: "io".into() }
    );
}

#[test]
fn structural_reason_labels_and_details() {
    let r = Kvt2ConfirmStructuralReason::LastChkIdMismatch { observed: "B".into(), expected: "A".into() };
    assert_eq!(r.audit_label(), "LASTCHK_ID_MISMATCH");
    assert_eq!(r.detail_message(), format!("{:?}", r));
    assert_eq!(Kvt2ConfirmSource::SentReplay.audit_label(), "sent_replay");
    assert_eq!(Kvt2ConfirmHoldReason::DpsDecode("m".into()).audit_label(), "DPS_DECODE");
}

#[test]
fn sent_replay_hold_plan_projects_held_at_sent() {
    let hold = Kvt2ConfirmOutcome::Hold {
        reason: Kvt2ConfirmHoldReason::LastChkDataSignEmpty,
        sent_replay_trace_attempt_no: Some(3),
    };
    assert_eq!(
        confirm_plan(Kvt2ConfirmSource::SentReplay, &hold),
        ConfirmPlan::HoldBundled { projection: HoldFnDrainProjection::HeldAtSent }
    );
    assert_eq!(
        confirm_plan(Kvt2ConfirmSource::SentFresh, &hold),
        ConfirmPlan::HoldLight { projection: HoldFnDrainProjection::HeldAtSent }
    );
    assert_eq!(
        confirm_plan(Kvt2ConfirmSource::Kvt1Reentry, &hold),
        ConfirmPlan::HoldLight { projection: HoldFnDrainProjection::HeldAtKvt1 }
    );
}

#[test]
fn hold_projection_is_kvt1_only_for_reentry() {
    assert_eq!(hold_projection(Kvt2ConfirmSource::Kvt1Reentry), HoldFnDrainProjection::HeldAtKvt1);
    assert_eq!(hold_projection(Kvt2ConfirmSource::SentFresh), HoldFnDrainProjection::HeldAtSent);
    assert_eq!(hold_projection(Kvt2ConfirmSource::SentReplay), HoldFnDrainProjection::HeldAtSent);
}
