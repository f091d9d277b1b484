use prro::model::{AuthorizationKind, DpsError, NodeMode, RawResponseDigest, Severity, StatusSnapshot};
use prro::offline_sync::offline_surface::{ensure_full_offline_surface_ready, OfflineSurfaceNotReady};
use prro::offline_sync::return_online_probe::{
    authorization_kind_class, dps_error_class, failure_audit_reason, mode_flip_outcome, pre_probe_outcome,
    probe_result_outcome, tick_audit, FailureReason, SkipReason, TickOutcome,
};

#[test]
fn dps_error_class_labels_remote_status_and_indeterminate_ra() {
    assert_eq!(
        dps_error_class(&DpsError::RemoteStatus {
            code: "Unauthenticated".into(),
            message: "x".into(),
            digest: RawResponseDigest([0u8; 32]),
        }),
        "RemoteStatus"
    );
    assert_eq!(
        dps_error_class(&DpsError::Indeterminate {
            code: -4,
            message: "y".into(),
            digest: RawResponseDigest([0u8; 32]),
        }),
        "Indeterminate"
    );
}

#[test]
fn dps_error_class_is_distinct_per_variant() {
    let labels = [
        dps_error_class(&DpsError::Transport("t".into())),
        dps_error_class(&DpsError::Authorization {
            code: 1,
            kind: AuthorizationKind::DocumentReject,
            message: "m".into(),
        }),
        dps_error_class(&DpsError::Decode("d".into())),
        dps_error_class(&DpsError::Server { code: 1, message: "m".into() }),
        dps_error_class(&DpsError::NotFound),
        dps_error_class(&DpsError::ServerFiscalIdMismatch { expected_id: "a".into(), actual_id: "b".into() }),
        dps_error_class(&DpsError::QueryNotSupported("q")),
        dps_error_class(&DpsError::Internal("i".into())),
    ];
    assert_eq!(
        labels,
        ["Transport", "Authorization", "Decode", "Server", "NotFound", "ServerFiscalIdMismatch", "QueryNotSupported", "Internal"]
    );
}

#[test]
fn authorization_kind_class_only_for_authorization() {
    assert_eq!(
        authorization_kind_class(&DpsError::Authorization {
            code: 1,
            kind: AuthorizationKind::FiscalNumberNotRegistered,
            message: "m".into(),
        }),
        Some("FiscalNumberNotRegistered")
    );
    assert_eq!(authorization_kind_class(&DpsError::NotFound), None);
}

#[test]
fn tick_skips_every_mode_but_offline() {
    assert_eq!(
        pre_probe_outcome("FN", None),
        Some(TickOutcome::Skipped { fiscal_number: "FN".into(), reason: SkipReason::NodeStateMissing })
    );
    assert_eq!(
        pre_probe_outcome("FN", Some(NodeMode::Online)),
        Some(TickOutcome::Skipped { fiscal_number: "FN".into(), reason: SkipReason::NodeOnline })
    );
    assert_eq!(
        pre_probe_outcome("FN", Some(NodeMode::GoingOnline)),
        Some(TickOutcome::Skipped { fiscal_number: "FN".into(), reason: SkipReason::NodeAlreadyGoingOnline })
    );
    for mode in [NodeMode::Blocked, NodeMode::StopMode, NodeMode::CryptoDegraded, NodeMode::GoingOffline] {
        assert_eq!(
            pre_probe_outcome("FN", Some(mode)),
            Some(TickOutcome::Skipped {
                fiscal_number: "FN".into(),
                reason: SkipReason::NodeNotOfflineOrTransition
            })
        );
    }
    assert_eq!(pre_probe_outcome("FN", Some(NodeMode::Offline)), None);
}

#[test]
fn online_flag_alone_decides_success() {
    let up = Ok(StatusSnapshot { online: true, open_shift: false, last_signer: None });
    assert_eq!(probe_result_outcome("FN", &up), None);
    let down = Ok(StatusSnapshot { online: false, open_shift: true, last_signer: Some("s".into()) });
    assert_eq!(
        probe_result_outcome("FN", &down),
        Some(TickOutcome::Failed { fiscal_number: "FN".into(), reason: FailureReason::DpsReportsOffline })
    );
    let err: Result<StatusSnapshot, DpsError> = Err(DpsError::Transport("x".into()));
    assert_eq!(
        probe_result_outcome("FN", &err),
        Some(TickOutcome::Failed { fiscal_number: "FN".into(), reason: FailureReason::DpsError })
    );
}

#[test]
fn mode_flip_cas_decides_final_outcome() {
    assert_eq!(
        mode_flip_outcome("FN", 0),
        TickOutcome::Failed { fiscal_number: "FN".into(), reason: FailureReason::CasMiss }
    );
    let ok = mode_flip_outcome("FN", 1);
    assert_eq!(ok, TickOutcome::Success { fiscal_number: "FN".into() });
    assert_eq!(tick_audit(&ok), Some(("RETURN_ONLINE_PROBE_SUCCESS", Severity::Info)));
    assert_eq!(
        tick_audit(&mode_flip_outcome("FN", 0)),
        Some(("RETURN_ONLINE_PROBE_FAILED", Severity::Warning))
    );
    assert_eq!(failure_audit_reason(FailureReason::CasMiss), "cas_miss_concurrent_mode_change");
    assert_eq!(failure_audit_reason(FailureReason::DpsError), "dps_error");
    assert_eq!(failure_audit_reason(FailureReason::DpsReportsOffline), "dps_reports_offline");
}

#[test]
fn offline_surface_stays_shut() {
    assert_eq!(ensure_full_offline_surface_ready(), Err(OfflineSurfaceNotReady));
    assert!(OfflineSurfaceNotReady.message().starts_with("offline operator surface refused"));
}
