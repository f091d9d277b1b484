use prro::model::{DocState, DpsError, NodeMode, OfflineSessionState, RetryClass, Severity, ShiftState};
use prro::offline_session::{session_transition, OfflineSessionService, SessionOp};
use prro::offline_sync::offline_code_replenish::{
    mac_hex, replenish_dps_error, replenish_seed, OfflineCodeReplenishService, ReplenishError,
};
use prro::text::hex_lower;

#[test]
fn replenish_seed_is_sha256_of_request_xml() {
    let (seed, hex) = replenish_seed("abc");
    assert_eq!(hex, "ba7816bf8f01cfea414140de5dae2223b00361a396177a9cb410ff61f20015ad");
    assert_eq!(hex_lower(&seed), hex);
    let (_, empty) = replenish_seed("");
    assert_eq!(empty, "e3b0c44298fc1c149afbf4c8996fb92427ae41e4649b934ca495991b7852b855");
}

#[test]
fn mac_hex_of_last_known_digest() {
    assert_eq!(mac_hex(None), "");
    let mut d = [0u8; 32];
    d[0] = 0xAB;
    d[31] = 0x01;
    let hex = mac_hex(Some(d));
    assert_eq!(hex.len(), 64);
    assert!(hex.starts_with("ab00"));
    assert!(hex.ends_with("0001"));
}

#[test]
fn replenish_errors_map_and_render() {
    assert_eq!(
        replenish_dps_error(DpsError::Server { code: -3, message: "busy".into() }, "ignored".into()),
        ReplenishError::DpsServer { code: -3, message: "busy".into() }
    );
    assert_eq!(
        replenish_dps_error(DpsError::NotFound, "not found".into()),
        ReplenishError::DpsTransport("not found".into())
    );
    assert_eq!(ReplenishError::DpsServer { code: -3, message: "busy".into() }.message(), "DPS server error -3: busy");
    assert_eq!(ReplenishError::NodeStateMissing.message(), "node_state row missing for FN");
    assert_eq!(ReplenishError::Db("x".into()).message(), "DB error: x");
    let svc = OfflineCodeReplenishService::new(1u8, 2u16, 3u32);
    assert_eq!((svc.app, svc.dps, svc.sign_ctx), (1, 2, 3));
}

#[test]
fn session_lifecycle_transitions() {
    let t = session_transition(SessionOp::StartDrain);
    assert_eq!((t.from, t.to, t.event, t.severity), (OfflineSessionState::Open, OfflineSessionState::Draining, "OFFLINE_SESSION_DRAIN_STARTED", Severity::Info));
    let t = session_transition(SessionOp::Close);
    assert_eq!((t.from, t.to), (OfflineSessionState::Draining, OfflineSessionState::Closed));
    let t = session_transition(SessionOp::Abort { from: OfflineSessionState::Open });
    assert_eq!((t.from, t.to, t.event, t.severity), (OfflineSessionState::Open, OfflineSessionState::Aborted, "OFFLINE_SESSION_ABORTED", Severity::Warning));
    assert_eq!(OfflineSessionState::Draining.as_str(), "DRAINING");
    let svc = OfflineSessionService::new("pool");
    assert_eq!(svc.pool, "pool");
}

#[test]
fn wire_names() {
    assert_eq!(DocState::ErrorRetryable.as_str(), "ERROR_RETRYABLE");
    assert_eq!(DocState::Kvt1.as_str(), "KVT1");
    assert_eq!(NodeMode::GoingOnline.as_str(), "GOING_ONLINE");
    assert_eq!(ShiftState::OpenedLocalPendingDrain.as_str(), "OPENED_LOCAL_PENDING_DRAIN");
    assert_eq!(RetryClass::ProbeRequired.as_str(), "ProbeRequired");
}

#[test]
fn wire_names_parse_back() {
    for d in [DocState::Prepared, DocState::Sent, DocState::Kvt1, DocState::Kvt2, DocState::OfflineLocalAck,
        DocState::RequiresManualReconciliation]
    {
        assert_eq!(DocState::from_wire(d.as_str()), Some(d));
    }
    assert_eq!(DocState::from_wire("KVT3"), None);
    assert_eq!(DocState::from_wire("sent"), None);
    assert_eq!(NodeMode::from_wire("GOING_ONLINE"), Some(NodeMode::GoingOnline));
    assert_eq!(NodeMode::from_wire(NodeMode::CryptoDegraded.as_str()), Some(NodeMode::CryptoDegraded));
    assert_eq!(NodeMode::from_wire(""), None);
    assert_eq!(ShiftState::from_wire(ShiftState::OpenedLocalPendingDrain.as_str()), Some(ShiftState::OpenedLocalPendingDrain));
    assert_eq!(ShiftState::from_wire("OPEN"), None);
    assert_eq!(RetryClass::from_wire("ProbeRequired"), Some(RetryClass::ProbeRequired));
    assert_eq!(RetryClass::from_wire("PROBE_REQUIRED"), None);
    assert_eq!(Severity::Warning.as_str(), "WARNING");
    assert_eq!(Severity::Critical.as_str(), "CRITICAL");
}
