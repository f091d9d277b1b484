//! Domain enums and identifiers shared by the service modules.

use vstd::prelude::*;

use crate::text::{bytes_debug, concat, debug_bytes, debug_quoted, i64_decimal, int_decimal, str_debug};

verus! {

/// Fiscal document state machine states.
#[derive(Debug, Clone, Copy, PartialEq, Eq, Structural)]
pub enum DocState {
    Prepared,
    Signed,
    Encrypted,
    Sending,
    Sent,
    Kvt1,
    Kvt2,
    Ack,
    Rejected,
    Cancelled,
    ErrorRetryable,
    OfflineLocalAck,
    RequiresManualReconciliation,
}

/// Per-FN node operating mode.
#[derive(Debug, Clone, Copy, PartialEq, Eq, Structural)]
pub enum NodeMode {
    Online,
    Offline,
    GoingOffline,
    GoingOnline,
    Blocked,
    StopMode,
    CryptoDegraded,
}

/// Shift lifecycle states (including the offline pending-drain ladder).
#[derive(Debug, Clone, Copy, PartialEq, Eq, Structural)]
pub enum ShiftState {
    Created,
    Opening,
    Opened,
    Closing,
    Closed,
    Error,
    RequiresManualReconciliation,
    OpenedLocalPendingDrain,
    ClosingLocalPendingDrain,
}

/// Audit severity.
#[derive(Debug, Clone, Copy, PartialEq, Eq, Structural)]
pub enum Severity {
    Info,
    Warning,
    Error,
    Critical,
}

/// Offline session lifecycle states.
#[derive(Debug, Clone, Copy, PartialEq, Eq, Structural)]
pub enum OfflineSessionState {
    Opening,
    Open,
    Draining,
    Closed,
    Aborted,
}

/// Outcome of a compare-and-set state transition.
#[derive(Debug, Clone, Copy, PartialEq, Eq, Structural)]
pub enum TransitionOutcome {
    Applied,
    Forbidden,
    Conflict,
    NotFound,
}

/// Fiscal document families.
#[derive(Debug, Clone, Copy, PartialEq, Eq, Structural)]
pub enum DocType {
    Sell,
    Return,
    ShiftOpen,
    ShiftClose,
    ZReport,
    ServiceIn,
    ServiceOut,
    CashAdvanceEpz,
}

/// Durable last-attempt retry class recorded on a transport trace.
#[derive(Debug, Clone, Copy, PartialEq, Eq, Structural)]
pub enum RetryClass {
    TransientRetry,
    DrainChainSettleRetry,
    TerminalReject,
    ProbeRequired,
    FnConfigError,
    WrapperBug,
    OperatorEscalation,
    MacRecovery,
}

/// Wire name of a DocState value, as stored in the database.
pub open spec fn docstate_wire(v: DocState) -> Seq<char> {
    match v {
        DocState::Prepared => "PREPARED"@,
        DocState::Signed => "SIGNED"@,
        DocState::Encrypted => "ENCRYPTED"@,
        DocState::Sending => "SENDING"@,
        DocState::Sent => "SENT"@,
        DocState::Kvt1 => "KVT1"@,
        DocState::Kvt2 => "KVT2"@,
        DocState::Ack => "ACK"@,
        DocState::Rejected => "REJECTED"@,
        DocState::Cancelled => "CANCELLED"@,
        DocState::ErrorRetryable => "ERROR_RETRYABLE"@,
        DocState::OfflineLocalAck => "OFFLINE_LOCAL_ACK"@,
        DocState::RequiresManualReconciliation => "REQUIRES_MANUAL_RECONCILIATION"@,
    }
}

impl DocState {
    /// Wire name, as stored in the database.
    pub fn as_str(&self) -> (r: &'static str)
        ensures
            r@ == docstate_wire(*self),
    {
        match self {
            DocState::Prepared => "PREPARED",
            DocState::Signed => "SIGNED",
            DocState::Encrypted => "ENCRYPTED",
            DocState::Sending => "SENDING",
            DocState::Sent => "SENT",
            DocState::Kvt1 => "KVT1",
            DocState::Kvt2 => "KVT2",
            DocState::Ack => "ACK",
            DocState::Rejected => "REJECTED",
            DocState::Cancelled => "CANCELLED",
            DocState::ErrorRetryable => "ERROR_RETRYABLE",
            DocState::OfflineLocalAck => "OFFLINE_LOCAL_ACK",
            DocState::RequiresManualReconciliation => "REQUIRES_MANUAL_RECONCILIATION",
        }
    }
}

/// Wire name of a NodeMode value, as stored in the database.
pub open spec fn nodemode_wire(v: NodeMode) -> Seq<char> {
    match v {
        NodeMode::Online => "ONLINE"@,
        NodeMode::Offline => "OFFLINE"@,
        NodeMode::GoingOffline => "GOING_OFFLINE"@,
        NodeMode::GoingOnline => "GOING_ONLINE"@,
        NodeMode::Blocked => "BLOCKED"@,
        NodeMode::StopMode => "STOP_MODE"@,
        NodeMode::CryptoDegraded => "CRYPTO_DEGRADED"@,
    }
}

impl NodeMode {
    /// Wire name, as stored in the database.
    pub fn as_str(&self) -> (r: &'static str)
        ensures
            r@ == nodemode_wire(*self),
    {
        match self {
            NodeMode::Online => "ONLINE",
            NodeMode::Offline => "OFFLINE",
            NodeMode::GoingOffline => "GOING_OFFLINE",
            NodeMode::GoingOnline => "GOING_ONLINE",
            NodeMode::Blocked => "BLOCKED",
            NodeMode::StopMode => "STOP_MODE",
            NodeMode::CryptoDegraded => "CRYPTO_DEGRADED",
        }
    }
}

/// Wire name of a ShiftState value, as stored in the database.
pub open spec fn shiftstate_wire(v: ShiftState) -> Seq<char> {
    match v {
        ShiftState::Created => "CREATED"@,
        ShiftState::Opening => "OPENING"@,
        ShiftState::Opened => "OPENED"@,
        ShiftState::Closing => "CLOSING"@,
        ShiftState::Closed => "CLOSED"@,
        ShiftState::Error => "ERROR"@,
        ShiftState::RequiresManualReconciliation => "REQUIRES_MANUAL_RECONCILIATION"@,
        ShiftState::OpenedLocalPendingDrain => "OPENED_LOCAL_PENDING_DRAIN"@,
        ShiftState::ClosingLocalPendingDrain => "CLOSING_LOCAL_PENDING_DRAIN"@,
    }
}

impl ShiftState {
    /// Wire name, as stored in the database.
    pub fn as_str(&self) -> (r: &'static str)
        ensures
            r@ == shiftstate_wire(*self),
    {
        match self {
            ShiftState::Created => "CREATED",
            ShiftState::Opening => "OPENING",
            ShiftState::Opened => "OPENED",
            ShiftState::Closing => "CLOSING",
            ShiftState::Closed => "CLOSED",
            ShiftState::Error => "ERROR",
            ShiftState::RequiresManualReconciliation => "REQUIRES_MANUAL_RECONCILIATION",
            ShiftState::OpenedLocalPendingDrain => "OPENED_LOCAL_PENDING_DRAIN",
            ShiftState::ClosingLocalPendingDrain => "CLOSING_LOCAL_PENDING_DRAIN",
        }
    }
}

/// Wire name of a retry class, as persisted in `transport_trace.retry_class`.
pub open spec fn retry_class_name(c: RetryClass) -> Seq<char> {
    match c {
        RetryClass::TransientRetry => "TransientRetry"@,
        RetryClass::DrainChainSettleRetry => "DrainChainSettleRetry"@,
        RetryClass::TerminalReject => "TerminalReject"@,
        RetryClass::ProbeRequired => "ProbeRequired"@,
        RetryClass::FnConfigError => "FnConfigError"@,
        RetryClass::WrapperBug => "WrapperBug"@,
        RetryClass::OperatorEscalation => "OperatorEscalation"@,
        RetryClass::MacRecovery => "MacRecovery"@,
    }
}

impl RetryClass {
    /// The wire name of this class.
    pub fn as_str(&self) -> (r: &'static str)
        ensures
            r@ == retry_class_name(*self),
    {
        match self {
            RetryClass::TransientRetry => "TransientRetry",
            RetryClass::DrainChainSettleRetry => "DrainChainSettleRetry",
            RetryClass::TerminalReject => "TerminalReject",
            RetryClass::ProbeRequired => "ProbeRequired",
            RetryClass::FnConfigError => "FnConfigError",
            RetryClass::WrapperBug => "WrapperBug",
            RetryClass::OperatorEscalation => "OperatorEscalation",
            RetryClass::MacRecovery => "MacRecovery",
        }
    }
}

/// 16-byte document identifier.
#[derive(Debug, Clone, Copy, PartialEq, Eq)]
pub struct DocumentId {
    pub bytes: [u8; 16],
}

impl DocumentId {
    pub fn from_bytes(bytes: [u8; 16]) -> (r: DocumentId)
        ensures
            r.bytes == bytes,
    {
        DocumentId { bytes }
    }

    pub fn as_bytes(&self) -> (r: &[u8; 16])
        ensures
            *r == self.bytes,
    {
        &self.bytes
    }
}


/// SHA-256 digest of a raw DPS response, carried by some errors.
#[derive(Debug, Clone, Copy, PartialEq, Eq)]
pub struct RawResponseDigest(pub [u8; 32]);

/// DPS authorization rejection kinds.
#[derive(Debug, Clone, Copy, PartialEq, Eq, Structural)]
pub enum AuthorizationKind {
    DocumentReject,
    FiscalNumberNotRegistered,
}

/// Typed DPS channel error.
#[derive(Debug, Clone, PartialEq, Eq)]
pub enum DpsError {
    Transport(String),
    RemoteStatus { code: String, message: String, digest: RawResponseDigest },
    Indeterminate { code: i32, message: String, digest: RawResponseDigest },
    Authorization { code: i32, kind: AuthorizationKind, message: String },
    Decode(String),
    Server { code: i32, message: String },
    NotFound,
    ServerFiscalIdMismatch { expected_id: String, actual_id: String },
    QueryNotSupported(&'static str),
    Internal(String),
}

/// DPS acknowledgement of a check.
#[derive(Debug, Clone, PartialEq, Eq)]
pub struct CheckAck {
    pub id: String,
    pub id_sign: Vec<u8>,
    pub data_sign: Vec<u8>,
}

/// Signer blob of a fiscal number, handed verbatim to the DPS channel.
#[derive(Debug, Clone, PartialEq, Eq)]
pub struct CheckSignBlob(pub Vec<u8>);

/// DPS `statusRro` snapshot.
#[derive(Debug, Clone, PartialEq, Eq)]
pub struct StatusSnapshot {
    pub online: bool,
    pub open_shift: bool,
    pub last_signer: Option<String>,
}

/// Debug name of a document state.
pub open spec fn doc_state_name(s: DocState) -> Seq<char> {
    match s {
        DocState::Prepared => "Prepared"@,
        DocState::Signed => "Signed"@,
        DocState::Encrypted => "Encrypted"@,
        DocState::Sending => "Sending"@,
        DocState::Sent => "Sent"@,
        DocState::Kvt1 => "Kvt1"@,
        DocState::Kvt2 => "Kvt2"@,
        DocState::Ack => "Ack"@,
        DocState::Rejected => "Rejected"@,
        DocState::Cancelled => "Cancelled"@,
        DocState::ErrorRetryable => "ErrorRetryable"@,
        DocState::OfflineLocalAck => "OfflineLocalAck"@,
        DocState::RequiresManualReconciliation => "RequiresManualReconciliation"@,
    }
}

impl DocState {
    /// The variant name, as `{:?}` renders it.
    pub fn debug_name(self) -> (r: &'static str)
        ensures
            r@ == doc_state_name(self),
    {
        match self {
            DocState::Prepared => "Prepared",
            DocState::Signed => "Signed",
            DocState::Encrypted => "Encrypted",
            DocState::Sending => "Sending",
            DocState::Sent => "Sent",
            DocState::Kvt1 => "Kvt1",
            DocState::Kvt2 => "Kvt2",
            DocState::Ack => "Ack",
            DocState::Rejected => "Rejected",
            DocState::Cancelled => "Cancelled",
            DocState::ErrorRetryable => "ErrorRetryable",
            DocState::OfflineLocalAck => "OfflineLocalAck",
            DocState::RequiresManualReconciliation => "RequiresManualReconciliation",
        }
    }
}

impl AuthorizationKind {
    /// The variant name, as `{:?}` renders it.
    pub fn debug_name(self) -> (r: &'static str)
        ensures
            r@ == (match self {
                AuthorizationKind::DocumentReject => "DocumentReject"@,
                AuthorizationKind::FiscalNumberNotRegistered => "FiscalNumberNotRegistered"@,
            }),
    {
        match self {
            AuthorizationKind::DocumentReject => "DocumentReject",
            AuthorizationKind::FiscalNumberNotRegistered => "FiscalNumberNotRegistered",
        }
    }
}


/// `{:?}` rendering of a response digest.
pub open spec fn digest_debug(d: RawResponseDigest) -> Seq<char> {
    "RawResponseDigest("@ + bytes_debug(d.0@) + ")"@
}

/// `{:?}` rendering of a DPS error.
pub open spec fn dps_error_debug(e: DpsError) -> Seq<char> {
    match e {
        DpsError::Transport(m) => "Transport("@ + str_debug(m@) + ")"@,
        DpsError::RemoteStatus { code, message, digest } => "RemoteStatus { code: "@ + str_debug(code@)
            + ", message: "@ + str_debug(message@) + ", digest: "@ + digest_debug(digest) + " }"@,
        DpsError::Indeterminate { code, message, digest } => "Indeterminate { code: "@ + int_decimal(code as int)
            + ", message: "@ + str_debug(message@) + ", digest: "@ + digest_debug(digest) + " }"@,
        DpsError::Authorization { code, kind, message } => "Authorization { code: "@ + int_decimal(code as int)
            + ", kind: "@ + authorization_kind_name(kind) + ", message: "@ + str_debug(message@) + " }"@,
        DpsError::Decode(m) => "Decode("@ + str_debug(m@) + ")"@,
        DpsError::Server { code, message } => "Server { code: "@ + int_decimal(code as int) + ", message: "@
            + str_debug(message@) + " }"@,
        DpsError::NotFound => "NotFound"@,
        DpsError::ServerFiscalIdMismatch { expected_id, actual_id } => "ServerFiscalIdMismatch { expected_id: "@
            + str_debug(expected_id@) + ", actual_id: "@ + str_debug(actual_id@) + " }"@,
        DpsError::QueryNotSupported(q) => "QueryNotSupported("@ + str_debug(q@) + ")"@,
        DpsError::Internal(m) => "Internal("@ + str_debug(m@) + ")"@,
    }
}

pub open spec fn authorization_kind_name(k: AuthorizationKind) -> Seq<char> {
    match k {
        AuthorizationKind::DocumentReject => "DocumentReject"@,
        AuthorizationKind::FiscalNumberNotRegistered => "FiscalNumberNotRegistered"@,
    }
}

fn debug_digest(d: &RawResponseDigest) -> (r: String)
    ensures
        r@ == digest_debug(*d),
{
    let s = concat("RawResponseDigest(".to_string(), debug_bytes(&d.0).as_str());
    concat(s, ")")
}

impl DpsError {
    /// The `{:?}` rendering of this error.
    pub fn debug_text(&self) -> (r: String)
        ensures
            r@ == dps_error_debug(*self),
    {
        match self {
            DpsError::Transport(m) => concat(concat("Transport(".to_string(), debug_quoted(m.as_str()).as_str()), ")"),
            DpsError::RemoteStatus { code, message, digest } => {
                let s = concat("RemoteStatus { code: ".to_string(), debug_quoted(code.as_str()).as_str());
                let s = concat(s, ", message: ");
                let s = concat(s, debug_quoted(message.as_str()).as_str());
                let s = concat(s, ", digest: ");
                let s = concat(s, debug_digest(digest).as_str());
                concat(s, " }")
            },
            DpsError::Indeterminate { code, message, digest } => {
                let s = concat("Indeterminate { code: ".to_string(), i64_decimal(*code as i64).as_str());
                let s = concat(s, ", message: ");
                let s = concat(s, debug_quoted(message.as_str()).as_str());
                let s = concat(s, ", digest: ");
                let s = concat(s, debug_digest(digest).as_str());
                concat(s, " }")
            },
            DpsError::Authorization { code, kind, message } => {
                let s = concat("Authorization { code: ".to_string(), i64_decimal(*code as i64).as_str());
                let s = concat(s, ", kind: ");
                let s = concat(s, kind.debug_name());
                let s = concat(s, ", message: ");
                let s = concat(s, debug_quoted(message.as_str()).as_str());
                concat(s, " }")
            },
            DpsError::Decode(m) => concat(concat("Decode(".to_string(), debug_quoted(m.as_str()).as_str()), ")"),
            DpsError::Server { code, message } => {
                let s = concat("Server { code: ".to_string(), i64_decimal(*code as i64).as_str());
                let s = concat(s, ", message: ");
                let s = concat(s, debug_quoted(message.as_str()).as_str());
                concat(s, " }")
            },
            DpsError::NotFound => "NotFound".to_string(),
            DpsError::ServerFiscalIdMismatch { expected_id, actual_id } => {
                let s = concat("ServerFiscalIdMismatch { expected_id: ".to_string(), debug_quoted(expected_id.as_str()).as_str());
                let s = concat(s, ", actual_id: ");
                let s = concat(s, debug_quoted(actual_id.as_str()).as_str());
                concat(s, " }")
            },
            DpsError::QueryNotSupported(q) => concat(concat("QueryNotSupported(".to_string(), debug_quoted(q).as_str()), ")"),
            DpsError::Internal(m) => concat(concat("Internal(".to_string(), debug_quoted(m.as_str()).as_str()), ")"),
        }
    }
}

// ─── Parsing wire names ──────────────────────────────────────────────

/// Whether `s` holds exactly the text `lit`.
fn wire_is(s: &String, lit: &str) -> (r: bool)
    ensures
        r == (s@ == lit@),
{
    s.eq(&lit.to_owned())
}

impl DocState {
    /// The value whose wire name is `s`; `None` for any other text.
    /// Inverse of `as_str`: each value's wire name parses back to it.
    pub fn from_wire(s: &str) -> (r: Option<DocState>)
        ensures
            match r {
                Some(v) => docstate_wire(v) == s@,
                None => forall|v: DocState| docstate_wire(v) != s@,
            },
            forall|v: DocState| #[trigger] docstate_wire(v) == s@ ==> r == Some(v),
    {
        let owned = s.to_owned();
        let r =         if wire_is(&owned, "PREPARED") {
            Some(DocState::Prepared)
        } else if wire_is(&owned, "SIGNED") {
            Some(DocState::Signed)
        } else if wire_is(&owned, "ENCRYPTED") {
            Some(DocState::Encrypted)
        } else if wire_is(&owned, "SENDING") {
            Some(DocState::Sending)
        } else if wire_is(&owned, "SENT") {
            Some(DocState::Sent)
        } else if wire_is(&owned, "KVT1") {
            Some(DocState::Kvt1)
        } else if wire_is(&owned, "KVT2") {
            Some(DocState::Kvt2)
        } else if wire_is(&owned, "ACK") {
            Some(DocState::Ack)
        } else if wire_is(&owned, "REJECTED") {
            Some(DocState::Rejected)
        } else if wire_is(&owned, "CANCELLED") {
            Some(DocState::Cancelled)
        } else if wire_is(&owned, "ERROR_RETRYABLE") {
            Some(DocState::ErrorRetryable)
        } else if wire_is(&owned, "OFFLINE_LOCAL_ACK") {
            Some(DocState::OfflineLocalAck)
        } else if wire_is(&owned, "REQUIRES_MANUAL_RECONCILIATION") {
            Some(DocState::RequiresManualReconciliation)
        } else {
            None
        };
        proof {
            assert forall|v: DocState| #[trigger] docstate_wire(v) == s@ implies r == Some(v) by {
                if let Some(w) = r {
                    docstate_wire_injective(v, w);
                }
            }
        }
        r
    }
}

impl NodeMode {
    /// The value whose wire name is `s`; `None` for any other text.
    /// Inverse of `as_str`: each value's wire name parses back to it.
    pub fn from_wire(s: &str) -> (r: Option<NodeMode>)
        ensures
            match r {
                Some(v) => nodemode_wire(v) == s@,
                None => forall|v: NodeMode| nodemode_wire(v) != s@,
            },
            forall|v: NodeMode| #[trigger] nodemode_wire(v) == s@ ==> r == Some(v),
    {
        let owned = s.to_owned();
        let r =         if wire_is(&owned, "ONLINE") {
            Some(NodeMode::Online)
        } else if wire_is(&owned, "OFFLINE") {
            Some(NodeMode::Offline)
        } else if wire_is(&owned, "GOING_OFFLINE") {
            Some(NodeMode::GoingOffline)
        } else if wire_is(&owned, "GOING_ONLINE") {
            Some(NodeMode::GoingOnline)
        } else if wire_is(&owned, "BLOCKED") {
            Some(NodeMode::Blocked)
        } else if wire_is(&owned, "STOP_MODE") {
            Some(NodeMode::StopMode)
        } else if wire_is(&owned, "CRYPTO_DEGRADED") {
            Some(NodeMode::CryptoDegraded)
        } else {
            None
        };
        proof {
            assert forall|v: NodeMode| #[trigger] nodemode_wire(v) == s@ implies r == Some(v) by {
                if let Some(w) = r {
                    nodemode_wire_injective(v, w);
                }
            }
        }
        r
    }
}

impl ShiftState {
    /// The value whose wire name is `s`; `None` for any other text.
    /// Inverse of `as_str`: each value's wire name parses back to it.
    pub fn from_wire(s: &str) -> (r: Option<ShiftState>)
        ensures
            match r {
                Some(v) => shiftstate_wire(v) == s@,
                None => forall|v: ShiftState| shiftstate_wire(v) != s@,
            },
            forall|v: ShiftState| #[trigger] shiftstate_wire(v) == s@ ==> r == Some(v),
    {
        let owned = s.to_owned();
        let r =         if wire_is(&owned, "CREATED") {
            Some(ShiftState::Created)
        } else if wire_is(&owned, "OPENING") {
            Some(ShiftState::Opening)
        } else if wire_is(&owned, "OPENED") {
            Some(ShiftState::Opened)
        } else if wire_is(&owned, "CLOSING") {
            Some(ShiftState::Closing)
        } else if wire_is(&owned, "CLOSED") {
            Some(ShiftState::Closed)
        } else if wire_is(&owned, "ERROR") {
            Some(ShiftState::Error)
        } else if wire_is(&owned, "REQUIRES_MANUAL_RECONCILIATION") {
            Some(ShiftState::RequiresManualReconciliation)
        } else if wire_is(&owned, "OPENED_LOCAL_PENDING_DRAIN") {
            Some(ShiftState::OpenedLocalPendingDrain)
        } else if wire_is(&owned, "CLOSING_LOCAL_PENDING_DRAIN") {
            Some(ShiftState::ClosingLocalPendingDrain)
        } else {
            None
        };
        proof {
            assert forall|v: ShiftState| #[trigger] shiftstate_wire(v) == s@ implies r == Some(v) by {
                if let Some(w) = r {
                    shiftstate_wire_injective(v, w);
                }
            }
        }
        r
    }
}

impl RetryClass {
    /// The value whose wire name is `s`; `None` for any other text.
    /// Inverse of `as_str`: each value's wire name parses back to it.
    pub fn from_wire(s: &str) -> (r: Option<RetryClass>)
        ensures
            match r {
                Some(v) => retry_class_name(v) == s@,
                None => forall|v: RetryClass| retry_class_name(v) != s@,
            },
            forall|v: RetryClass| #[trigger] retry_class_name(v) == s@ ==> r == Some(v),
    {
        let owned = s.to_owned();
        let r =         if wire_is(&owned, "TransientRetry") {
            Some(RetryClass::TransientRetry)
        } else if wire_is(&owned, "DrainChainSettleRetry") {
            Some(RetryClass::DrainChainSettleRetry)
        } else if wire_is(&owned, "TerminalReject") {
            Some(RetryClass::TerminalReject)
        } else if wire_is(&owned, "ProbeRequired") {
            Some(RetryClass::ProbeRequired)
        } else if wire_is(&owned, "FnConfigError") {
            Some(RetryClass::FnConfigError)
        } else if wire_is(&owned, "WrapperBug") {
            Some(RetryClass::WrapperBug)
        } else if wire_is(&owned, "OperatorEscalation") {
            Some(RetryClass::OperatorEscalation)
        } else if wire_is(&owned, "MacRecovery") {
            Some(RetryClass::MacRecovery)
        } else {
            None
        };
        proof {
            assert forall|v: RetryClass| #[trigger] retry_class_name(v) == s@ implies r == Some(v) by {
                if let Some(w) = r {
                    retry_class_name_injective(v, w);
                }
            }
        }
        r
    }
}

/// Wire name of an audit severity.
pub open spec fn severity_wire(s: Severity) -> Seq<char> {
    match s {
        Severity::Info => "INFO"@,
        Severity::Warning => "WARNING"@,
        Severity::Error => "ERROR"@,
        Severity::Critical => "CRITICAL"@,
    }
}

impl Severity {
    /// Wire name, as stored in the audit log.
    pub fn as_str(&self) -> (r: &'static str)
        ensures
            r@ == severity_wire(*self),
    {
        match self {
            Severity::Info => "INFO",
            Severity::Warning => "WARNING",
            Severity::Error => "ERROR",
            Severity::Critical => "CRITICAL",
        }
    }
}

/// Distinct values have distinct wire names, so `from_wire` of a wire
/// name gives back the value it names.
pub proof fn docstate_wire_injective(a: DocState, b: DocState)
    requires
        docstate_wire(a) == docstate_wire(b),
    ensures
        a == b,
{
    reveal_strlit("PREPARED");
    assert("PREPARED"@.len() == 8);
    reveal_strlit("SIGNED");
    assert("SIGNED"@.len() == 6);
    reveal_strlit("ENCRYPTED");
    assert("ENCRYPTED"@.len() == 9);
    reveal_strlit("SENDING");
    assert("SENDING"@.len() == 7);
    reveal_strlit("SENT");
    assert("SENT"@.len() == 4);
    reveal_strlit("KVT1");
    assert("KVT1"@.len() == 4);
    reveal_strlit("KVT2");
    assert("KVT2"@.len() == 4);
    reveal_strlit("ACK");
    assert("ACK"@.len() == 3);
    reveal_strlit("REJECTED");
    assert("REJECTED"@.len() == 8);
    reveal_strlit("CANCELLED");
    assert("CANCELLED"@.len() == 9);
    reveal_strlit("ERROR_RETRYABLE");
    assert("ERROR_RETRYABLE"@.len() == 15);
    reveal_strlit("OFFLINE_LOCAL_ACK");
    assert("OFFLINE_LOCAL_ACK"@.len() == 17);
    reveal_strlit("REQUIRES_MANUAL_RECONCILIATION");
    assert("REQUIRES_MANUAL_RECONCILIATION"@.len() == 30);
    match a {
        DocState::Prepared => match b {
            DocState::Rejected => assert(docstate_wire(a)[0] == 'P' && docstate_wire(b)[0] == 'R'),
            _ => {},
        },
        DocState::Signed => {},
        DocState::Encrypted => match b {
            DocState::Cancelled => assert(docstate_wire(a)[0] == 'E' && docstate_wire(b)[0] == 'C'),
            _ => {},
        },
        DocState::Sending => {},
        DocState::Sent => match b {
            DocState::Kvt1 => assert(docstate_wire(a)[0] == 'S' && docstate_wire(b)[0] == 'K'),
            DocState::Kvt2 => assert(docstate_wire(a)[0] == 'S' && docstate_wire(b)[0] == 'K'),
            _ => {},
        },
        DocState::Kvt1 => match b {
            DocState::Sent => assert(docstate_wire(a)[0] == 'K' && docstate_wire(b)[0] == 'S'),
            DocState::Kvt2 => assert(docstate_wire(a)[3] == '1' && docstate_wire(b)[3] == '2'),
            _ => {},
        },
        DocState::Kvt2 => match b {
            DocState::Sent => assert(docstate_wire(a)[0] == 'K' && docstate_wire(b)[0] == 'S'),
            DocState::Kvt1 => assert(docstate_wire(a)[3] == '2' && docstate_wire(b)[3] == '1'),
            _ => {},
        },
        DocState::Ack => {},
        DocState::Rejected => match b {
            DocState::Prepared => assert(docstate_wire(a)[0] == 'R' && docstate_wire(b)[0] == 'P'),
            _ => {},
        },
        DocState::Cancelled => match b {
            DocState::Encrypted => assert(docstate_wire(a)[0] == 'C' && docstate_wire(b)[0] == 'E'),
            _ => {},
        },
        DocState::ErrorRetryable => {},
        DocState::OfflineLocalAck => {},
        DocState::RequiresManualReconciliation => {},
    }
}

/// Distinct values have distinct wire names, so `from_wire` of a wire
/// name gives back the value it names.
pub proof fn nodemode_wire_injective(a: NodeMode, b: NodeMode)
    requires
        nodemode_wire(a) == nodemode_wire(b),
    ensures
        a == b,
{
    reveal_strlit("ONLINE");
    assert("ONLINE"@.len() == 6);
    reveal_strlit("OFFLINE");
    assert("OFFLINE"@.len() == 7);
    reveal_strlit("GOING_OFFLINE");
    assert("GOING_OFFLINE"@.len() == 13);
    reveal_strlit("GOING_ONLINE");
    assert("GOING_ONLINE"@.len() == 12);
    reveal_strlit("BLOCKED");
    assert("BLOCKED"@.len() == 7);
    reveal_strlit("STOP_MODE");
    assert("STOP_MODE"@.len() == 9);
    reveal_strlit("CRYPTO_DEGRADED");
    assert("CRYPTO_DEGRADED"@.len() == 15);
    match a {
        NodeMode::Online => {},
        NodeMode::Offline => match b {
            NodeMode::Blocked => assert(nodemode_wire(a)[0] == 'O' && nodemode_wire(b)[0] == 'B'),
            _ => {},
        },
        NodeMode::GoingOffline => {},
        NodeMode::GoingOnline => {},
        NodeMode::Blocked => match b {
            NodeMode::Offline => assert(nodemode_wire(a)[0] == 'B' && nodemode_wire(b)[0] == 'O'),
            _ => {},
        },
        NodeMode::StopMode => {},
        NodeMode::CryptoDegraded => {},
    }
}

/// Distinct values have distinct wire names, so `from_wire` of a wire
/// name gives back the value it names.
pub proof fn shiftstate_wire_injective(a: ShiftState, b: ShiftState)
    requires
        shiftstate_wire(a) == shiftstate_wire(b),
    ensures
        a == b,
{
    reveal_strlit("CREATED");
    assert("CREATED"@.len() == 7);
    reveal_strlit("OPENING");
    assert("OPENING"@.len() == 7);
    reveal_strlit("OPENED");
    assert("OPENED"@.len() == 6);
    reveal_strlit("CLOSING");
    assert("CLOSING"@.len() == 7);
    reveal_strlit("CLOSED");
    assert("CLOSED"@.len() == 6);
    reveal_strlit("ERROR");
    assert("ERROR"@.len() == 5);
    reveal_strlit("REQUIRES_MANUAL_RECONCILIATION");
    assert("REQUIRES_MANUAL_RECONCILIATION"@.len() == 30);
    reveal_strlit("OPENED_LOCAL_PENDING_DRAIN");
    assert("OPENED_LOCAL_PENDING_DRAIN"@.len() == 26);
    reveal_strlit("CLOSING_LOCAL_PENDING_DRAIN");
    assert("CLOSING_LOCAL_PENDING_DRAIN"@.len() == 27);
    match a {
        ShiftState::Created => match b {
            ShiftState::Opening => assert(shiftstate_wire(a)[0] == 'C' && shiftstate_wire(b)[0] == 'O'),
            ShiftState::Closing => assert(shiftstate_wire(a)[1] == 'R' && shiftstate_wire(b)[1] == 'L'),
            _ => {},
        },
        ShiftState::Opening => match b {
            ShiftState::Created => assert(shiftstate_wire(a)[0] == 'O' && shiftstate_wire(b)[0] == 'C'),
            ShiftState::Closing => assert(shiftstate_wire(a)[0] == 'O' && shiftstate_wire(b)[0] == 'C'),
            _ => {},
        },
        ShiftState::Opened => match b {
            ShiftState::Closed => assert(shiftstate_wire(a)[0] == 'O' && shiftstate_wire(b)[0] == 'C'),
            _ => {},
        },
        ShiftState::Closing => match b {
            ShiftState::Created => assert(shiftstate_wire(a)[1] == 'L' && shiftstate_wire(b)[1] == 'R'),
            ShiftState::Opening => assert(shiftstate_wire(a)[0] == 'C' && shiftstate_wire(b)[0] == 'O'),
            _ => {},
        },
        ShiftState::Closed => match b {
            ShiftState::Opened => assert(shiftstate_wire(a)[0] == 'C' && shiftstate_wire(b)[0] == 'O'),
            _ => {},
        },
        ShiftState::Error => {},
        ShiftState::RequiresManualReconciliation => {},
        ShiftState::OpenedLocalPendingDrain => {},
        ShiftState::ClosingLocalPendingDrain => {},
    }
}

/// Distinct values have distinct wire names, so `from_wire` of a wire
/// name gives back the value it names.
pub proof fn retry_class_name_injective(a: RetryClass, b: RetryClass)
    requires
        retry_class_name(a) == retry_class_name(b),
    ensures
        a == b,
{
    reveal_strlit("TransientRetry");
    assert("TransientRetry"@.len() == 14);
    reveal_strlit("DrainChainSettleRetry");
    assert("DrainChainSettleRetry"@.len() == 21);
    reveal_strlit("TerminalReject");
    assert("TerminalReject"@.len() == 14);
    reveal_strlit("ProbeRequired");
    assert("ProbeRequired"@.len() == 13);
    reveal_strlit("FnConfigError");
    assert("FnConfigError"@.len() == 13);
    reveal_strlit("WrapperBug");
    assert("WrapperBug"@.len() == 10);
    reveal_strlit("OperatorEscalation");
    assert("OperatorEscalation"@.len() == 18);
    reveal_strlit("MacRecovery");
    assert("MacRecovery"@.len() == 11);
    match a {
        RetryClass::TransientRetry => match b {
            RetryClass::TerminalReject => assert(retry_class_name(a)[1] == 'r' && retry_class_name(b)[1] == 'e'),
            _ => {},
        },
        RetryClass::DrainChainSettleRetry => {},
        RetryClass::TerminalReject => match b {
            RetryClass::TransientRetry => assert(retry_class_name(a)[1] == 'e' && retry_class_name(b)[1] == 'r'),
            _ => {},
        },
        RetryClass::ProbeRequired => match b {
            RetryClass::FnConfigError => assert(retry_class_name(a)[0] == 'P' && retry_class_name(b)[0] == 'F'),
            _ => {},
        },
        RetryClass::FnConfigError => match b {
            RetryClass::ProbeRequired => assert(retry_class_name(a)[0] == 'F' && retry_class_name(b)[0] == 'P'),
            _ => {},
        },
        RetryClass::WrapperBug => {},
        RetryClass::OperatorEscalation => {},
        RetryClass::MacRecovery => {},
    }
}

/// Distinct values have distinct wire names, so `from_wire` of a wire
/// name gives back the value it names.
pub proof fn severity_wire_injective(a: Severity, b: Severity)
    requires
        severity_wire(a) == severity_wire(b),
    ensures
        a == b,
{
    reveal_strlit("INFO");
    assert("INFO"@.len() == 4);
    reveal_strlit("WARNING");
    assert("WARNING"@.len() == 7);
    reveal_strlit("ERROR");
    assert("ERROR"@.len() == 5);
    reveal_strlit("CRITICAL");
    assert("CRITICAL"@.len() == 8);
    match a {
        Severity::Info => {},
        Severity::Warning => {},
        Severity::Error => {},
        Severity::Critical => {},
    }
}

} // verus!
