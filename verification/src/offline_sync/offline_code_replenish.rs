//! Offline code replenishment (T=112): the values a replenish run derives.
//!
//! A run builds the T=112 request with the MAC of the last known unsigned
//! XML, asks the DPS for offline codes, and then chains the FN onto a new
//! seed: the SHA-256 of the request XML.  The orchestrator performs the DPS
//! call and the database writes; this module derives the MAC, the new seed
//! and the error a failed step reports.
use vstd::prelude::*;

use crate::digest::{sha256, sha256_of};
use vstd::string::StringSliceAdditionalSpecFns;
use crate::model::DpsError;
use crate::text::{concat, hex_lower, hex_lower_spec, i64_decimal, int_decimal};

verus! {

/// What a successful replenish run reports.
#[derive(Debug, Clone, PartialEq, Eq)]
pub struct ReplenishSummary {
    pub codes_received: usize,
    pub inserted: u64,
    pub deduped: u64,
    pub new_seed_hex: String,
    pub request_xml: String,
}

/// Why a replenish run failed.  Errors of other components are carried as
/// their rendered text.
#[derive(Debug, Clone, PartialEq, Eq)]
pub enum ReplenishError {
    T112Build(String),
    Sign(String),
    DpsServer { code: i32, message: String },
    DpsTransport(String),
    NodeStateMissing,
    SeedUpdateMissing,
    Db(String),
    Internal(String),
}

/// The operator-facing text of a replenish error.
pub open spec fn replenish_error_text(e: ReplenishError) -> Seq<char> {
    match e {
        ReplenishError::T112Build(d) => "T=112 build error: "@ + d@,
        ReplenishError::Sign(d) => "CMS sign error: "@ + d@,
        ReplenishError::DpsServer { code, message } => "DPS server error "@ + int_decimal(code as int)
            + ": "@ + message@,
        ReplenishError::DpsTransport(m) => "DPS transport error: "@ + m@,
        ReplenishError::NodeStateMissing => "node_state row missing for FN"@,
        ReplenishError::SeedUpdateMissing => "seed update returned false (node_state row missing during persist)"@,
        ReplenishError::Db(d) => "DB error: "@ + d@,
        ReplenishError::Internal(d) => "internal error: "@ + d@,
    }
}

impl ReplenishError {
    /// The operator-facing text of this error.
    pub fn message(&self) -> (r: String)
        ensures
            r@ == replenish_error_text(*self),
    {
        match self {
            ReplenishError::T112Build(d) => concat("T=112 build error: ".to_string(), d.as_str()),
            ReplenishError::Sign(d) => concat("CMS sign error: ".to_string(), d.as_str()),
            ReplenishError::DpsServer { code, message } => {
                let s = concat("DPS server error ".to_string(), i64_decimal(*code as i64).as_str());
                let s = concat(s, ": ");
                concat(s, message.as_str())
            },
            ReplenishError::DpsTransport(m) => concat("DPS transport error: ".to_string(), m.as_str()),
            ReplenishError::NodeStateMissing => "node_state row missing for FN".to_string(),
            ReplenishError::SeedUpdateMissing => "seed update returned false (node_state row missing during persist)".to_string(),
            ReplenishError::Db(d) => concat("DB error: ".to_string(), d.as_str()),
            ReplenishError::Internal(d) => concat("internal error: ".to_string(), d.as_str()),
        }
    }
}

/// The replenish service: the application handle, the DPS channel and the
/// signing context it works with.
pub struct OfflineCodeReplenishService<A, D, S> {
    pub app: A,
    pub dps: D,
    pub sign_ctx: S,
}

impl<A, D, S> OfflineCodeReplenishService<A, D, S> {
    /// A service over the given parts.
    pub fn new(app: A, dps: D, sign_ctx: S) -> (r: Self)
        ensures
            r.app == app,
            r.dps == dps,
            r.sign_ctx == sign_ctx,
    {
        OfflineCodeReplenishService { app, dps, sign_ctx }
    }
}

/// The MAC that chains a T=112 request onto the FN's history: the lowercase
/// hex of the last known unsigned-XML SHA-256, or empty when there is none.
pub open spec fn mac_hex_of(last_known_unsigned_xml_sha256: Option<[u8; 32]>) -> Seq<char> {
    match last_known_unsigned_xml_sha256 {
        None => Seq::empty(),
        Some(d) => hex_lower_spec(d@),
    }
}

/// The request MAC for the last known unsigned-XML digest.
pub fn mac_hex(last_known_unsigned_xml_sha256: Option<[u8; 32]>) -> (r: String)
    ensures
        r@ == mac_hex_of(last_known_unsigned_xml_sha256),
{
    match last_known_unsigned_xml_sha256 {
        None => String::new(),
        Some(d) => hex_lower(&d),
    }
}

/// The error a failed `ask_offline_codes` call reports: a DPS server error
/// keeps its code and message, every other error becomes a transport error
/// carrying `rendered`, the error's display text.
pub fn replenish_dps_error(err: DpsError, rendered: String) -> (r: ReplenishError)
    ensures
        match err {
            DpsError::Server { code, message } => r == ReplenishError::DpsServer { code, message },
            _ => r == ReplenishError::DpsTransport(rendered),
        },
{
    match err {
        DpsError::Server { code, message } => ReplenishError::DpsServer { code, message },
        _ => ReplenishError::DpsTransport(rendered),
    }
}

/// The new chain seed of a replenish run, the SHA-256 of the request XML's
/// bytes, with its lowercase hex.
pub fn replenish_seed(request_xml: &str) -> (r: ([u8; 32], String))
    ensures
        r.0@ == sha256_of(request_xml.spec_bytes()),
        r.1@ == hex_lower_spec(r.0@),
{
    let seed = sha256(request_xml.as_bytes());
    let hex = hex_lower(&seed);
    (seed, hex)
}

} // verus!
