//! Decision core of the PRRO fiscal gateway services: offline backlog
//! drain, KVT2 confirmation routing, return-online probing, boot
//! reconciliation, per-FN backoff and the cash ledger.
//!
//! Every function here is pure: it takes the values the orchestrator read
//! (node state, document rows, DPS replies) and returns the decision the
//! orchestrator must carry out.  The contracts state those decisions
//! exactly.

pub mod cash_ledger;
pub mod digest;
pub mod json;
pub mod model;
pub mod offline_session;
pub mod offline_sync;
pub mod reconciliation;
pub mod text;
pub mod time;
