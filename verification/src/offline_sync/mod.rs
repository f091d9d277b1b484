//! Offline backlog: draining documents queued while the node was offline,
//! confirming them against the DPS, pacing retries, and detecting the
//! return online.
pub mod backlog_drain;
pub mod backoff;
pub mod kvt2_confirm;
pub mod offline_surface;
pub mod return_online_probe;
pub mod offline_code_replenish;
