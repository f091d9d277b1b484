//! Reconciliation: bringing documents, reservations and node state back to
//! a consistent footing at boot and while the node runs online.
pub mod er_redrive_policy;
pub mod last_chk_probe;
pub mod held_evidence_probe;
pub mod boot_phase;
pub mod inbox_reaper;
pub mod online_convergence;
pub mod operator_completion;
pub mod reservation_boot_pass;
pub mod runtime;
pub mod sent_not_found;
