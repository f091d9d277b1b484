//! Held-evidence probe: while a `TransientRetry` reservation is held with
//! its document in `SENDING`, record what the DPS's `last_chk` says, once
//! per distinct (reservation, verdict).
use vstd::prelude::*;

use super::last_chk_probe::ProbeOutcome;
use crate::json::{json_string_field, json_top_level_str};

verus! {

/// Seconds between two held-evidence probe ticks.
pub const HELD_PROBE_TICK_INTERVAL_SECS: u64 = 300;

/// Evidence recorded for a held reservation.
#[derive(Debug, Clone, PartialEq, Eq)]
pub struct HeldEvidence {
    pub reservation_id_hex: String,
    pub lnd: i64,
    pub verdict: HeldVerdict,
}

/// What the DPS's last check says about a held reservation.
#[derive(Debug, Clone, PartialEq, Eq)]
pub enum HeldVerdict {
    /// The DPS holds no check for the FN.
    PeerHasNoChecks,
    /// The DPS's last check is `actual_id`.
    PeerHoldsOther { actual_id: String },
    /// The probe failed; no conclusion.
    Indeterminate { reason: String },
}

/// The verdict's audit name.
pub open spec fn held_verdict_name(v: HeldVerdict) -> Seq<char> {
    match v {
        HeldVerdict::PeerHasNoChecks => "PeerHasNoChecks"@,
        HeldVerdict::PeerHoldsOther { .. } => "PeerHoldsOther"@,
        HeldVerdict::Indeterminate { .. } => "Indeterminate"@,
    }
}

impl HeldVerdict {
    /// The verdict's audit name.
    pub fn as_str(&self) -> (r: &'static str)
        ensures
            r@ == held_verdict_name(*self),
    {
        match self {
            HeldVerdict::PeerHasNoChecks => "PeerHasNoChecks",
            HeldVerdict::PeerHoldsOther { .. } => "PeerHoldsOther",
            HeldVerdict::Indeterminate { .. } => "Indeterminate",
        }
    }
}

/// The verdict for a `last_chk` probe made with no expected id: any check
/// the DPS holds, matching or not, belongs to another document.
pub fn held_verdict(outcome: ProbeOutcome) -> (r: HeldVerdict)
    ensures
        match outcome {
            ProbeOutcome::NotFound => r == HeldVerdict::PeerHasNoChecks,
            ProbeOutcome::Mismatch { actual_id } => r == HeldVerdict::PeerHoldsOther { actual_id },
            ProbeOutcome::Match { ack } => r == HeldVerdict::PeerHoldsOther { actual_id: ack.id },
            ProbeOutcome::TransportRetry { reason } => r == HeldVerdict::Indeterminate { reason },
            ProbeOutcome::DecodeEscalate { reason } => r == HeldVerdict::Indeterminate { reason },
        },
{
    match outcome {
        ProbeOutcome::NotFound => HeldVerdict::PeerHasNoChecks,
        ProbeOutcome::Mismatch { actual_id } => HeldVerdict::PeerHoldsOther { actual_id },
        ProbeOutcome::Match { ack } => HeldVerdict::PeerHoldsOther { actual_id: ack.id },
        ProbeOutcome::TransportRetry { reason } => HeldVerdict::Indeterminate { reason },
        ProbeOutcome::DecodeEscalate { reason } => HeldVerdict::Indeterminate { reason },
    }
}

/// The `detail` of the audit payload: the other check's id, the failure
/// reason, or empty.
pub fn held_detail(verdict: &HeldVerdict) -> (r: String)
    ensures
        r@ == (match *verdict {
            HeldVerdict::PeerHoldsOther { actual_id } => actual_id@,
            HeldVerdict::Indeterminate { reason } => reason@,
            HeldVerdict::PeerHasNoChecks => Seq::<char>::empty(),
        }),
{
    match verdict {
        HeldVerdict::PeerHoldsOther { actual_id } => actual_id.clone(),
        HeldVerdict::Indeterminate { reason } => reason.clone(),
        HeldVerdict::PeerHasNoChecks => String::new(),
    }
}

/// Whether the fields read from the last audit payload show this same
/// reservation with this same verdict.
pub open spec fn same_evidence(
    reservation_field: Option<Seq<char>>,
    verdict_field: Option<Seq<char>>,
    reservation_id_hex: Seq<char>,
    verdict: HeldVerdict,
) -> bool {
    reservation_field == Some(reservation_id_hex) && verdict_field == Some(held_verdict_name(verdict))
}

/// Decide from the `reservation_id` and `verdict` fields of the last
/// recorded payload whether this evidence is already on record.
pub fn already_recorded_fields(
    reservation_field: Option<String>,
    verdict_field: Option<String>,
    reservation_id_hex: &str,
    verdict: &HeldVerdict,
) -> (r: bool)
    ensures
        r == same_evidence(
            match reservation_field {
                Some(s) => Some(s@),
                None => None,
            },
            match verdict_field {
                Some(s) => Some(s@),
                None => None,
            },
            reservation_id_hex@,
            *verdict,
        ),
{
    let hex = reservation_id_hex.to_string();
    let name = verdict.as_str().to_string();
    match (reservation_field, verdict_field) {
        (Some(rf), Some(vf)) => rf.eq(&hex) && vf.eq(&name),
        _ => false,
    }
}

/// Whether the last recorded payload (`None`: none recorded) already holds
/// this reservation with this verdict, so that no new audit row is due.
pub fn already_recorded(last_payload: Option<String>, reservation_id_hex: &str, verdict: &HeldVerdict) -> (r:
    bool)
    ensures
        r == match last_payload {
            None => false,
            Some(p) => same_evidence(
                json_top_level_str(p@, "reservation_id"@),
                json_top_level_str(p@, "verdict"@),
                reservation_id_hex@,
                *verdict,
            ),
        },
{
    match last_payload {
        None => false,
        Some(p) => {
            let rf = json_string_field(p.as_str(), "reservation_id");
            let vf = json_string_field(p.as_str(), "verdict");
            already_recorded_fields(rf, vf, reservation_id_hex, verdict)
        },
    }
}

} // verus!
