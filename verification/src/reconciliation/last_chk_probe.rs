//! `last_chk` probe: what the DPS's record of the FN's last check says
//! about a document whose wire outcome is unknown.
use vstd::prelude::*;

use crate::model::{CheckAck, DpsError};
use crate::text::concat;

verus! {

/// Classified answer of a `last_chk` call.
#[derive(Debug, Clone, PartialEq, Eq)]
pub enum ProbeOutcome {
    /// The DPS's last check is the expected one.
    Match { ack: CheckAck },
    /// The DPS's last check is another one.
    Mismatch { actual_id: String },
    /// The DPS holds no check for the FN.
    NotFound,
    /// Transport failure: retry later.
    TransportRetry { reason: String },
    /// Undecodable or unexpected answer: escalate.
    DecodeEscalate { reason: String },
}

/// Prefix of the reason given for a DPS error of no expected shape.
pub open spec fn unexpected_shape_prefix() -> Seq<char> {
    "unexpected DpsError shape for last_chk: "@
}

/// Classify a `last_chk` result against the expected transport request id.
/// `other_rendered` is the display text of the error, used only for a DPS
/// error other than `NotFound`, `Transport` and `Decode`.
pub fn last_chk_outcome(
    result: Result<CheckAck, DpsError>,
    expected_transport_request_id: &str,
    other_rendered: &str,
) -> (r: ProbeOutcome)
    ensures
        match result {
            Ok(ack) => if ack.id@ == expected_transport_request_id@ {
                r == ProbeOutcome::Match { ack }
            } else {
                r matches ProbeOutcome::Mismatch { actual_id } && actual_id == ack.id
            },
            Err(DpsError::NotFound) => r == ProbeOutcome::NotFound,
            Err(DpsError::Transport(msg)) => r == ProbeOutcome::TransportRetry { reason: msg },
            Err(DpsError::Decode(msg)) => r == ProbeOutcome::DecodeEscalate { reason: msg },
            Err(_) => r matches ProbeOutcome::DecodeEscalate { reason } && reason@
                == unexpected_shape_prefix() + other_rendered@,
        },
{
    match result {
        Ok(ack) => {
            let expected = expected_transport_request_id.to_string();
            if ack.id.eq(&expected) {
                ProbeOutcome::Match { ack }
            } else {
                ProbeOutcome::Mismatch { actual_id: ack.id }
            }
        },
        Err(DpsError::NotFound) => ProbeOutcome::NotFound,
        Err(DpsError::Transport(msg)) => ProbeOutcome::TransportRetry { reason: msg },
        Err(DpsError::Decode(msg)) => ProbeOutcome::DecodeEscalate { reason: msg },
        Err(_) => ProbeOutcome::DecodeEscalate {
            reason: concat("unexpected DpsError shape for last_chk: ".to_string(), other_rendered),
        },
    }
}

} // verus!
