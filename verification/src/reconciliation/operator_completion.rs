//! Operator completion of a held delivery reservation.
//!
//! Before the reservation is completed, a shift-family document projects
//! the operator's resolution onto its shift: an accepted open opens the
//! shift, a not-accepted open closes it again, and so on.  The completion
//! is then audited with one `OPERATOR_COMPLETION` row.
use vstd::prelude::*;

use crate::model::{DocType, DocumentId, ShiftState, TransitionOutcome};
use crate::text::{concat, hex_lower, hex_lower_spec, i64_decimal, int_decimal};

verus! {

/// The operator's resolution of a held reservation.
#[derive(Debug, Clone, PartialEq, Eq)]
pub enum OperatorResolution {
    /// The DPS accepted the document under `server_fiscal_no`.
    Accepted { server_fiscal_no: String },
    /// The DPS did not accept the document.
    NotAccepted,
    /// The document was not accepted and stays local to the offline session.
    NotAcceptedOffline,
    /// The chain MAC is re-seeded with `seed`.
    MacReseed { seed: [u8; 32] },
}

/// Why an operator completion failed.  Errors of other components are
/// carried as their rendered text.
#[derive(Debug, Clone, PartialEq, Eq)]
pub enum OperatorCompletionError {
    ReservationNotFound,
    DocumentMissing,
    ShiftMissing,
    MacReseedOnShiftFamily,
    ShiftProjectionFailed(TransitionOutcome),
    Completion(String),
    Db(String),
}

/// `{:?}` of a transition outcome.
pub open spec fn transition_outcome_name(o: TransitionOutcome) -> Seq<char> {
    match o {
        TransitionOutcome::Applied => "Applied"@,
        TransitionOutcome::Forbidden => "Forbidden"@,
        TransitionOutcome::Conflict => "Conflict"@,
        TransitionOutcome::NotFound => "NotFound"@,
    }
}

/// The operator-facing text of a completion error.
pub open spec fn operator_completion_error_text(e: OperatorCompletionError) -> Seq<char> {
    match e {
        OperatorCompletionError::ReservationNotFound => "reservation not found for operator completion"@,
        OperatorCompletionError::DocumentMissing => "document row missing"@,
        OperatorCompletionError::ShiftMissing => "shift-family document has no shift_id"@,
        OperatorCompletionError::MacReseedOnShiftFamily => "MacReseed is not a defined shift-family resolution"@,
        OperatorCompletionError::ShiftProjectionFailed(o) => "shift-state projection failed: "@
            + transition_outcome_name(o),
        OperatorCompletionError::Completion(d) => d@,
        OperatorCompletionError::Db(d) => "db: "@ + d@,
    }
}

impl OperatorCompletionError {
    /// The operator-facing text of this error.
    pub fn message(&self) -> (r: String)
        ensures
            r@ == operator_completion_error_text(*self),
    {
        match self {
            OperatorCompletionError::ReservationNotFound => "reservation not found for operator completion".to_string(),
            OperatorCompletionError::DocumentMissing => "document row missing".to_string(),
            OperatorCompletionError::ShiftMissing => "shift-family document has no shift_id".to_string(),
            OperatorCompletionError::MacReseedOnShiftFamily => "MacReseed is not a defined shift-family resolution".to_string(),
            OperatorCompletionError::ShiftProjectionFailed(o) => {
                let name = match o {
                    TransitionOutcome::Applied => "Applied",
                    TransitionOutcome::Forbidden => "Forbidden",
                    TransitionOutcome::Conflict => "Conflict",
                    TransitionOutcome::NotFound => "NotFound",
                };
                concat("shift-state projection failed: ".to_string(), name)
            },
            OperatorCompletionError::Completion(d) => d.clone(),
            OperatorCompletionError::Db(d) => concat("db: ".to_string(), d.as_str()),
        }
    }
}

/// Whether a document type belongs to the shift family.
pub open spec fn shift_family(doc_type: DocType) -> bool {
    doc_type == DocType::ShiftOpen || doc_type == DocType::ShiftClose || doc_type == DocType::ZReport
}

/// The shift edge an operator resolution projects for a document of
/// `doc_type`, online or from the offline session; `Ok(None)` when the
/// shift is left alone.
pub open spec fn shift_projection_of(doc_type: DocType, resolution: OperatorResolution, online: bool) -> Result<
    Option<(ShiftState, ShiftState)>,
    OperatorCompletionError,
> {
    let open = doc_type == DocType::ShiftOpen;
    let close = doc_type == DocType::ShiftClose || doc_type == DocType::ZReport;
    match resolution {
        OperatorResolution::Accepted { .. } => if online && open {
            Ok(Some((ShiftState::Opening, ShiftState::Opened)))
        } else if online && close {
            Ok(Some((ShiftState::Closing, ShiftState::Closed)))
        } else {
            Ok(None)
        },
        OperatorResolution::NotAccepted => if online && open {
            Ok(Some((ShiftState::Opening, ShiftState::Closed)))
        } else if online && close {
            Ok(Some((ShiftState::Closing, ShiftState::Opened)))
        } else {
            Ok(None)
        },
        OperatorResolution::NotAcceptedOffline => if !online && open {
            Ok(Some((ShiftState::OpenedLocalPendingDrain, ShiftState::Closed)))
        } else if !online && close {
            Ok(Some((ShiftState::ClosingLocalPendingDrain, ShiftState::OpenedLocalPendingDrain)))
        } else {
            Ok(None)
        },
        OperatorResolution::MacReseed { .. } => if open || close {
            Err(OperatorCompletionError::MacReseedOnShiftFamily)
        } else {
            Ok(None)
        },
    }
}

/// The shift edge of an operator resolution (see [`shift_projection_of`]).
pub fn shift_projection(doc_type: DocType, resolution: &OperatorResolution, online: bool) -> (r: Result<
    Option<(ShiftState, ShiftState)>,
    OperatorCompletionError,
>)
    ensures
        r == shift_projection_of(doc_type, *resolution, online),
{
    let open = match doc_type {
        DocType::ShiftOpen => true,
        _ => false,
    };
    let close = match doc_type {
        DocType::ShiftClose | DocType::ZReport => true,
        _ => false,
    };
    match resolution {
        OperatorResolution::Accepted { .. } => {
            if online && open {
                Ok(Some((ShiftState::Opening, ShiftState::Opened)))
            } else if online && close {
                Ok(Some((ShiftState::Closing, ShiftState::Closed)))
            } else {
                Ok(None)
            }
        },
        OperatorResolution::NotAccepted => {
            if online && open {
                Ok(Some((ShiftState::Opening, ShiftState::Closed)))
            } else if online && close {
                Ok(Some((ShiftState::Closing, ShiftState::Opened)))
            } else {
                Ok(None)
            }
        },
        OperatorResolution::NotAcceptedOffline => {
            if !online && open {
                Ok(Some((ShiftState::OpenedLocalPendingDrain, ShiftState::Closed)))
            } else if !online && close {
                Ok(Some((ShiftState::ClosingLocalPendingDrain, ShiftState::OpenedLocalPendingDrain)))
            } else {
                Ok(None)
            }
        },
        OperatorResolution::MacReseed { .. } => {
            if open || close {
                Err(OperatorCompletionError::MacReseedOnShiftFamily)
            } else {
                Ok(None)
            }
        },
    }
}

/// Audit tag of a resolution.
pub open spec fn resolution_tag_of(r: OperatorResolution) -> Seq<char> {
    match r {
        OperatorResolution::Accepted { .. } => "Accepted"@,
        OperatorResolution::NotAccepted => "NotAccepted"@,
        OperatorResolution::NotAcceptedOffline => "NotAcceptedOffline"@,
        OperatorResolution::MacReseed { .. } => "MacReseed"@,
    }
}

/// Audit tag of a resolution.
pub fn resolution_tag(r: &OperatorResolution) -> (t: &'static str)
    ensures
        t@ == resolution_tag_of(*r),
{
    match r {
        OperatorResolution::Accepted { .. } => "Accepted",
        OperatorResolution::NotAccepted => "NotAccepted",
        OperatorResolution::NotAcceptedOffline => "NotAcceptedOffline",
        OperatorResolution::MacReseed { .. } => "MacReseed",
    }
}

/// Only shift-family documents move a shift, and only in the document's
/// own mode: online resolutions move online edges, the offline resolution
/// moves offline ones.  For one pending online document, accepting and not
/// accepting start from the same mid-transition state.
pub proof fn shift_projection_respects_family_and_mode(
    doc_type: DocType,
    resolution: OperatorResolution,
    online: bool,
    evidence: String,
)
    ensures
        !shift_family(doc_type) ==> shift_projection_of(doc_type, resolution, online) == Ok::<
            Option<(ShiftState, ShiftState)>,
            OperatorCompletionError,
        >(None),
        (online && shift_family(doc_type)) ==> match (
            shift_projection_of(doc_type, OperatorResolution::Accepted { server_fiscal_no: evidence }, online),
            shift_projection_of(doc_type, OperatorResolution::NotAccepted, online),
        ) {
            (Ok(Some((from_a, to_a))), Ok(Some((from_n, to_n)))) => from_a == from_n && to_a != to_n,
            _ => false,
        },
        online ==> shift_projection_of(doc_type, OperatorResolution::NotAcceptedOffline, online) == Ok::<
            Option<(ShiftState, ShiftState)>,
            OperatorCompletionError,
        >(None),
        !online ==> (shift_projection_of(doc_type, OperatorResolution::NotAccepted, online) == Ok::<
            Option<(ShiftState, ShiftState)>,
            OperatorCompletionError,
        >(None) && shift_projection_of(
            doc_type,
            OperatorResolution::Accepted { server_fiscal_no: evidence },
            online,
        ) == Ok::<Option<(ShiftState, ShiftState)>, OperatorCompletionError>(None)),
{
}

// ─── Audit payload ───────────────────────────────────────────────────

/// `true` / `false` as JSON.
pub open spec fn json_bool(b: bool) -> Seq<char> {
    if b { "true"@ } else { "false"@ }
}

/// One cancelled-cohort entry: `{"doc":"<hex>","lnd":<n>}`.
pub open spec fn cohort_entry(doc: DocumentId, lnd: i64) -> Seq<char> {
    "{\"doc\":\""@ + hex_lower_spec(doc.bytes@) + "\",\"lnd\":"@ + int_decimal(lnd as int) + "}"@
}

/// The cancelled-cohort entries joined with commas.
pub open spec fn cohort_list(cohort: Seq<(DocumentId, i64)>) -> Seq<char>
    decreases cohort.len(),
{
    if cohort.len() == 0 {
        Seq::empty()
    } else if cohort.len() == 1 {
        cohort_entry(cohort[0].0, cohort[0].1)
    } else {
        cohort_list(cohort.drop_last()) + ","@ + cohort_entry(cohort.last().0, cohort.last().1)
    }
}

/// The rewound predecessor seed as JSON: `null` when nothing was rewound,
/// `"genesis"` for a rewind to the chain start, else the seed's hex.
pub open spec fn rewound_seed_json(rewound: Option<Option<[u8; 32]>>) -> Seq<char> {
    match rewound {
        None => "null"@,
        Some(None) => "\"genesis\""@,
        Some(Some(h)) => "\""@ + hex_lower_spec(h@) + "\""@,
    }
}

/// The `OPERATOR_COMPLETION` audit payload.
pub open spec fn completion_payload_of(
    resolution: OperatorResolution,
    applied: bool,
    seed_advanced: bool,
    mode_target: Seq<char>,
    cancelled: Seq<(DocumentId, i64)>,
    rewound: Option<Option<[u8; 32]>>,
) -> Seq<char> {
    "{\"resolution\":\""@ + resolution_tag_of(resolution) + "\",\"applied\":"@ + json_bool(applied)
        + ",\"seed_advanced\":"@ + json_bool(seed_advanced) + ",\"mode_target\":\""@ + mode_target
        + "\",\"cancelled_cohort\":["@ + cohort_list(cancelled) + "],\"rewound_seed\":"@
        + rewound_seed_json(rewound) + "}"@
}

fn json_bool_text(b: bool) -> (r: &'static str)
    ensures
        r@ == json_bool(b),
{
    if b {
        "true"
    } else {
        "false"
    }
}

fn cohort_entry_text(doc: DocumentId, lnd: i64) -> (r: String)
    ensures
        r@ == cohort_entry(doc, lnd),
{
    let s = concat("{\"doc\":\"".to_string(), hex_lower(doc.as_bytes()).as_str());
    let s = concat(s, "\",\"lnd\":");
    let s = concat(s, i64_decimal(lnd).as_str());
    concat(s, "}")
}

/// The `OPERATOR_COMPLETION` audit payload of a completed reservation:
/// the resolution tag, whether the outcome was applied and the seed
/// advanced, the mode target (as its `{:?}` text), the cancelled cohort and
/// the rewound seed.
pub fn completion_payload(
    resolution: &OperatorResolution,
    applied: bool,
    seed_advanced: bool,
    mode_target: &str,
    cancelled: &Vec<(DocumentId, i64)>,
    rewound: Option<Option<[u8; 32]>>,
) -> (r: String)
    ensures
        r@ == completion_payload_of(*resolution, applied, seed_advanced, mode_target@, cancelled@, rewound),
{
    let mut list = String::new();
    let n = cancelled.len();
    let mut i: usize = 0;
    while i < n
        invariant
            n == cancelled@.len(),
            i <= n,
            list@ == cohort_list(cancelled@.subrange(0, i as int)),
        decreases n - i,
    {
        let (doc, lnd) = cancelled[i];
        let entry = cohort_entry_text(doc, lnd);
        if i > 0 {
            list = concat(list, ",");
        }
        list = concat(list, entry.as_str());
        proof {
            let next = cancelled@.subrange(0, i + 1);
            assert(next.drop_last() =~= cancelled@.subrange(0, i as int));
            assert(next.last() == cancelled@[i as int]);
            if i == 0 {
                assert(list@ =~= cohort_entry(cancelled@[0].0, cancelled@[0].1));
            } else {
                assert(list@ =~= cohort_list(cancelled@.subrange(0, i as int)) + ","@ + cohort_entry(
                    cancelled@[i as int].0,
                    cancelled@[i as int].1,
                ));
            }
        }
        i = i + 1;
    }
    assert(cancelled@.subrange(0, n as int) =~= cancelled@);
    let rewound_text = match rewound {
        None => "null".to_string(),
        Some(None) => "\"genesis\"".to_string(),
        Some(Some(h)) => concat(concat("\"".to_string(), hex_lower(&h).as_str()), "\""),
    };
    let s = concat("{\"resolution\":\"".to_string(), resolution_tag(resolution));
    let s = concat(s, "\",\"applied\":");
    let s = concat(s, json_bool_text(applied));
    let s = concat(s, ",\"seed_advanced\":");
    let s = concat(s, json_bool_text(seed_advanced));
    let s = concat(s, ",\"mode_target\":\"");
    let s = concat(s, mode_target);
    let s = concat(s, "\",\"cancelled_cohort\":[");
    let s = concat(s, list.as_str());
    let s = concat(s, "],\"rewound_seed\":");
    let s = concat(s, rewound_text.as_str());
    concat(s, "}")
}

/// A not-accepted resolution never moves a shift forward: it rolls the
/// in-progress edge back to where the shift stood before.  A not-accepted
/// open ends `CLOSED` — online from `OPENING`, offline from
/// `OPENED_LOCAL_PENDING_DRAIN` — and a not-accepted close ends open again
/// (`OPENED` online, `OPENED_LOCAL_PENDING_DRAIN` offline).  An accepted
/// online resolution completes the edge it started from the same state.
pub proof fn not_accepted_rolls_back(doc_type: DocType, online: bool, evidence: String)
    ensures
        ({
            let r = if online {
                shift_projection_of(doc_type, OperatorResolution::NotAccepted, true)
            } else {
                shift_projection_of(doc_type, OperatorResolution::NotAcceptedOffline, false)
            };
            &&& doc_type == DocType::ShiftOpen ==> r == Ok::<
                Option<(ShiftState, ShiftState)>,
                OperatorCompletionError,
            >(Some((if online { ShiftState::Opening } else { ShiftState::OpenedLocalPendingDrain }, ShiftState::Closed)))
            &&& (doc_type == DocType::ShiftClose || doc_type == DocType::ZReport) ==> (r matches Ok(
                Some((_, to)),
            ) && to == (if online { ShiftState::Opened } else { ShiftState::OpenedLocalPendingDrain }))
            &&& r matches Ok(Some((_, to))) ==> to != ShiftState::Closing && to != ShiftState::Opening && (
            doc_type == DocType::ShiftOpen ==> to == ShiftState::Closed)
        }),
        doc_type == DocType::ShiftOpen ==> shift_projection_of(
            doc_type,
            OperatorResolution::Accepted { server_fiscal_no: evidence },
            true,
        ) == Ok::<Option<(ShiftState, ShiftState)>, OperatorCompletionError>(
            Some((ShiftState::Opening, ShiftState::Opened)),
        ),
{
}

} // verus!
