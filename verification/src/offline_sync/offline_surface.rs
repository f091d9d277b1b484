//! Release gate of the operator-facing offline surface.
//!
//! The `GO_OFFLINE` / `GO_ONLINE` admin commands stay shut until the drain
//! path ships with them: opening the door without a reachable drain would
//! let an operator accrue an offline backlog with no way back online.
use vstd::prelude::*;

verus! {

/// Whether the operator offline surface is released.
pub const FULL_OFFLINE_SURFACE_READY: bool = false;

/// Refusal of a `GO_OFFLINE` / `GO_ONLINE` command while the offline surface
/// is not released.
#[derive(Debug, Clone, Copy, PartialEq, Eq, Structural)]
pub struct OfflineSurfaceNotReady;

impl OfflineSurfaceNotReady {
    /// The operator-facing text of the refusal.
    pub fn message(&self) -> (r: String)
        ensures
            r@ == offline_surface_refusal_text(),
    {
        String::from_str(
            "offline operator surface refused: GO_OFFLINE/GO_ONLINE is gated until the drain path is enabled (A\u{2032}.3 O2); the door stays shut in O1",
        )
    }
}

/// The text of [`OfflineSurfaceNotReady`].
pub open spec fn offline_surface_refusal_text() -> Seq<char> {
    "offline operator surface refused: GO_OFFLINE/GO_ONLINE is gated until the drain path is enabled (A\u{2032}.3 O2); the door stays shut in O1"@
}

/// `Ok(())` once the offline surface is released, else the refusal.  The
/// admin commands call this before they change the node mode.
pub fn ensure_full_offline_surface_ready() -> (r: Result<(), OfflineSurfaceNotReady>)
    ensures
        FULL_OFFLINE_SURFACE_READY <==> r is Ok,
        !FULL_OFFLINE_SURFACE_READY ==> r == Err::<(), OfflineSurfaceNotReady>(
            OfflineSurfaceNotReady,
        ),
{
    if FULL_OFFLINE_SURFACE_READY {
        Ok(())
    } else {
        Err(OfflineSurfaceNotReady)
    }
}

} // verus!
