//! Per-FN exponential backoff between offline backlog drain ticks.
//!
//! A fiscal number whose drain ends in a hold waits
//! `min(2^consecutive_holds * 30s, 30min)` before the next tick; any other
//! outcome resets the counter and makes the FN eligible at once.  Each FN
//! keeps its own state, so a stuck FN never delays a healthy one.
use crate::time::{Duration, Instant};
use vstd::arithmetic::power2::{lemma2_to64, pow2};
use vstd::hash_map::StringHashMap;
use vstd::prelude::*;

verus! {

/// Base delay of the schedule, in seconds.
pub const BACKOFF_BASE_SECS: u64 = 30;

/// Cap of the schedule, in minutes.
pub const BACKOFF_MAX_MINS: u64 = 30;

/// Exponent at which the doubling stops (well past the cap already).
pub const BACKOFF_MAX_SHIFT: u32 = 8;

/// The backoff window after `consecutive_holds` holds, in seconds:
/// `min(30 * 2^min(consecutive_holds, 8), 1800)`.
pub open spec fn backoff_window_secs(consecutive_holds: nat) -> nat {
    let shift: nat = if consecutive_holds < 8 { consecutive_holds } else { 8 };
    let secs: nat = 30 * pow2(shift);
    if secs <= 1800 { secs } else { 1800 }
}

/// The same window in milliseconds.
pub open spec fn backoff_window_millis(consecutive_holds: nat) -> nat {
    backoff_window_secs(consecutive_holds) * 1000
}

/// The hold counter after one more hold (saturating at `u32::MAX`).
pub open spec fn holds_after_hold(consecutive_holds: u32) -> u32 {
    if consecutive_holds < u32::MAX { (consecutive_holds + 1) as u32 } else { u32::MAX }
}

/// Backoff state of one fiscal number.
#[derive(Debug, Clone, Copy, PartialEq, Eq, Structural)]
pub struct BackoffState {
    /// Holds observed in a row on this FN; reset by any other outcome.
    pub consecutive_holds: u32,
    /// Earliest instant at which the next drain tick may run.
    pub next_eligible: Instant,
}

/// Whether a hold observed at `now` can be scheduled without the clock
/// value overflowing.
pub open spec fn hold_schedulable(state: BackoffState, now: Instant) -> bool {
    now.millis + backoff_window_millis(holds_after_hold(state.consecutive_holds) as nat)
        <= u64::MAX
}

/// The state after a hold observed at `now`.
pub open spec fn held_state(state: BackoffState, now: Instant) -> BackoffState {
    let holds = holds_after_hold(state.consecutive_holds);
    BackoffState {
        consecutive_holds: holds,
        next_eligible: Instant {
            millis: (now.millis + backoff_window_millis(holds as nat)) as u64,
        },
    }
}

/// The state after any non-hold outcome observed at `now`.
pub open spec fn advanced_state(now: Instant) -> BackoffState {
    BackoffState { consecutive_holds: 0, next_eligible: now }
}

impl BackoffState {
    /// Fresh state: no holds, eligible at `now`.
    pub fn fresh(now: Instant) -> (s: BackoffState)
        ensures
            s == advanced_state(now),
    {
        BackoffState { consecutive_holds: 0, next_eligible: now }
    }
}

proof fn lemma_window_factor(shift: u32)
    requires
        shift <= 8,
    ensures
        (1u64 << (shift as u64)) == pow2(shift as nat),
        pow2(shift as nat) <= 256,
{
    lemma2_to64();
    vstd::bits::lemma_u64_shl_is_mul(1u64, shift as u64);
}

/// The backoff window after `consecutive_holds` holds:
/// 30s, 1min, 2min, 4min, 8min, 16min, then 30min for six holds and more.
pub fn compute_backoff_window(consecutive_holds: u32) -> (d: Duration)
    ensures
        d.total_millis() == backoff_window_millis(consecutive_holds as nat),
        d.normalized(),
{
    let shift: u32 = if consecutive_holds < BACKOFF_MAX_SHIFT {
        consecutive_holds
    } else {
        BACKOFF_MAX_SHIFT
    };
    proof {
        lemma_window_factor(shift);
    }
    let factor: u64 = 1u64 << (shift as u64);
    let secs: u64 = BACKOFF_BASE_SECS * factor;
    let computed = Duration::from_secs(secs);
    let cap = Duration::from_secs(BACKOFF_MAX_MINS * 60);
    computed.min(cap)
}

/// Record a hold observed at `now`: one more consecutive hold, and the next
/// tick deferred by the window for the new count.
pub fn on_hold(state: &mut BackoffState, now: Instant)
    requires
        hold_schedulable(*old(state), now),
    ensures
        *final(state) == held_state(*old(state), now),
{
    state.consecutive_holds = state.consecutive_holds.saturating_add(1);
    let window = compute_backoff_window(state.consecutive_holds);
    state.next_eligible = now.after(window);
}

/// Record a non-hold outcome observed at `now`: counter reset, eligible at once.
pub fn on_advance(state: &mut BackoffState, now: Instant)
    ensures
        *final(state) == advanced_state(now),
{
    state.consecutive_holds = 0;
    state.next_eligible = now;
}

/// Backoff states of all fiscal numbers, keyed by fiscal number.
pub struct BackoffMap {
    entries: StringHashMap<BackoffState>,
}

impl View for BackoffMap {
    type V = Map<Seq<char>, BackoffState>;

    closed spec fn view(&self) -> Map<Seq<char>, BackoffState> {
        self.entries@
    }
}

impl BackoffMap {
    /// An empty map.
    pub fn new() -> (m: BackoffMap)
        ensures
            m@ == Map::<Seq<char>, BackoffState>::empty(),
    {
        BackoffMap { entries: StringHashMap::new() }
    }

    /// Set the state of `fn_id`, replacing any earlier one.
    pub fn insert(&mut self, fn_id: String, state: BackoffState)
        ensures
            final(self)@ == old(self)@.insert(fn_id@, state),
    {
        self.entries.insert(fn_id, state);
    }

    /// The state of `fn_id`, if it has one.
    pub fn get(&self, fn_id: &str) -> (r: Option<BackoffState>)
        ensures
            r == (if self@.contains_key(fn_id@) {
                Some(self@[fn_id@])
            } else {
                None
            }),
    {
        match self.entries.get(fn_id) {
            Some(s) => Some(*s),
            None => None,
        }
    }
}

/// When `fn_id` is still inside its backoff window at `now`, the instant at
/// which the window ends; `None` for an unknown FN or an elapsed window.
pub open spec fn backoff_until(
    m: Map<Seq<char>, BackoffState>,
    fn_id: Seq<char>,
    now: Instant,
) -> Option<Instant> {
    if m.contains_key(fn_id) && now.millis < m[fn_id].next_eligible.millis {
        Some(m[fn_id].next_eligible)
    } else {
        None
    }
}

/// `Some(until)` when `fn_id` is inside its backoff window at `now` (the
/// caller skips this tick), `None` when it has no state or the window has
/// elapsed (the caller drains).
pub fn check_eligibility(backoff_map: &BackoffMap, fn_id: &str, now: Instant) -> (r: Option<
    Instant,
>)
    ensures
        r == backoff_until(backoff_map@, fn_id@, now),
{
    match backoff_map.get(fn_id) {
        Some(state) => {
            if now.is_before(&state.next_eligible) {
                Some(state.next_eligible)
            } else {
                None
            }
        },
        None => None,
    }
}

/// The window never shrinks as holds accumulate, starts at 30 seconds and
/// never exceeds 30 minutes.
pub proof fn backoff_window_monotone_and_capped(a: nat, b: nat)
    requires
        a <= b,
    ensures
        backoff_window_secs(a) <= backoff_window_secs(b),
        30 <= backoff_window_secs(a) <= 1800,
        backoff_window_secs(0) == 30,
        b >= 6 ==> backoff_window_secs(b) == 1800,
{
    lemma2_to64();
    vstd::arithmetic::power2::lemma_pow2_pos(a);
    let sa: nat = if a < 8 { a } else { 8 };
    let sb: nat = if b < 8 { b } else { 8 };
    vstd::arithmetic::power2::lemma_pow2_strictly_increases(0, 6);
    if sa < sb {
        vstd::arithmetic::power2::lemma_pow2_strictly_increases(sa, sb);
    }
    if sb >= 6 && sb > 6 {
        vstd::arithmetic::power2::lemma_pow2_strictly_increases(6, sb);
    }
}

/// After a hold, the FN is inside its backoff window at the instant the
/// hold was observed: the next tick is deferred to the recorded instant,
/// at least 30 seconds later, and at that instant the FN is eligible again.
pub proof fn hold_defers_next_tick(
    m: Map<Seq<char>, BackoffState>,
    fn_id: Seq<char>,
    state: BackoffState,
    now: Instant,
)
    requires
        hold_schedulable(state, now),
    ensures
        backoff_until(m.insert(fn_id, held_state(state, now)), fn_id, now) == Some(
            held_state(state, now).next_eligible,
        ),
        held_state(state, now).next_eligible.millis >= now.millis + 30000,
        backoff_until(
            m.insert(fn_id, held_state(state, now)),
            fn_id,
            held_state(state, now).next_eligible,
        ) == None::<Instant>,
{
    backoff_window_monotone_and_capped(
        holds_after_hold(state.consecutive_holds) as nat,
        holds_after_hold(state.consecutive_holds) as nat,
    );
}

/// After a non-hold outcome the FN is eligible again at once.
pub proof fn advance_makes_eligible(
    m: Map<Seq<char>, BackoffState>,
    fn_id: Seq<char>,
    now: Instant,
)
    ensures
        backoff_until(m.insert(fn_id, advanced_state(now)), fn_id, now) == None::<Instant>,
{
}

/// Backoff is per FN: changing the state of one FN leaves the eligibility
/// of every other FN as it was.
pub proof fn backoff_is_per_fn(
    m: Map<Seq<char>, BackoffState>,
    changed: Seq<char>,
    state: BackoffState,
    other: Seq<char>,
    now: Instant,
)
    requires
        changed != other,
    ensures
        backoff_until(m.insert(changed, state), other, now) == backoff_until(m, other, now),
{
}

} // verus!
