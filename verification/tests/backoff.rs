use prro::offline_sync::backoff::{
    check_eligibility, compute_backoff_window, on_advance, on_hold, BackoffMap, BackoffState,
};
use prro::time::{Duration, Instant};

fn t0() -> Instant {
    Instant::from_millis(1_000_000_000)
}

#[test]
fn compute_backoff_window_schedule_matches_doc() {
    assert_eq!(compute_backoff_window(0), Duration::from_secs(30));
    assert_eq!(compute_backoff_window(1), Duration::from_secs(60));
    assert_eq!(compute_backoff_window(2), Duration::from_secs(120));
    assert_eq!(compute_backoff_window(3), Duration::from_secs(240));
    assert_eq!(compute_backoff_window(4), Duration::from_secs(480));
    assert_eq!(compute_backoff_window(5), Duration::from_secs(960));
    assert_eq!(compute_backoff_window(6), Duration::from_secs(1800));
    assert_eq!(compute_backoff_window(10), Duration::from_secs(1800));
    assert_eq!(compute_backoff_window(100), Duration::from_secs(1800));
}

#[test]
fn compute_backoff_window_does_not_panic_on_extreme_input() {
    let _ = compute_backoff_window(u32::MAX);
}

#[test]
fn on_hold_increments_counter_and_pushes_next_eligible() {
    let t0 = t0();
    let mut state = BackoffState::fresh(t0);
    on_hold(&mut state, t0);
    assert_eq!(state.consecutive_holds, 1);
    assert_eq!(state.next_eligible, t0.after(Duration::from_secs(60)));
    on_hold(&mut state, t0);
    assert_eq!(state.consecutive_holds, 2);
    assert_eq!(state.next_eligible, t0.after(Duration::from_secs(120)));
}

#[test]
fn on_advance_resets_state() {
    let t0 = t0();
    let mut state = BackoffState {
        consecutive_holds: 5,
        next_eligible: t0.after(Duration::from_secs(960)),
    };
    on_advance(&mut state, t0);
    assert_eq!(state.consecutive_holds, 0);
    assert_eq!(state.next_eligible, t0);
}

#[test]
fn check_eligibility_returns_none_for_unknown_fn() {
    let map = BackoffMap::new();
    let now = t0();
    assert!(check_eligibility(&map, "fn-001", now).is_none());
}

#[test]
fn check_eligibility_returns_until_for_within_window() {
    let mut map = BackoffMap::new();
    let t0 = t0();
    let future = t0.after(Duration::from_secs(60));
    map.insert(
        "fn-001".to_string(),
        BackoffState {
            consecutive_holds: 1,
            next_eligible: future,
        },
    );
    let result = check_eligibility(&map, "fn-001", t0);
    assert_eq!(result, Some(future));
}

#[test]
fn check_eligibility_returns_none_for_elapsed_window() {
    let mut map = BackoffMap::new();
    let t0 = t0();
    let past = t0.checked_sub(Duration::from_secs(60)).unwrap_or(t0);
    map.insert(
        "fn-001".to_string(),
        BackoffState {
            consecutive_holds: 1,
            next_eligible: past,
        },
    );
    let result = check_eligibility(&map, "fn-001", t0);
    assert!(result.is_none());
}

#[test]
fn hold_then_check_defers_and_advance_clears() {
    let t0 = t0();
    let mut map = BackoffMap::new();
    let mut state = BackoffState::fresh(t0);
    on_hold(&mut state, t0);
    map.insert("fn-a".to_string(), state);
    assert_eq!(check_eligibility(&map, "fn-a", t0), Some(t0.after(Duration::from_secs(60))));
    assert_eq!(check_eligibility(&map, "fn-a", t0.after(Duration::from_secs(60))), None);
    on_advance(&mut state, t0);
    map.insert("fn-a".to_string(), state);
    assert_eq!(check_eligibility(&map, "fn-a", t0), None);
}

#[test]
fn backoff_of_one_fn_leaves_other_fn_eligible() {
    let t0 = t0();
    let mut map = BackoffMap::new();
    map.insert("fn-b".to_string(), BackoffState::fresh(t0));
    let mut state = BackoffState::fresh(t0);
    on_hold(&mut state, t0);
    map.insert("fn-a".to_string(), state);
    assert!(check_eligibility(&map, "fn-a", t0).is_some());
    assert_eq!(check_eligibility(&map, "fn-b", t0), None);
    assert_eq!(map.get("fn-b"), Some(BackoffState::fresh(t0)));
}

#[test]
fn saturated_hold_counter_stays_capped() {
    let t0 = t0();
    let mut state = BackoffState { consecutive_holds: u32::MAX, next_eligible: t0 };
    on_hold(&mut state, t0);
    assert_eq!(state.consecutive_holds, u32::MAX);
    assert_eq!(state.next_eligible, t0.after(Duration::from_secs(1800)));
}

#[test]
fn instant_arithmetic_is_checked() {
    let t = Instant::from_millis(5);
    assert_eq!(t.checked_sub(Duration::from_millis(6)), None);
    assert_eq!(t.checked_sub(Duration::from_millis(5)), Some(Instant::from_millis(0)));
    assert_eq!(Instant::from_millis(u64::MAX).checked_add(Duration::from_millis(1)), None);
    assert_eq!(Duration::from_secs(3).as_secs(), 3);
    assert!(Instant::from_millis(1).is_before(&Instant::from_millis(2)));
}

#[test]
fn any_number_of_seconds_is_a_span() {
    let d = Duration::from_secs(u64::MAX);
    assert_eq!(d.as_secs(), u64::MAX);
    assert_eq!(Instant::from_millis(0).checked_add(d), None);
    assert_eq!(Instant::from_millis(10).checked_sub(d), None);
    let d = Duration::from_millis(61_250);
    assert_eq!(d.as_secs(), 61);
    assert_eq!(Instant::from_millis(1).after(d), Instant::from_millis(61_251));
    assert_eq!(Duration::from_secs(2).min(Duration::from_millis(1_999)), Duration::from_millis(1_999));
}
