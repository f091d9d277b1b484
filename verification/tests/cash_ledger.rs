use prro::cash_ledger::{
    aggregate_cash_legs, aggregate_epz, aggregate_service_io, derive_cash_on_hand, reconcile_carry, ShiftCashTotals,
    StoredPayment,
};
use prro::model::DocType;

fn pay(code: &str, sum: i64) -> StoredPayment {
    StoredPayment { type_code: code.into(), sum_kop: sum }
}

#[test]
fn cash_on_hand_formula() {
    assert_eq!(derive_cash_on_hand(1000, 500, 200, 300, 100, 50), 1450);
    assert_eq!(derive_cash_on_hand(0, 0, 0, 0, 0, 0), 0);
    assert_eq!(derive_cash_on_hand(0, 0, 100, 0, 0, 0), -100);
}

#[test]
fn only_positive_cash_legs_count() {
    let checks = vec![
        (DocType::Sell, vec![pay("0", 100), pay("1", 999), pay("0", -5)]),
        (DocType::Return, vec![pay("0", 40)]),
        (DocType::ServiceIn, vec![pay("0", 77)]),
        (DocType::Sell, vec![pay("0", 1)]),
    ];
    assert_eq!(aggregate_cash_legs(&checks), (101, 40));
}

#[test]
fn cash_legs_saturate() {
    let checks = vec![(DocType::Sell, vec![pay("0", i64::MAX), pay("0", 10)])];
    assert_eq!(aggregate_cash_legs(&checks), (i64::MAX, 0));
}

#[test]
fn service_io_and_epz_totals() {
    let rows = vec![
        ("SERVICE_IN".to_string(), 300),
        ("SERVICE_OUT".to_string(), 100),
        ("SERVICE_IN".to_string(), 0),
        ("OTHER".to_string(), 5),
    ];
    assert_eq!(aggregate_service_io(&rows), (300, 100));
    assert_eq!(aggregate_epz(&vec![50, -3, 0, 25]), 75);
    assert_eq!(aggregate_epz(&vec![]), 0);
}

#[test]
fn opening_anchor_folds_closed_shifts_from_zero() {
    let a = ShiftCashTotals { cash_sell: 500, cash_return: 100, service_in: 1000, service_out: 0, epz_out: 0 };
    let b = ShiftCashTotals { cash_sell: 0, cash_return: 0, service_in: 0, service_out: 300, epz_out: 50 };
    assert_eq!(reconcile_carry(&vec![]), 0);
    assert_eq!(reconcile_carry(&vec![a]), 1400);
    assert_eq!(reconcile_carry(&vec![a, b]), 1050);
    assert_eq!(
        reconcile_carry(&vec![a, b]),
        derive_cash_on_hand(reconcile_carry(&vec![a]), 0, 0, 0, 300, 50)
    );
}
