//! Cash ledger: cash on hand of a shift, derived from its acknowledged
//! documents.
//!
//! `cash_on_hand = opening + cash sells - cash returns + service in
//! - service out - card-advance (EPZ) out`.  Cash legs are the payments
//! with type code `"0"`; only positive amounts count, and every running
//! total saturates at `i64::MAX`.  The opening anchor of the current shift
//! is re-derived by folding the formula over all closed shifts from zero.
use vstd::prelude::*;

use crate::model::DocType;

verus! {

/// The cash on hand, over the integers.
pub open spec fn cash_on_hand(
    opening_cash_kop: int,
    cash_sell_kop: int,
    cash_return_kop: int,
    service_in_kop: int,
    service_out_kop: int,
    epz_out_kop: int,
) -> int {
    opening_cash_kop + cash_sell_kop - cash_return_kop + service_in_kop - service_out_kop - epz_out_kop
}

/// Whether an `i64` holds `x`.
pub open spec fn fits_i64(x: int) -> bool {
    i64::MIN <= x <= i64::MAX
}

/// Whether every running value of the formula, left to right, is an `i64`.
pub open spec fn cash_on_hand_fits(
    opening_cash_kop: int,
    cash_sell_kop: int,
    cash_return_kop: int,
    service_in_kop: int,
    service_out_kop: int,
    epz_out_kop: int,
) -> bool {
    &&& fits_i64(opening_cash_kop + cash_sell_kop)
    &&& fits_i64(opening_cash_kop + cash_sell_kop - cash_return_kop)
    &&& fits_i64(opening_cash_kop + cash_sell_kop - cash_return_kop + service_in_kop)
    &&& fits_i64(opening_cash_kop + cash_sell_kop - cash_return_kop + service_in_kop - service_out_kop)
    &&& fits_i64(
        opening_cash_kop + cash_sell_kop - cash_return_kop + service_in_kop - service_out_kop - epz_out_kop,
    )
}

/// Cash on hand: opening cash, plus cash sells, minus cash returns, plus
/// service deposits, minus service withdrawals, minus EPZ advances.
pub fn derive_cash_on_hand(
    opening_cash_kop: i64,
    cash_sell_kop: i64,
    cash_return_kop: i64,
    service_in_kop: i64,
    service_out_kop: i64,
    epz_out_kop: i64,
) -> (r: i64)
    requires
        cash_on_hand_fits(
            opening_cash_kop as int,
            cash_sell_kop as int,
            cash_return_kop as int,
            service_in_kop as int,
            service_out_kop as int,
            epz_out_kop as int,
        ),
    ensures
        r == cash_on_hand(
            opening_cash_kop as int,
            cash_sell_kop as int,
            cash_return_kop as int,
            service_in_kop as int,
            service_out_kop as int,
            epz_out_kop as int,
        ),
{
    opening_cash_kop + cash_sell_kop - cash_return_kop + service_in_kop - service_out_kop - epz_out_kop
}

/// `a + b` saturating at the bounds of `i64` (`i64::saturating_add`).
pub open spec fn sat_add(a: i64, b: i64) -> i64 {
    if a + b > i64::MAX {
        i64::MAX
    } else if a + b < i64::MIN {
        i64::MIN
    } else {
        (a + b) as i64
    }
}

fn saturating_add_i64(a: i64, b: i64) -> (r: i64)
    ensures
        r == sat_add(a, b),
{
    if b > 0 && a > i64::MAX - b {
        i64::MAX
    } else if b < 0 && a < i64::MIN - b {
        i64::MIN
    } else {
        a + b
    }
}

/// One stored payment leg of a check.
#[derive(Debug, Clone, PartialEq, Eq)]
pub struct StoredPayment {
    pub type_code: String,
    pub sum_kop: i64,
}

/// Whether a payment leg is a positive cash leg (type code `"0"`).
pub open spec fn cash_leg(p: StoredPayment) -> bool {
    p.type_code@ == "0"@ && p.sum_kop > 0
}

/// Running (cash sell, cash return) totals after the payments of checks,
/// each check given with its document type.
pub open spec fn cash_totals(checks: Seq<(DocType, Seq<StoredPayment>)>) -> (i64, i64)
    decreases checks.len(), 0int,
{
    if checks.len() == 0 {
        (0, 0)
    } else {
        let (sell, ret) = cash_totals(checks.drop_last());
        check_legs_totals(checks.last().0, checks.last().1, sell, ret)
    }
}

/// Running totals after adding the cash legs of one check to `(sell, ret)`.
pub open spec fn check_legs_totals(doc_type: DocType, payments: Seq<StoredPayment>, sell: i64, ret: i64) -> (
    i64,
    i64,
)
    decreases payments.len(),
{
    if payments.len() == 0 {
        (sell, ret)
    } else {
        let (s, r) = check_legs_totals(doc_type, payments.drop_last(), sell, ret);
        let p = payments.last();
        if cash_leg(p) && doc_type == DocType::Sell {
            (sat_add(s, p.sum_kop), r)
        } else if cash_leg(p) && doc_type == DocType::Return {
            (s, sat_add(r, p.sum_kop))
        } else {
            (s, r)
        }
    }
}

fn add_check_legs(doc_type: DocType, payments: &Vec<StoredPayment>, sell: i64, ret: i64) -> (r: (i64, i64))
    ensures
        r == check_legs_totals(doc_type, payments@, sell, ret),
{
    let zero = "0".to_string();
    let mut s = sell;
    let mut t = ret;
    let n = payments.len();
    let mut i: usize = 0;
    while i < n
        invariant
            n == payments@.len(),
            i <= n,
            (s, t) == check_legs_totals(doc_type, payments@.subrange(0, i as int), sell, ret),
            zero@ == "0"@,
        decreases n - i,
    {
        let p = &payments[i];
        let is_cash = p.type_code.eq(&zero) && p.sum_kop > 0;
        if is_cash {
            match doc_type {
                DocType::Sell => s = saturating_add_i64(s, p.sum_kop),
                DocType::Return => t = saturating_add_i64(t, p.sum_kop),
                _ => {},
            }
        }
        proof {
            let next = payments@.subrange(0, i + 1);
            assert(next.drop_last() =~= payments@.subrange(0, i as int));
            assert(next.last() == payments@[i as int]);
        }
        i = i + 1;
    }
    assert(payments@.subrange(0, n as int) =~= payments@);
    (s, t)
}

/// Cash sell and cash return totals of a shift's issued checks: the sum of
/// their positive cash legs, by document type, saturating; checks of other
/// types contribute nothing.
pub fn aggregate_cash_legs(checks: &Vec<(DocType, Vec<StoredPayment>)>) -> (r: (i64, i64))
    ensures
        r == cash_totals(checks@.map_values(|c: (DocType, Vec<StoredPayment>)| (c.0, c.1@))),
{
    let ghost views = checks@.map_values(|c: (DocType, Vec<StoredPayment>)| (c.0, c.1@));
    let mut sell: i64 = 0;
    let mut ret: i64 = 0;
    let n = checks.len();
    let mut i: usize = 0;
    while i < n
        invariant
            n == checks@.len(),
            i <= n,
            views == checks@.map_values(|c: (DocType, Vec<StoredPayment>)| (c.0, c.1@)),
            (sell, ret) == cash_totals(views.subrange(0, i as int)),
        decreases n - i,
    {
        let (doc_type, payments) = &checks[i];
        let (s, t) = add_check_legs(*doc_type, payments, sell, ret);
        proof {
            let next = views.subrange(0, i + 1);
            assert(next.drop_last() =~= views.subrange(0, i as int));
            assert(next.last() == views[i as int]);
        }
        sell = s;
        ret = t;
        i = i + 1;
    }
    assert(views.subrange(0, n as int) =~= views);
    (sell, ret)
}

/// Running (service in, service out) totals over service documents given
/// as (document type wire name, amount).
pub open spec fn service_io_totals(rows: Seq<(Seq<char>, i64)>) -> (i64, i64)
    decreases rows.len(),
{
    if rows.len() == 0 {
        (0, 0)
    } else {
        let (i, o) = service_io_totals(rows.drop_last());
        let (t, amount) = rows.last();
        if amount <= 0 {
            (i, o)
        } else if t == "SERVICE_IN"@ {
            (sat_add(i, amount), o)
        } else if t == "SERVICE_OUT"@ {
            (i, sat_add(o, amount))
        } else {
            (i, o)
        }
    }
}

/// Service deposit and withdrawal totals of a shift: positive amounts of
/// `SERVICE_IN` and `SERVICE_OUT` documents, saturating.
pub fn aggregate_service_io(rows: &Vec<(String, i64)>) -> (r: (i64, i64))
    ensures
        r == service_io_totals(rows@.map_values(|x: (String, i64)| (x.0@, x.1))),
{
    let ghost views = rows@.map_values(|x: (String, i64)| (x.0@, x.1));
    let service_in_name = "SERVICE_IN".to_string();
    let service_out_name = "SERVICE_OUT".to_string();
    let mut service_in: i64 = 0;
    let mut service_out: i64 = 0;
    let n = rows.len();
    let mut i: usize = 0;
    while i < n
        invariant
            n == rows@.len(),
            i <= n,
            views == rows@.map_values(|x: (String, i64)| (x.0@, x.1)),
            (service_in, service_out) == service_io_totals(views.subrange(0, i as int)),
            service_in_name@ == "SERVICE_IN"@,
            service_out_name@ == "SERVICE_OUT"@,
        decreases n - i,
    {
        let (doc_type, amount) = &rows[i];
        if *amount > 0 {
            if doc_type.eq(&service_in_name) {
                service_in = saturating_add_i64(service_in, *amount);
            } else if doc_type.eq(&service_out_name) {
                service_out = saturating_add_i64(service_out, *amount);
            }
        }
        proof {
            let next = views.subrange(0, i + 1);
            assert(next.drop_last() =~= views.subrange(0, i as int));
            assert(next.last() == views[i as int]);
        }
        i = i + 1;
    }
    assert(views.subrange(0, n as int) =~= views);
    (service_in, service_out)
}

/// Running EPZ total over advance amounts.
pub open spec fn epz_total(sums: Seq<i64>) -> i64
    decreases sums.len(),
{
    if sums.len() == 0 {
        0
    } else if sums.last() <= 0 {
        epz_total(sums.drop_last())
    } else {
        sat_add(epz_total(sums.drop_last()), sums.last())
    }
}

/// EPZ advance total of a shift: the positive amounts, saturating.
pub fn aggregate_epz(sums: &Vec<i64>) -> (r: i64)
    ensures
        r == epz_total(sums@),
{
    let mut epz: i64 = 0;
    let n = sums.len();
    let mut i: usize = 0;
    while i < n
        invariant
            n == sums@.len(),
            i <= n,
            epz == epz_total(sums@.subrange(0, i as int)),
        decreases n - i,
    {
        let s = sums[i];
        if s > 0 {
            epz = saturating_add_i64(epz, s);
        }
        proof {
            let next = sums@.subrange(0, i + 1);
            assert(next.drop_last() =~= sums@.subrange(0, i as int));
        }
        i = i + 1;
    }
    assert(sums@.subrange(0, n as int) =~= sums@);
    epz
}

/// The five cash aggregates of one shift.
#[derive(Debug, Clone, Copy, PartialEq, Eq, Structural)]
pub struct ShiftCashTotals {
    pub cash_sell: i64,
    pub cash_return: i64,
    pub service_in: i64,
    pub service_out: i64,
    pub epz_out: i64,
}

/// The carried cash after folding the closed shifts, oldest first, from 0.
pub open spec fn carry_after(closed: Seq<ShiftCashTotals>) -> int
    decreases closed.len(),
{
    if closed.len() == 0 {
        0
    } else {
        let t = closed.last();
        cash_on_hand(
            carry_after(closed.drop_last()),
            t.cash_sell as int,
            t.cash_return as int,
            t.service_in as int,
            t.service_out as int,
            t.epz_out as int,
        )
    }
}

/// Whether every step of the fold stays within `i64`.
pub open spec fn carry_fits(closed: Seq<ShiftCashTotals>) -> bool
    decreases closed.len(),
{
    if closed.len() == 0 {
        true
    } else {
        let t = closed.last();
        carry_fits(closed.drop_last()) && cash_on_hand_fits(
            carry_after(closed.drop_last()),
            t.cash_sell as int,
            t.cash_return as int,
            t.service_in as int,
            t.service_out as int,
            t.epz_out as int,
        )
    }
}

/// The opening cash the current shift should carry: the cash on hand
/// derived shift by shift over all closed shifts, oldest first, from 0.
pub fn reconcile_carry(closed: &Vec<ShiftCashTotals>) -> (r: i64)
    requires
        carry_fits(closed@),
    ensures
        r == carry_after(closed@),
{
    let mut carry: i64 = 0;
    let n = closed.len();
    let mut i: usize = 0;
    while i < n
        invariant
            n == closed@.len(),
            i <= n,
            carry == carry_after(closed@.subrange(0, i as int)),
            carry_fits(closed@),
        decreases n - i,
    {
        let t = closed[i];
        proof {
            let next = closed@.subrange(0, i + 1);
            assert(next.drop_last() =~= closed@.subrange(0, i as int));
            assert(next.last() == closed@[i as int]);
            lemma_carry_fits_prefix(closed@, i + 1);
        }
        carry = derive_cash_on_hand(carry, t.cash_sell, t.cash_return, t.service_in, t.service_out, t.epz_out);
        i = i + 1;
    }
    assert(closed@.subrange(0, n as int) =~= closed@);
    carry
}

proof fn lemma_carry_fits_prefix(closed: Seq<ShiftCashTotals>, k: int)
    requires
        carry_fits(closed),
        0 <= k <= closed.len(),
    ensures
        carry_fits(closed.subrange(0, k)),
    decreases closed.len(),
{
    if k < closed.len() {
        assert(closed.drop_last() =~= closed.subrange(0, closed.len() - 1));
        lemma_carry_fits_prefix(closed.drop_last(), k);
        assert(closed.drop_last().subrange(0, k) =~= closed.subrange(0, k));
    } else {
        assert(closed.subrange(0, k) =~= closed);
    }
}

/// The closing cash of one shift is the opening anchor of the next: the
/// carry over `closed` followed by one more closed shift is that shift's
/// cash on hand with the earlier carry as its opening.
pub proof fn closing_cash_is_next_opening(closed: Seq<ShiftCashTotals>, next: ShiftCashTotals)
    ensures
        carry_after(closed.push(next)) == cash_on_hand(
            carry_after(closed),
            next.cash_sell as int,
            next.cash_return as int,
            next.service_in as int,
            next.service_out as int,
            next.epz_out as int,
        ),
{
    assert(closed.push(next).drop_last() =~= closed);
}

/// A shift with no cash movement keeps its opening cash, and the formula
/// is additive: two shifts' movements compose as their sums.
pub proof fn cash_on_hand_is_additive(
    opening: int,
    a: ShiftCashTotals,
    b: ShiftCashTotals,
)
    ensures
        cash_on_hand(opening, 0, 0, 0, 0, 0) == opening,
        cash_on_hand(
            cash_on_hand(opening, a.cash_sell as int, a.cash_return as int, a.service_in as int, a.service_out as int, a.epz_out as int),
            b.cash_sell as int,
            b.cash_return as int,
            b.service_in as int,
            b.service_out as int,
            b.epz_out as int,
        ) == cash_on_hand(
            opening,
            a.cash_sell + b.cash_sell,
            a.cash_return + b.cash_return,
            a.service_in + b.service_in,
            a.service_out + b.service_out,
            a.epz_out + b.epz_out,
        ),
{
}

} // verus!
