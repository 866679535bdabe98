//! Splitting a date range into calendar-month billing periods.
use vstd::prelude::*;

use crate::date::{lemma_key_injective, Date};

verus! {

/// A billing period: from `start` (included) to `end` (excluded).
#[derive(Debug, Clone, Copy, PartialEq, Eq, Structural)]
pub struct BillingPeriod {
    pub start: Date,
    pub end: Date,
}

impl BillingPeriod {
    /// A non-empty period of well-formed dates that stays within the
    /// calendar month of its start.
    pub open spec fn wf(self) -> bool {
        &&& self.start.wf()
        &&& self.end.wf()
        &&& self.start.key() < self.end.key()
        &&& self.end.key() <= self.start.next_month_start().key()
    }
}

/// `ps` is a gap-free, overlap-free sequence of well-formed periods from
/// `from` to `to`, whose inner boundaries are first days of months.
pub open spec fn tiles(ps: Seq<BillingPeriod>, from: Date, to: Date) -> bool {
    &&& forall|i: int| 0 <= i < ps.len() ==> (#[trigger] ps[i]).wf()
    &&& forall|i: int|
        0 <= i < ps.len() - 1 ==> (#[trigger] ps[i]).end == ps[i + 1].start
            && ps[i].end == ps[i].start.next_month_start()
    &&& ps.len() == 0 ==> from == to
    &&& ps.len() > 0 ==> ps[0].start == from && ps[ps.len() - 1].end == to
}

/// The period that starts at `cur` on the way to `to`: up to the next first
/// of a month, or to `to` where that comes sooner.
pub open spec fn first_period(cur: Date, to: Date) -> BillingPeriod {
    let next = cur.next_month_start();
    BillingPeriod { start: cur, end: if to.key() < next.key() { to } else { next } }
}

/// The calendar-month periods from `cur` to `to`.
pub open spec fn month_periods(cur: Date, to: Date) -> Seq<BillingPeriod>
    decreases to.key() - cur.key(),
{
    if cur.wf() && cur.key() < to.key() {
        let p = first_period(cur, to);
        seq![p] + month_periods(p.end, to)
    } else {
        seq![]
    }
}

/// The index of a date's calendar month, counting months from year 0.
pub open spec fn month_index(d: Date) -> int {
    d.year as int * 12 + d.month as int - 1
}

/// Splits `[from, to)` into calendar-month periods: the first may start
/// mid-month and the last may end mid-month. Empty where `from` is not
/// before `to`.
pub fn split(from: Date, to: Date) -> (r: Vec<BillingPeriod>)
    requires
        from.wf(),
        to.wf(),
    ensures
        r@ == month_periods(from, to),
        from.key() < to.key() ==> tiles(r@, from, to),
        from.key() >= to.key() ==> r@.len() == 0,
        from.key() < to.key() ==> r@.len() <= month_index(to) - month_index(from) + 1,
{
    let mut r: Vec<BillingPeriod> = Vec::new();
    if !from.is_before(&to) {
        assert(month_periods(from, to) == Seq::<BillingPeriod>::empty());
        return r;
    }
    let mut cur = from;
    assert(r@ + month_periods(cur, to) =~= month_periods(from, to));
    while cur.is_before(&to)
        invariant
            to.wf(),
            cur.wf(),
            cur.key() <= to.key(),
            from.wf(),
            from.key() <= cur.key(),
            r@.len() <= month_index(cur) - month_index(from) + 1,
            cur != to ==> r@.len() <= month_index(cur) - month_index(from),
            r@.len() == 0 ==> cur == from,
            r@ + month_periods(cur, to) == month_periods(from, to),
            r@.len() > 0 ==> r@[0].start == from && r@[r@.len() - 1].end == cur,
            r@.len() > 0 ==> r@[r@.len() - 1].end == r@[r@.len() - 1].start.next_month_start()
                || cur == to,
            forall|i: int| 0 <= i < r@.len() ==> (#[trigger] r@[i]).wf(),
            forall|i: int|
                0 <= i < r@.len() - 1 ==> (#[trigger] r@[i]).end == r@[i + 1].start
                    && r@[i].end == r@[i].start.next_month_start(),
        decreases to.key() - cur.key(),
    {
        let next = cur.month_after();
        let end = if to.is_before(&next) {
            to
        } else {
            next
        };
        proof {
            if end == next {
                assert(next.key() <= to.key());
                assert(next.year <= to.year);
            }
            assert(end.wf());
            lemma_month_index_monotonic(cur, to);
            lemma_month_index_monotonic(from, cur);
        }
        let ghost old_r = r@;
        assert(month_periods(cur, to) == seq![BillingPeriod { start: cur, end }] + month_periods(end, to));
        r.push(BillingPeriod { start: cur, end });
        proof {
            assert(forall|i: int| 0 <= i < old_r.len() ==> r@[i] == old_r[i]);
            assert(forall|i: int| 0 <= i < r@.len() - 2 ==> #[trigger] r@[i] == old_r[i] && r@[i + 1] == old_r[i + 1]);
            if old_r.len() > 0 {
                assert(cur != to);
                assert(r@[old_r.len() - 1].end == r@[old_r.len() as int].start);
            }
        }
        assert(r@ + month_periods(end, to) =~= old_r + month_periods(cur, to));
        cur = end;
    }
    proof {
        assert(month_periods(cur, to) == Seq::<BillingPeriod>::empty());
        assert(r@ + month_periods(cur, to) =~= r@);
        lemma_key_injective(cur, to);
    }
    r
}

proof fn lemma_month_index_monotonic(a: Date, b: Date)
    requires
        a.wf(),
        b.wf(),
        a.key() <= b.key(),
    ensures
        month_index(a) <= month_index(b),
{
    if month_index(a) > month_index(b) {
        if a.year > b.year {
            assert(a.key() > b.key());
        } else {
            assert(a.year == b.year && a.month > b.month);
            assert(a.key() > b.key());
        }
    }
}

} // verus!
