//! The calendar model: dates as plain year/month/day values, their
//! ordering, and day-step arithmetic.
//!
//! Dates are measured by `day_index`, the number of days since the first
//! representable date; every arithmetic operation is specified against it.

use vstd::prelude::*;

verus! {

/// A Gregorian calendar date, held as plain values.
#[derive(Clone, Copy, Debug, PartialEq, Eq, Structural)]
pub struct Date {
    pub year: u32,
    pub month: u32,
    pub day: u32,
}

/// Gregorian leap-year rule.
pub open spec fn is_leap_year(y: int) -> bool {
    y % 4 == 0 && (y % 100 != 0 || y % 400 == 0)
}

/// Number of days in month `m` of year `y`.
pub open spec fn days_in_month(y: int, m: int) -> int {
    if m == 2 {
        if is_leap_year(y) {
            29
        } else {
            28
        }
    } else if m == 4 || m == 6 || m == 9 || m == 11 {
        30
    } else {
        31
    }
}

/// The earliest date the library represents.
pub open spec fn first_date() -> Date {
    Date { year: 1, month: 1, day: 1 }
}

/// The latest date the library represents.
pub open spec fn last_date() -> Date {
    Date { year: 9999, month: 12, day: 31 }
}

/// The calendar day before `d`.
pub open spec fn pred_spec(d: Date) -> Date {
    if d.day > 1 {
        Date { year: d.year, month: d.month, day: (d.day - 1) as u32 }
    } else if d.month > 1 {
        Date {
            year: d.year,
            month: (d.month - 1) as u32,
            day: days_in_month(d.year as int, d.month - 1) as u32,
        }
    } else {
        Date { year: (d.year - 1) as u32, month: 12, day: 31 }
    }
}

/// The calendar day after `d`.
pub open spec fn succ_spec(d: Date) -> Date {
    if d.day < days_in_month(d.year as int, d.month as int) {
        Date { year: d.year, month: d.month, day: (d.day + 1) as u32 }
    } else if d.month < 12 {
        Date { year: d.year, month: (d.month + 1) as u32, day: 1 }
    } else {
        Date { year: (d.year + 1) as u32, month: 1, day: 1 }
    }
}

/// Days elapsed since `first_date`; the measure every date operation is
/// specified against.
pub open spec fn day_index(d: Date) -> nat
    decreases d.year, d.month, d.day,
{
    if !d.valid() || d == first_date() {
        0
    } else {
        1 + day_index(pred_spec(d))
    }
}

/// Strict lexicographic (and hence chronological) order on dates.
pub open spec fn date_lt(a: Date, b: Date) -> bool {
    ||| a.year < b.year
    ||| (a.year == b.year && a.month < b.month)
    ||| (a.year == b.year && a.month == b.month && a.day < b.day)
}

/// Chronological order, allowing equality.
pub open spec fn date_le(a: Date, b: Date) -> bool {
    date_lt(a, b) || a == b
}

impl Date {
    /// The date denotes an existing calendar day.
    pub open spec fn valid(self) -> bool {
        &&& 1 <= self.year <= 9999
        &&& 1 <= self.month <= 12
        &&& 1 <= self.day <= days_in_month(self.year as int, self.month as int)
    }

    /// Chronological comparison.
    pub fn le(&self, other: &Date) -> (r: bool)
        ensures
            r == date_le(*self, *other),
    {
        if self.year != other.year {
            self.year < other.year
        } else if self.month != other.month {
            self.month < other.month
        } else {
            self.day <= other.day
        }
    }

    /// Strict chronological comparison.
    pub fn lt(&self, other: &Date) -> (r: bool)
        ensures
            r == date_lt(*self, *other),
    {
        if self.year != other.year {
            self.year < other.year
        } else if self.month != other.month {
            self.month < other.month
        } else {
            self.day < other.day
        }
    }

    /// Whether the fields denote an existing calendar day.
    pub fn check_valid(&self) -> (r: bool)
        ensures
            r == self.valid(),
    {
        1 <= self.year && self.year <= 9999 && 1 <= self.month && self.month <= 12 && 1 <= self.day
            && self.day <= month_length(self.year, self.month)
    }

    /// The calendar day after `self`.
    pub fn next_day(&self) -> (r: Date)
        requires
            self.valid(),
            *self != last_date(),
        ensures
            r == succ_spec(*self),
            r.valid(),
            day_index(r) == day_index(*self) + 1,
    {
        proof {
            lemma_succ_of_valid(*self);
        }
        if self.day < month_length(self.year, self.month) {
            Date { year: self.year, month: self.month, day: self.day + 1 }
        } else if self.month < 12 {
            Date { year: self.year, month: self.month + 1, day: 1 }
        } else {
            Date { year: self.year + 1, month: 1, day: 1 }
        }
    }

    /// The calendar day before `self`.
    pub fn prev_day(&self) -> (r: Date)
        requires
            self.valid(),
            *self != first_date(),
        ensures
            r == pred_spec(*self),
            r.valid(),
            day_index(*self) == day_index(r) + 1,
    {
        proof {
            lemma_pred_of_valid(*self);
        }
        if self.day > 1 {
            Date { year: self.year, month: self.month, day: self.day - 1 }
        } else if self.month > 1 {
            Date { year: self.year, month: self.month - 1, day: month_length(self.year, self.month - 1) }
        } else {
            Date { year: self.year - 1, month: 12, day: 31 }
        }
    }
}

/// Executable counterpart of `days_in_month`.
pub fn month_length(y: u32, m: u32) -> (r: u32)
    ensures
        r == days_in_month(y as int, m as int),
{
    if m == 2 {
        if y % 4 == 0 && (y % 100 != 0 || y % 400 == 0) {
            29
        } else {
            28
        }
    } else if m == 4 || m == 6 || m == 9 || m == 11 {
        30
    } else {
        31
    }
}

/// Stepping back from a valid non-first date stays valid and lowers the
/// day index by exactly one.
pub proof fn lemma_pred_of_valid(d: Date)
    requires
        d.valid(),
        d != first_date(),
    ensures
        pred_spec(d).valid(),
        pred_spec(d) != last_date(),
        day_index(d) == day_index(pred_spec(d)) + 1,
{
}

/// Stepping forward from a valid non-last date stays valid, inverts
/// `pred_spec`, and raises the day index by exactly one.
pub proof fn lemma_succ_of_valid(d: Date)
    requires
        d.valid(),
        d != last_date(),
    ensures
        succ_spec(d).valid(),
        succ_spec(d) != first_date(),
        pred_spec(succ_spec(d)) == d,
        day_index(succ_spec(d)) == day_index(d) + 1,
{
}

/// A date strictly before another valid date is not the last date, and its
/// successor still does not pass the other date: `succ_spec` yields the
/// immediate chronological successor among valid dates.
pub proof fn lemma_lt_succ_le(a: Date, b: Date)
    requires
        a.valid(),
        b.valid(),
        date_lt(a, b),
    ensures
        a != last_date(),
        date_le(succ_spec(a), b),
{
}

/// The chronological order agrees with the order of day indexes.
pub proof fn lemma_le_index(a: Date, b: Date)
    requires
        a.valid(),
        b.valid(),
        date_le(a, b),
    ensures
        day_index(a) <= day_index(b),
    decreases b.year - a.year, 12 - a.month, 31 - a.day,
{
    if a != b {
        lemma_lt_succ_le(a, b);
        lemma_succ_of_valid(a);
        lemma_le_index(succ_spec(a), b);
    }
}

/// Day indexes order valid dates exactly as the calendar does.
pub proof fn lemma_index_order(a: Date, b: Date)
    requires
        a.valid(),
        b.valid(),
    ensures
        date_le(a, b) <==> day_index(a) <= day_index(b),
        date_lt(a, b) <==> day_index(a) < day_index(b),
        a == b <==> day_index(a) == day_index(b),
{
    if date_lt(a, b) {
        lemma_lt_succ_le(a, b);
        lemma_succ_of_valid(a);
        lemma_le_index(succ_spec(a), b);
    } else if date_lt(b, a) {
        lemma_lt_succ_le(b, a);
        lemma_succ_of_valid(b);
        lemma_le_index(succ_spec(b), a);
    }
}

/// All dates from `a` to `b`, both ends taken, in chronological order.
pub open spec fn date_seq(a: Date, b: Date) -> Seq<Date>
    decreases b.year - a.year, 12 - a.month, 31 - a.day,
{
    if !a.valid() || !b.valid() || !date_le(a, b) {
        Seq::empty()
    } else if a == b {
        seq![a]
    } else {
        seq![a] + date_seq(succ_spec(a), b)
    }
}

/// The span from `a` to `b` holds one date per day between them: its
/// length is the day-index distance plus one.
pub proof fn lemma_date_seq_len(a: Date, b: Date)
    requires
        a.valid(),
        b.valid(),
        date_le(a, b),
    ensures
        date_seq(a, b).len() == day_index(b) - day_index(a) + 1,
    decreases b.year - a.year, 12 - a.month, 31 - a.day,
{
    lemma_le_index(a, b);
    if a != b {
        lemma_lt_succ_le(a, b);
        lemma_succ_of_valid(a);
        lemma_date_seq_len(succ_spec(a), b);
    }
}

/// Element `i` of the span is valid and lies exactly `i` days after `a`.
pub proof fn lemma_date_seq_index(a: Date, b: Date, i: int)
    requires
        a.valid(),
        b.valid(),
        date_le(a, b),
        0 <= i < date_seq(a, b).len(),
    ensures
        date_seq(a, b)[i].valid(),
        day_index(date_seq(a, b)[i]) == day_index(a) + i,
    decreases b.year - a.year, 12 - a.month, 31 - a.day,
{
    if a != b && i > 0 {
        lemma_lt_succ_le(a, b);
        lemma_succ_of_valid(a);
        lemma_date_seq_index(succ_spec(a), b, i - 1);
    }
}

/// Law: the span visits its dates in strictly ascending chronological
/// order, starting at `a` and ending at `b`.
pub proof fn lemma_date_seq_ascending(a: Date, b: Date)
    requires
        a.valid(),
        b.valid(),
        date_le(a, b),
    ensures
        date_seq(a, b).len() == day_index(b) - day_index(a) + 1,
        date_seq(a, b).first() == a,
        date_seq(a, b).last() == b,
        forall|i: int, j: int|
            0 <= i < j < date_seq(a, b).len() ==> date_lt(
                #[trigger] date_seq(a, b)[i],
                #[trigger] date_seq(a, b)[j],
            ),
{
    lemma_date_seq_len(a, b);
    assert forall|i: int, j: int|
        0 <= i < j < date_seq(a, b).len() implies date_lt(
        #[trigger] date_seq(a, b)[i],
        #[trigger] date_seq(a, b)[j],
    ) by {
        lemma_date_seq_index(a, b, i);
        lemma_date_seq_index(a, b, j);
        lemma_index_order(date_seq(a, b)[i], date_seq(a, b)[j]);
    }
    lemma_date_seq_index(a, b, 0);
    lemma_date_seq_index(a, b, date_seq(a, b).len() - 1);
    lemma_le_index(a, b);
    lemma_index_order(date_seq(a, b)[0], a);
    lemma_index_order(date_seq(a, b)[date_seq(a, b).len() - 1], b);
}

/// Law: the dates between two endpoints form one fixed sequence; producing
/// them twice yields identical results.
pub proof fn lemma_date_sequence_repeatable(a: Date, b: Date, s1: Seq<Date>, s2: Seq<Date>)
    requires
        s1 == date_seq(a, b),
        s2 == date_seq(a, b),
    ensures
        s1 == s2,
{
}

/// The dates from `start` to `end`, both ends taken, ascending; empty when
/// `start` lies after `end`.
pub fn date_sequence(start: &Date, end: &Date) -> (r: Vec<Date>)
    requires
        start.valid(),
        end.valid(),
    ensures
        r@ == date_seq(*start, *end),
{
    let mut out: Vec<Date> = Vec::new();
    if !start.le(end) {
        return out;
    }
    let mut cur: Date = *start;
    loop
        invariant_except_break
            date_le(cur, *end),
            out@ + date_seq(cur, *end) == date_seq(*start, *end),
        invariant
            start.valid(),
            end.valid(),
            cur.valid(),
        ensures
            out@ == date_seq(*start, *end),
        decreases day_index(*end) - day_index(cur),
    {
        let ghost before = out@;
        out.push(cur);
        if cur == *end {
            proof {
                assert(out@ =~= before + date_seq(cur, *end));
            }
            break;
        }
        proof {
            lemma_lt_succ_le(cur, *end);
            lemma_succ_of_valid(cur);
            lemma_le_index(succ_spec(cur), *end);
            assert(out@ + date_seq(succ_spec(cur), *end) =~= before + date_seq(cur, *end));
        }
        cur = cur.next_day();
    }
    out
}

/// Up to `n` dates, newest first, walking backward from `d`; shorter only
/// when the calendar runs out at `first_date`.
pub open spec fn back_seq(d: Date, n: nat) -> Seq<Date>
    decreases n,
{
    if n == 0 || !d.valid() {
        Seq::empty()
    } else if d == first_date() {
        seq![d]
    } else {
        seq![d] + back_seq(pred_spec(d), (n - 1) as nat)
    }
}

/// The backward walk has one date per day: `n` of them unless the calendar
/// runs out, each element `i` lying exactly `i` days before `d`.
pub proof fn lemma_back_seq(d: Date, n: nat)
    requires
        d.valid(),
    ensures
        back_seq(d, n).len() == if n <= day_index(d) + 1 {
            n as int
        } else {
            day_index(d) + 1int
        },
        n > 0 ==> back_seq(d, n).first() == d,
        forall|i: int|
            0 <= i < back_seq(d, n).len() ==> (#[trigger] back_seq(d, n)[i]).valid() && day_index(
                back_seq(d, n)[i],
            ) == day_index(d) - i,
    decreases n,
{
    if n > 0 && d != first_date() {
        lemma_pred_of_valid(d);
        lemma_back_seq(pred_spec(d), (n - 1) as nat);
    }
}

/// Law: the backward walk visits its dates newest first — strictly
/// descending, starting at `d`.
pub proof fn lemma_back_seq_descending(d: Date, n: nat)
    requires
        d.valid(),
    ensures
        forall|i: int, j: int|
            0 <= i < j < back_seq(d, n).len() ==> date_lt(
                #[trigger] back_seq(d, n)[j],
                #[trigger] back_seq(d, n)[i],
            ),
{
    lemma_back_seq(d, n);
    assert forall|i: int, j: int|
        0 <= i < j < back_seq(d, n).len() implies date_lt(
        #[trigger] back_seq(d, n)[j],
        #[trigger] back_seq(d, n)[i],
    ) by {
        lemma_index_order(back_seq(d, n)[j], back_seq(d, n)[i]);
    }
}

/// Up to `days` dates, newest first, walking backward from `anchor`.
pub fn range_dates(anchor: &Date, days: usize) -> (r: Vec<Date>)
    requires
        anchor.valid(),
    ensures
        r@ == back_seq(*anchor, days as nat),
{
    let mut out: Vec<Date> = Vec::new();
    let mut cur: Date = *anchor;
    let mut left: usize = days;
    while left > 0
        invariant
            anchor.valid(),
            cur.valid(),
            out@ + back_seq(cur, left as nat) == back_seq(*anchor, days as nat),
        decreases left,
    {
        out.push(cur);
        if cur.year == 1 && cur.month == 1 && cur.day == 1 {
            proof {
                assert(cur == first_date());
                assert(out@ =~= out@.drop_last() + back_seq(cur, left as nat));
            }
            left = 0;
        } else {
            proof {
                lemma_pred_of_valid(cur);
                assert(out@ + back_seq(pred_spec(cur), (left - 1) as nat) =~= out@.drop_last()
                    + back_seq(cur, left as nat));
            }
            cur = cur.prev_day();
            left = left - 1;
        }
    }
    out
}

/// `d` moved `n` days back, stopping at `first_date` when the calendar
/// runs out.
pub open spec fn sub_days_spec(d: Date, n: nat) -> Date
    decreases n,
{
    if n == 0 || !d.valid() || d == first_date() {
        d
    } else {
        sub_days_spec(pred_spec(d), (n - 1) as nat)
    }
}

/// Moving back stays valid, never moves forward, and lands exactly `n`
/// days earlier unless clamped at the calendar's start.
pub proof fn lemma_sub_days(d: Date, n: nat)
    requires
        d.valid(),
    ensures
        sub_days_spec(d, n).valid(),
        date_le(sub_days_spec(d, n), d),
        day_index(sub_days_spec(d, n)) == if n <= day_index(d) {
            day_index(d) - n
        } else {
            0
        },
    decreases n,
{
    if n > 0 && d != first_date() {
        lemma_pred_of_valid(d);
        lemma_sub_days(pred_spec(d), (n - 1) as nat);
        lemma_index_order(sub_days_spec(d, n), pred_spec(d));
        lemma_index_order(pred_spec(d), d);
        lemma_index_order(sub_days_spec(d, n), d);
    }
}

/// `d` moved `n` days back, stopping at the first representable date.
pub fn sub_days(d: &Date, n: u64) -> (r: Date)
    requires
        d.valid(),
    ensures
        r == sub_days_spec(*d, n as nat),
        r.valid(),
{
    let mut cur: Date = *d;
    let mut left: u64 = n;
    while left > 0
        invariant
            cur.valid(),
            sub_days_spec(cur, left as nat) == sub_days_spec(*d, n as nat),
        decreases left,
    {
        if cur.year == 1 && cur.month == 1 && cur.day == 1 {
            proof {
                assert(cur == first_date());
            }
            left = 0;
        } else {
            cur = cur.prev_day();
            left = left - 1;
        }
    }
    cur
}

/// The publication cutover: before this hour (UTC) the newest image is
/// still the previous day's.
pub const CUTOVER_HOUR: u32 = 5;

/// The anchor date: `now` moved back by `offset_days`, one day further
/// when the current hour lies before the publication cutover.
pub fn anchor_date(now: &Date, hour: u32, offset_days: u64) -> (r: Date)
    requires
        now.valid(),
        hour < 24,
        offset_days < u64::MAX,
    ensures
        r == sub_days_spec(
            *now,
            if hour < CUTOVER_HOUR {
                (offset_days + 1) as nat
            } else {
                offset_days as nat
            },
        ),
        r.valid(),
{
    let total: u64 = if hour < CUTOVER_HOUR {
        offset_days + 1
    } else {
        offset_days
    };
    sub_days(now, total)
}

} // verus!
