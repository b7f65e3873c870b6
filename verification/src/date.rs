//! Date suggestions.
//!
//! The suggester is a pure function of an injected "current date": the
//! clock is never read inside the classifier, so results are deterministic
//! and testable. It emits exactly four items: the full date, the current
//! year-month prefix, and the previous and next year-month prefixes, where
//! month arithmetic normalises the day to 1 before shifting.

use vstd::prelude::*;
use crate::items::CompletionItem;

verus! {

/// Largest year the four-digit date format can carry for itself and both
/// of its month neighbours.
pub const MAX_SUGGESTED_YEAR: u16 = 9998;

/// A calendar date as plain values.
#[derive(Clone, Copy, PartialEq, Eq, Structural, Debug)]
pub struct Date {
    pub year: u16,
    pub month: u8,
    pub day: u8,
}

impl Date {
    /// The month and day lie in their calendar ranges.
    pub open spec fn wf(self) -> bool {
        1 <= self.month <= 12 && 1 <= self.day <= 31
    }
}

/// The first day of the month after the given date's month: December rolls
/// over to January of the next year.
pub open spec fn next_month(d: Date) -> Date {
    if d.month == 12 {
        Date { year: (d.year + 1) as u16, month: 1, day: 1 }
    } else {
        Date { year: d.year, month: (d.month + 1) as u8, day: 1 }
    }
}

/// The first day of the month before the given date's month: January rolls
/// back to December of the previous year.
pub open spec fn prev_month(d: Date) -> Date {
    if d.month == 1 {
        Date { year: (d.year - 1) as u16, month: 12, day: 1 }
    } else {
        Date { year: d.year, month: (d.month - 1) as u8, day: 1 }
    }
}

/// Moves to the first day of the following month.
pub fn add_one_month(date: Date) -> (r: Date)
    requires
        date.wf(),
        date.year < 65535,
    ensures
        r == next_month(date),
        r.wf(),
{
    if date.month == 12 {
        Date { year: date.year + 1, month: 1, day: 1 }
    } else {
        Date { year: date.year, month: date.month + 1, day: 1 }
    }
}

/// Moves to the first day of the preceding month.
pub fn sub_one_month(date: Date) -> (r: Date)
    requires
        date.wf(),
        date.year >= 1,
    ensures
        r == prev_month(date),
        r.wf(),
{
    if date.month == 1 {
        Date { year: date.year - 1, month: 12, day: 1 }
    } else {
        Date { year: date.year, month: date.month - 1, day: 1 }
    }
}

/// Law: month arithmetic wraps across year boundaries — the month before
/// January is December of the previous year, and the month after December
/// is January of the next year; within a year the month just shifts by
/// one, and the day is always normalised to 1.
pub proof fn lemma_month_wrap(d: Date)
    requires
        d.wf(),
        1 <= d.year < 65535,
    ensures
        d.month == 1 ==> prev_month(d) == (Date { year: (d.year - 1) as u16, month: 12, day: 1 }),
        d.month == 12 ==> next_month(d) == (Date { year: (d.year + 1) as u16, month: 1, day: 1 }),
        d.month != 1 ==> prev_month(d) == (Date {
            year: d.year,
            month: (d.month - 1) as u8,
            day: 1,
        }),
        d.month != 12 ==> next_month(d) == (Date {
            year: d.year,
            month: (d.month + 1) as u8,
            day: 1,
        }),
{
}

/// Law: the date suggester always emits exactly four items, in its fixed
/// order: the full date marked "today", then the current, previous and
/// next year-month prefixes.
pub proof fn lemma_date_items_shape(today: Date)
    ensures
        date_items(today).len() == 4,
        date_items(today)[0] == (date_label(today), "today"@),
        date_items(today)[1] == (month_label(today), "this month"@),
        date_items(today)[2] == (month_label(prev_month(today)), "prev month"@),
        date_items(today)[3] == (month_label(next_month(today)), "next month"@),
{
}

/// The decimal digit character for a value below ten.
pub open spec fn dchar(n: int) -> char {
    if n == 0 {
        '0'
    } else if n == 1 {
        '1'
    } else if n == 2 {
        '2'
    } else if n == 3 {
        '3'
    } else if n == 4 {
        '4'
    } else if n == 5 {
        '5'
    } else if n == 6 {
        '6'
    } else if n == 7 {
        '7'
    } else if n == 8 {
        '8'
    } else {
        '9'
    }
}

/// A number below 10000 as four zero-padded decimal digits.
pub open spec fn four_digits(n: int) -> Seq<char> {
    seq![dchar(n / 1000), dchar((n / 100) % 10), dchar((n / 10) % 10), dchar(n % 10)]
}

/// A number below 100 as two zero-padded decimal digits.
pub open spec fn two_digits(n: int) -> Seq<char> {
    seq![dchar(n / 10), dchar(n % 10)]
}

/// The full date label: four-digit year, two-digit month and day,
/// hyphen-separated.
pub open spec fn date_label(d: Date) -> Seq<char> {
    four_digits(d.year as int) + seq!['-'] + two_digits(d.month as int) + seq!['-']
        + two_digits(d.day as int)
}

/// The year-month prefix label, with its trailing hyphen.
pub open spec fn month_label(d: Date) -> Seq<char> {
    four_digits(d.year as int) + seq!['-'] + two_digits(d.month as int) + seq!['-']
}

/// The digit character of a value below ten, as a one-character string.
fn digit_str(n: u16) -> (s: &'static str)
    requires
        n < 10,
    ensures
        s@ == seq![dchar(n as int)],
{
    if n == 0 {
        proof {
            reveal_strlit("0");
            assert("0"@ =~= seq![dchar(0)]);
        }
        "0"
    } else if n == 1 {
        proof {
            reveal_strlit("1");
            assert("1"@ =~= seq![dchar(1)]);
        }
        "1"
    } else if n == 2 {
        proof {
            reveal_strlit("2");
            assert("2"@ =~= seq![dchar(2)]);
        }
        "2"
    } else if n == 3 {
        proof {
            reveal_strlit("3");
            assert("3"@ =~= seq![dchar(3)]);
        }
        "3"
    } else if n == 4 {
        proof {
            reveal_strlit("4");
            assert("4"@ =~= seq![dchar(4)]);
        }
        "4"
    } else if n == 5 {
        proof {
            reveal_strlit("5");
            assert("5"@ =~= seq![dchar(5)]);
        }
        "5"
    } else if n == 6 {
        proof {
            reveal_strlit("6");
            assert("6"@ =~= seq![dchar(6)]);
        }
        "6"
    } else if n == 7 {
        proof {
            reveal_strlit("7");
            assert("7"@ =~= seq![dchar(7)]);
        }
        "7"
    } else if n == 8 {
        proof {
            reveal_strlit("8");
            assert("8"@ =~= seq![dchar(8)]);
        }
        "8"
    } else {
        proof {
            reveal_strlit("9");
            assert("9"@ =~= seq![dchar(9)]);
        }
        "9"
    }
}

/// Appends the four-digit zero-padded form of a number below 10000.
fn push_four_digits(out: &mut String, n: u16)
    requires
        n <= 9999,
    ensures
        final(out)@ == old(out)@ + four_digits(n as int),
{
    proof {
        assert(n / 1000 < 10 && (n / 100) % 10 < 10 && (n / 10) % 10 < 10 && n % 10 < 10)
            by (nonlinear_arith)
            requires
                n <= 9999,
        ;
    }
    out.append(digit_str(n / 1000));
    out.append(digit_str((n / 100) % 10));
    out.append(digit_str((n / 10) % 10));
    out.append(digit_str(n % 10));
    proof {
        assert(final(out)@ =~= old(out)@ + four_digits(n as int));
    }
}

/// Appends the two-digit zero-padded form of a number below 100.
fn push_two_digits(out: &mut String, n: u16)
    requires
        n <= 99,
    ensures
        final(out)@ == old(out)@ + two_digits(n as int),
{
    proof {
        assert(n / 10 < 10 && n % 10 < 10) by (nonlinear_arith)
            requires
                n <= 99,
        ;
    }
    out.append(digit_str(n / 10));
    out.append(digit_str(n % 10));
    proof {
        assert(final(out)@ =~= old(out)@ + two_digits(n as int));
    }
}

/// Appends a hyphen.
fn push_dash(out: &mut String)
    ensures
        final(out)@ == old(out)@ + seq!['-'],
{
    proof {
        reveal_strlit("-");
        assert("-"@ =~= seq!['-']);
    }
    out.append("-");
}

/// Renders the full date label of a date.
pub fn render_date_label(d: Date) -> (s: String)
    requires
        d.wf(),
        d.year <= 9999,
    ensures
        s@ == date_label(d),
{
    let mut out = String::new();
    push_four_digits(&mut out, d.year);
    push_dash(&mut out);
    push_two_digits(&mut out, d.month as u16);
    push_dash(&mut out);
    push_two_digits(&mut out, d.day as u16);
    proof {
        assert(out@ =~= date_label(d));
    }
    out
}

/// Renders the year-month prefix label of a date.
pub fn render_month_label(d: Date) -> (s: String)
    requires
        d.wf(),
        d.year <= 9999,
    ensures
        s@ == month_label(d),
{
    let mut out = String::new();
    push_four_digits(&mut out, d.year);
    push_dash(&mut out);
    push_two_digits(&mut out, d.month as u16);
    push_dash(&mut out);
    proof {
        assert(out@ =~= month_label(d));
    }
    out
}

/// The four date suggestions for a current date, in their fixed order:
/// the full date, this month's prefix, the previous month's prefix, and
/// the next month's prefix.
pub open spec fn date_items(today: Date) -> Seq<(Seq<char>, Seq<char>)> {
    seq![
        (date_label(today), "today"@),
        (month_label(today), "this month"@),
        (month_label(prev_month(today)), "prev month"@),
        (month_label(next_month(today)), "next month"@),
    ]
}

/// Relies on chrono's `Local::now` and its `Datelike` accessors: the month
/// of a chrono date lies in 1..=12 and the day in 1..=31. Nothing more is
/// promised of the clock's reading.
#[verifier::external_body]
fn today_ymd() -> (r: (i32, u32, u32))
    ensures
        1 <= r.1 <= 12,
        1 <= r.2 <= 31,
{
    let now = chrono::offset::Local::now().naive_local().date();
    (chrono::Datelike::year(&now), chrono::Datelike::month(&now), chrono::Datelike::day(&now))
}

/// Decides whether a clock reading makes a usable date: it does exactly
/// when the year fits the four-digit label format with room for both
/// month neighbours, and the date handed out carries the reading
/// unchanged.
pub fn clock_date(y: i32, m: u32, d: u32) -> (r: Option<Date>)
    requires
        1 <= m <= 12,
        1 <= d <= 31,
    ensures
        r is Some <==> 1 <= y <= MAX_SUGGESTED_YEAR as i32,
        r matches Option::Some(dt) ==> dt.year == y && dt.month == m && dt.day == d && dt.wf()
            && 1 <= dt.year <= MAX_SUGGESTED_YEAR,
{
    if 1 <= y && y <= MAX_SUGGESTED_YEAR as i32 {
        Option::Some(Date { year: y as u16, month: m as u8, day: d as u8 })
    } else {
        Option::None
    }
}

/// Reads the wall clock once and returns today's date, provided its year
/// fits the four-digit label format with room for both month neighbours
/// (the decision itself is [`clock_date`]). Whatever the clock returned,
/// any date handed out is well-formed.
pub fn current_date() -> (r: Option<Date>)
    ensures
        r matches Option::Some(d) ==> d.wf() && 1 <= d.year <= MAX_SUGGESTED_YEAR,
{
    let (y, m, d) = today_ymd();
    clock_date(y, m, d)
}

/// Produces the four date suggestions for the given current date.
pub fn complete_date(today: Date) -> (items: Vec<CompletionItem>)
    requires
        today.wf(),
        1 <= today.year <= MAX_SUGGESTED_YEAR,
    ensures
        crate::items::items_view(items@) == date_items(today),
{
    let prev = sub_one_month(today);
    let next = add_one_month(today);
    let mut items: Vec<CompletionItem> = Vec::new();
    items.push(
        CompletionItem { label: render_date_label(today), detail: "today".to_owned() },
    );
    items.push(
        CompletionItem { label: render_month_label(today), detail: "this month".to_owned() },
    );
    items.push(
        CompletionItem { label: render_month_label(prev), detail: "prev month".to_owned() },
    );
    items.push(
        CompletionItem { label: render_month_label(next), detail: "next month".to_owned() },
    );
    proof {
        assert(crate::items::items_view(items@) =~~= date_items(today));
    }
    items
}

} // verus!
