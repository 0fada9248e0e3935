//! Migration identifiers: `m`, the wall-clock reading at creation as
//! `YYYYMMDD_HHMMSS`, and the name the caller chose.
//!
//! The fixed-width, zero-padded reading is what makes identifiers sort by
//! creation time. The reading is formatted by the `chrono` crate; what it
//! prints for this layout is stated here digit by digit.

use vstd::prelude::*;
use vstd::string::StringExecFns;

verus! {

/// The earliest year that `chrono` represents.
pub const MIN_YEAR: i32 = -262143;

/// The latest year that `chrono` represents.
pub const MAX_YEAR: i32 = 262142;

/// A wall-clock reading, to the second, of whichever clock the caller
/// sampled.
#[derive(Clone, Copy, Debug, PartialEq, Eq, Structural)]
pub struct Timestamp {
    pub year: i32,
    pub month: u32,
    pub day: u32,
    pub hour: u32,
    pub minute: u32,
    pub second: u32,
}

/// Whether `year` is a leap year of the proleptic Gregorian calendar.
pub open spec fn is_leap_year(year: int) -> bool {
    year % 4 == 0 && (year % 100 != 0 || year % 400 == 0)
}

/// The number of days of a month, for `month` from 1 to 12.
pub open spec fn days_in_month(year: int, month: int) -> int {
    if month == 2 {
        if is_leap_year(year) {
            29
        } else {
            28
        }
    } else if month == 4 || month == 6 || month == 9 || month == 11 {
        30
    } else {
        31
    }
}

/// The character of one decimal digit.
pub open spec fn digit(value: int) -> char {
    if value == 0 {
        '0'
    } else if value == 1 {
        '1'
    } else if value == 2 {
        '2'
    } else if value == 3 {
        '3'
    } else if value == 4 {
        '4'
    } else if value == 5 {
        '5'
    } else if value == 6 {
        '6'
    } else if value == 7 {
        '7'
    } else if value == 8 {
        '8'
    } else {
        '9'
    }
}

/// A number below 100 in two digits, zero-padded.
pub open spec fn two_digits(value: int) -> Seq<char> {
    seq![digit(value / 10), digit(value % 10)]
}

/// A number below 10000 in four digits, zero-padded.
pub open spec fn four_digits(value: int) -> Seq<char> {
    two_digits(value / 100) + two_digits(value % 100)
}

/// A number in as many decimal digits as it takes.
pub open spec fn decimal(value: int) -> Seq<char>
    decreases value,
{
    if value < 10 {
        seq![digit(value)]
    } else {
        decimal(value / 10).push(digit(value % 10))
    }
}

/// A year as the layout prints it: four digits from 0 to 9999, beyond that
/// a sign followed by at least four digits.
pub open spec fn year_text(year: int) -> Seq<char> {
    if 0 <= year <= 9999 {
        four_digits(year)
    } else if year > 9999 {
        seq!['+'] + decimal(year)
    } else if year >= -9999 {
        seq!['-'] + four_digits(-year)
    } else {
        seq!['-'] + decimal(-year)
    }
}

impl Timestamp {
    /// The reading is a date of the proleptic Gregorian calendar within the
    /// years that `chrono` represents, and a time of day.
    pub open spec fn is_valid(self) -> bool {
        &&& MIN_YEAR <= self.year <= MAX_YEAR
        &&& 1 <= self.month <= 12
        &&& 1 <= self.day <= days_in_month(self.year as int, self.month as int)
        &&& self.hour < 24
        &&& self.minute < 60
        &&& self.second < 60
    }

    /// The reading lies in the years 0 to 9999, which print in four digits.
    pub open spec fn has_four_digit_year(self) -> bool {
        0 <= self.year <= 9999
    }

    /// `self` is an earlier reading than `other`.
    pub open spec fn precedes(self, other: Timestamp) -> bool {
        ||| self.year < other.year
        ||| self.year == other.year && self.month < other.month
        ||| self.year == other.year && self.month == other.month && self.day < other.day
        ||| self.year == other.year && self.month == other.month && self.day == other.day
            && self.hour < other.hour
        ||| self.year == other.year && self.month == other.month && self.day == other.day
            && self.hour == other.hour && self.minute < other.minute
        ||| self.year == other.year && self.month == other.month && self.day == other.day
            && self.hour == other.hour && self.minute == other.minute && self.second
            < other.second
    }

    /// The reading as `YYYYMMDD_HHMMSS`.
    pub open spec fn text(self) -> Seq<char> {
        year_text(self.year as int) + two_digits(self.month as int) + two_digits(self.day as int)
            + seq!['_'] + two_digits(self.hour as int) + two_digits(self.minute as int)
            + two_digits(self.second as int)
    }

    /// Whether the reading is valid.
    pub fn check(&self) -> (valid: bool)
        ensures
            valid == self.is_valid(),
    {
        if self.year < MIN_YEAR || self.year > MAX_YEAR {
            return false;
        }
        if self.month < 1 || self.month > 12 || self.day < 1 {
            return false;
        }
        let leap = self.year % 4 == 0 && (self.year % 100 != 0 || self.year % 400 == 0);
        let days: u32 = if self.month == 2 {
            if leap {
                29
            } else {
                28
            }
        } else if self.month == 4 || self.month == 6 || self.month == 9 || self.month == 11 {
            30
        } else {
            31
        };
        self.day <= days && self.hour < 24 && self.minute < 60 && self.second < 60
    }
}

/// The layout of the reading inside an identifier.
pub open spec fn time_layout() -> Seq<char> {
    "%Y%m%d_%H%M%S"@
}

/// The identifier of the unit called `name` that was created at `now`.
pub open spec fn identifier_text(name: Seq<char>, now: Timestamp) -> Seq<char> {
    seq!['m'] + now.text() + seq!['_'] + name
}

/// Builds a `chrono::NaiveDateTime` from the reading with
/// `NaiveDate::from_ymd_opt` and `and_hms_opt`, and prints it with `format`
/// in the identifier's layout. For that layout `chrono` prints the year in
/// four zero-padded digits (with a sign and at least four digits outside 0
/// to 9999), then month and day in two digits each, an underscore, and hour,
/// minute and second in two digits each.
#[verifier::external_body]
fn format_reading(now: &Timestamp, layout: &str) -> (text: String)
    requires
        now.is_valid(),
        layout@ == time_layout(),
    ensures
        text@ == now.text(),
{
    chrono::NaiveDate::from_ymd_opt(now.year, now.month, now.day)
        .and_then(|date| date.and_hms_opt(now.hour, now.minute, now.second))
        .map(|reading| reading.format(layout).to_string())
        .unwrap_or_default()
}

/// Names the unit called `name` that was created at `now`.
pub fn migration_identifier(name: &str, now: &Timestamp) -> (identifier: String)
    requires
        now.is_valid(),
    ensures
        identifier@ == identifier_text(name@, *now),
{
    proof {
        reveal_strlit("m");
        reveal_strlit("_");
    }
    let reading = format_reading(now, "%Y%m%d_%H%M%S");
    String::from_str("m").concat(reading.as_str()).concat("_").concat(name)
}

/// `first` sorts before `second` as text: they agree up to some position,
/// and there `first` ends while `second` goes on, or `first` holds the
/// lesser character.
pub open spec fn sorts_before(first: Seq<char>, second: Seq<char>) -> bool {
    exists|at: int|
        0 <= at <= first.len() && at < second.len() && #[trigger] first.take(at) == second.take(at)
            && (at == first.len() || (first[at] as u32) < (second[at] as u32))
}

/// Two texts of one length of which the first holds the lesser character
/// where they first differ.
pub open spec fn below(first: Seq<char>, second: Seq<char>) -> bool {
    first.len() == second.len() && exists|at: int|
        0 <= at < first.len() && #[trigger] first.take(at) == second.take(at) && (first[at] as u32)
            < (second[at] as u32)
}

/// Digits order as the numbers they stand for.
proof fn lemma_digits_order(low: int, high: int)
    requires
        0 <= low < high <= 9,
    ensures
        (digit(low) as u32) < (digit(high) as u32),
{
}

/// Two digits order as the number they stand for.
proof fn lemma_two_digits_order(low: int, high: int)
    requires
        0 <= low < high <= 99,
    ensures
        below(two_digits(low), two_digits(high)),
{
    let first = two_digits(low);
    let second = two_digits(high);
    if low / 10 < high / 10 {
        lemma_digits_order(low / 10, high / 10);
        assert(first.take(0) == second.take(0));
    } else {
        lemma_digits_order(low % 10, high % 10);
        assert(first.take(1) == second.take(1));
    }
}

/// Four digits order as the number they stand for.
proof fn lemma_four_digits_order(low: int, high: int)
    requires
        0 <= low < high <= 9999,
    ensures
        below(four_digits(low), four_digits(high)),
{
    if low / 100 < high / 100 {
        lemma_two_digits_order(low / 100, high / 100);
        lemma_below_extends(
            Seq::empty(),
            two_digits(low / 100),
            two_digits(high / 100),
            two_digits(low % 100),
            two_digits(high % 100),
        );
        assert(Seq::<char>::empty() + two_digits(low / 100) + two_digits(low % 100)
            == four_digits(low));
        assert(Seq::<char>::empty() + two_digits(high / 100) + two_digits(high % 100)
            == four_digits(high));
    } else {
        lemma_two_digits_order(low % 100, high % 100);
        lemma_below_extends(
            two_digits(low / 100),
            two_digits(low % 100),
            two_digits(high % 100),
            Seq::empty(),
            Seq::empty(),
        );
        assert(two_digits(low / 100) + two_digits(low % 100) + Seq::<char>::empty()
            == four_digits(low));
        assert(two_digits(high / 100) + two_digits(high % 100) + Seq::<char>::empty()
            == four_digits(high));
    }
}

/// A difference inside two texts decides their order whatever stands before
/// both and whatever follows either, as long as what follows is equally long.
proof fn lemma_below_extends(
    before: Seq<char>,
    first: Seq<char>,
    second: Seq<char>,
    first_rest: Seq<char>,
    second_rest: Seq<char>,
)
    requires
        below(first, second),
        first_rest.len() == second_rest.len(),
    ensures
        below(before + first + first_rest, before + second + second_rest),
{
    let at = choose|at: int|
        0 <= at < first.len() && #[trigger] first.take(at) == second.take(at) && (first[at] as u32)
            < (second[at] as u32);
    let left = before + first + first_rest;
    let right = before + second + second_rest;
    let here = before.len() + at;
    assert(left.take(here) == before + first.take(at));
    assert(right.take(here) == before + second.take(at));
    assert(left[here] == first[at]);
    assert(right[here] == second[at]);
}

/// Texts of one length that are `below` one another sort in that order,
/// whatever follows either.
proof fn lemma_below_sorts(
    first: Seq<char>,
    second: Seq<char>,
    first_rest: Seq<char>,
    second_rest: Seq<char>,
)
    requires
        below(first, second),
    ensures
        sorts_before(first + first_rest, second + second_rest),
{
    let at = choose|at: int|
        0 <= at < first.len() && #[trigger] first.take(at) == second.take(at) && (first[at] as u32)
            < (second[at] as u32);
    let left = first + first_rest;
    let right = second + second_rest;
    assert(left.take(at) == first.take(at));
    assert(right.take(at) == second.take(at));
    assert(left[at] == first[at]);
    assert(right[at] == second[at]);
}

/// Readings of the years 0 to 9999 print in the order in which they were
/// taken.
proof fn lemma_readings_order(earlier: Timestamp, later: Timestamp)
    requires
        earlier.is_valid(),
        later.is_valid(),
        earlier.has_four_digit_year(),
        later.has_four_digit_year(),
        earlier.precedes(later),
    ensures
        below(earlier.text(), later.text()),
{
    let year = four_digits(earlier.year as int);
    let month = two_digits(earlier.month as int);
    let day = two_digits(earlier.day as int);
    let hour = two_digits(earlier.hour as int);
    let minute = two_digits(earlier.minute as int);
    let second = two_digits(earlier.second as int);
    let bar = seq!['_'];
    let other_year = four_digits(later.year as int);
    let other_month = two_digits(later.month as int);
    let other_day = two_digits(later.day as int);
    let other_hour = two_digits(later.hour as int);
    let other_minute = two_digits(later.minute as int);
    let other_second = two_digits(later.second as int);
    if earlier.year < later.year {
        lemma_four_digits_order(earlier.year as int, later.year as int);
        lemma_below_extends(
            Seq::empty(),
            year,
            other_year,
            month + day + bar + hour + minute + second,
            other_month + other_day + bar + other_hour + other_minute + other_second,
        );
        assert(Seq::<char>::empty() + year + (month + day + bar + hour + minute + second)
            == earlier.text());
        assert(Seq::<char>::empty() + other_year + (other_month + other_day + bar + other_hour
            + other_minute + other_second) == later.text());
    } else if earlier.month < later.month {
        lemma_two_digits_order(earlier.month as int, later.month as int);
        lemma_below_extends(
            year,
            month,
            other_month,
            day + bar + hour + minute + second,
            other_day + bar + other_hour + other_minute + other_second,
        );
        assert(year + month + (day + bar + hour + minute + second) == earlier.text());
        assert(year + other_month + (other_day + bar + other_hour + other_minute + other_second)
            == later.text());
    } else if earlier.day < later.day {
        lemma_two_digits_order(earlier.day as int, later.day as int);
        lemma_below_extends(
            year + month,
            day,
            other_day,
            bar + hour + minute + second,
            bar + other_hour + other_minute + other_second,
        );
        assert(year + month + day + (bar + hour + minute + second) == earlier.text());
        assert(year + month + other_day + (bar + other_hour + other_minute + other_second)
            == later.text());
    } else if earlier.hour < later.hour {
        lemma_two_digits_order(earlier.hour as int, later.hour as int);
        lemma_below_extends(
            year + month + day + bar,
            hour,
            other_hour,
            minute + second,
            other_minute + other_second,
        );
        assert(year + month + day + bar + hour + (minute + second) == earlier.text());
        assert(year + month + day + bar + other_hour + (other_minute + other_second)
            == later.text());
    } else if earlier.minute < later.minute {
        lemma_two_digits_order(earlier.minute as int, later.minute as int);
        lemma_below_extends(year + month + day + bar + hour, minute, other_minute, second, other_second);
    } else {
        lemma_two_digits_order(earlier.second as int, later.second as int);
        lemma_below_extends(
            year + month + day + bar + hour + minute,
            second,
            other_second,
            Seq::empty(),
            Seq::empty(),
        );
        assert(year + month + day + bar + hour + minute + second + Seq::<char>::empty()
            == earlier.text());
        assert(year + month + day + bar + hour + minute + other_second + Seq::<char>::empty()
            == later.text());
    }
}

/// Identifiers sort by creation time. Of two readings of one clock in the
/// years 0 to 9999, the identifier made from the later one sorts after the
/// identifier made from the earlier one, whatever the two units are called.
pub proof fn lemma_identifiers_sort_by_time(
    earlier: Timestamp,
    later: Timestamp,
    first_name: Seq<char>,
    second_name: Seq<char>,
)
    requires
        earlier.is_valid(),
        later.is_valid(),
        earlier.has_four_digit_year(),
        later.has_four_digit_year(),
        earlier.precedes(later),
    ensures
        sorts_before(
            identifier_text(first_name, earlier),
            identifier_text(second_name, later),
        ),
{
    lemma_readings_order(earlier, later);
    lemma_below_extends(
        seq!['m'],
        earlier.text(),
        later.text(),
        Seq::empty(),
        Seq::empty(),
    );
    let first = seq!['m'] + earlier.text() + Seq::<char>::empty();
    let second = seq!['m'] + later.text() + Seq::<char>::empty();
    lemma_below_sorts(first, second, seq!['_'] + first_name, seq!['_'] + second_name);
    assert(first + (seq!['_'] + first_name) == identifier_text(first_name, earlier));
    assert(second + (seq!['_'] + second_name) == identifier_text(second_name, later));
}

} // verus!
