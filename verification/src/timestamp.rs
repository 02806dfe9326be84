//! Calendar timestamps in UTC with second resolution, and their two textual
//! forms: the one that names entry files and the one stored in entry headers.

use vstd::prelude::*;
use chrono::Datelike;
use chrono::Timelike;
use crate::text::lex_lt;
use crate::text::lex_lt_at;

verus! {

/// The mathematical value of a [`Timestamp`]: a date and a time of day in UTC.
pub struct Moment {
    pub year: int,
    pub month: int,
    pub day: int,
    pub hour: int,
    pub minute: int,
    pub second: int,
}

/// Whether a year has a 29th of February.
pub open spec fn is_leap_year(year: int) -> bool {
    year % 4 == 0 && (year % 100 != 0 || year % 400 == 0)
}

/// The number of days of a month of a year.
pub open spec fn days_in_month(year: int, month: int) -> int {
    if month == 2 {
        if is_leap_year(year) { 29 } else { 28 }
    } else if month == 4 || month == 6 || month == 9 || month == 11 {
        30
    } else {
        31
    }
}

/// The decimal digit `d` as a character.
pub open spec fn digit(d: int) -> char {
    if d == 0 { '0' } else if d == 1 { '1' } else if d == 2 { '2' } else if d == 3 { '3' }
    else if d == 4 { '4' } else if d == 5 { '5' } else if d == 6 { '6' } else if d == 7 { '7' }
    else if d == 8 { '8' } else { '9' }
}

impl Moment {
    /// A calendar date that exists, in the years 0 to 9999, with a time of day
    /// that has no leap second.
    pub open spec fn valid(self) -> bool {
        &&& 0 <= self.year <= 9999
        &&& 1 <= self.month <= 12
        &&& 1 <= self.day <= days_in_month(self.year, self.month)
        &&& 0 <= self.hour < 24
        &&& 0 <= self.minute < 60
        &&& 0 <= self.second < 60
    }

    /// Chronological order.
    pub open spec fn before(self, other: Moment) -> bool {
        if self.year != other.year {
            self.year < other.year
        } else if self.month != other.month {
            self.month < other.month
        } else if self.day != other.day {
            self.day < other.day
        } else if self.hour != other.hour {
            self.hour < other.hour
        } else if self.minute != other.minute {
            self.minute < other.minute
        } else {
            self.second < other.second
        }
    }

    /// The form used in file names: `YYYY-MM-DDTHH-MM-SSZ`.
    pub open spec fn file_stamp(self) -> Seq<char> {
        self.stamp('-')
    }

    /// The date with `-` between its parts, `T`, the time of day with `sep`
    /// between its parts, and `Z`.
    pub open spec fn stamp(self, sep: char) -> Seq<char> {
        seq![
            digit(self.year / 1000),
            digit((self.year / 100) % 10),
            digit((self.year / 10) % 10),
            digit(self.year % 10),
            '-',
            digit(self.month / 10),
            digit(self.month % 10),
            '-',
            digit(self.day / 10),
            digit(self.day % 10),
            'T',
            digit(self.hour / 10),
            digit(self.hour % 10),
            sep,
            digit(self.minute / 10),
            digit(self.minute % 10),
            sep,
            digit(self.second / 10),
            digit(self.second % 10),
            'Z',
        ]
    }

    /// The form stored in headers: `YYYY-MM-DDTHH:MM:SSZ`.
    pub open spec fn header_stamp(self) -> Seq<char> {
        self.stamp(':')
    }

    /// The form used in the names of archives: `YYYYMMDD-HHMMSS`.
    pub open spec fn compact_stamp(self) -> Seq<char> {
        seq![
            digit(self.year / 1000),
            digit((self.year / 100) % 10),
            digit((self.year / 10) % 10),
            digit(self.year % 10),
            digit(self.month / 10),
            digit(self.month % 10),
            digit(self.day / 10),
            digit(self.day % 10),
            '-',
            digit(self.hour / 10),
            digit(self.hour % 10),
            digit(self.minute / 10),
            digit(self.minute % 10),
            digit(self.second / 10),
            digit(self.second % 10),
        ]
    }
}

/// What a moment looks like under one of the three patterns.
pub open spec fn formatted(m: Moment, pattern: Seq<char>) -> Seq<char> {
    if pattern == "%Y-%m-%dT%H-%M-%SZ"@ {
        m.file_stamp()
    } else if pattern == "%Y-%m-%dT%H:%M:%SZ"@ {
        m.header_stamp()
    } else {
        m.compact_stamp()
    }
}

/// The calendar fields of a parsed date and time, as the parser hands them over.
#[derive(Clone, Copy, Debug)]
pub struct StampFields {
    pub year: i32,
    pub month: u32,
    pub day: u32,
    pub hour: u32,
    pub minute: u32,
    pub second: u32,
}

/// The UTC calendar fields that `chrono` reads from an RFC 3339 text, or `None`
/// where it rejects the text.
pub uninterp spec fn parsed_rfc3339(text: Seq<char>) -> Option<StampFields>;

/// The moment that calendar fields name, if they name a valid one.
pub open spec fn moment_of_fields(f: StampFields) -> Option<Moment> {
    let m = Moment {
        year: f.year as int,
        month: f.month as int,
        day: f.day as int,
        hour: f.hour as int,
        minute: f.minute as int,
        second: f.second as int,
    };
    if m.valid() {
        Some(m)
    } else {
        None
    }
}

/// The moment that a header's timestamp text stands for.
pub open spec fn parsed_moment(text: Seq<char>) -> Option<Moment> {
    match parsed_rfc3339(text) {
        Some(f) => moment_of_fields(f),
        None => None,
    }
}

/// A moment in UTC. Every value of this type is a valid moment.
#[derive(Clone, Copy, Debug)]
pub struct Timestamp {
    year: u16,
    month: u8,
    day: u8,
    hour: u8,
    minute: u8,
    second: u8,
}

impl View for Timestamp {
    type V = Moment;

    closed spec fn view(&self) -> Moment {
        Moment {
            year: self.year as int,
            month: self.month as int,
            day: self.day as int,
            hour: self.hour as int,
            minute: self.minute as int,
            second: self.second as int,
        }
    }
}

/// The number of days in a month of a year.
pub fn month_length(year: u16, month: u8) -> (r: u8)
    ensures
        r == days_in_month(year as int, month as int),
{
    if month == 2 {
        if year % 4 == 0 && (year % 100 != 0 || year % 400 == 0) {
            29
        } else {
            28
        }
    } else if month == 4 || month == 6 || month == 9 || month == 11 {
        30
    } else {
        31
    }
}

impl Timestamp {
    /// What holds of every value of this type.
    #[verifier::type_invariant]
    pub open spec fn inv(self) -> bool {
        self@.valid()
    }

    /// The timestamp with the given fields, if they name a valid moment.
    pub fn new(year: u16, month: u8, day: u8, hour: u8, minute: u8, second: u8) -> (r: Option<
        Timestamp,
    >)
        ensures
            r is Some <==> (Moment {
                year: year as int,
                month: month as int,
                day: day as int,
                hour: hour as int,
                minute: minute as int,
                second: second as int,
            }).valid(),
            r is Some ==> r->0@ == (Moment {
                year: year as int,
                month: month as int,
                day: day as int,
                hour: hour as int,
                minute: minute as int,
                second: second as int,
            }),
    {
        if year > 9999 || month < 1 || month > 12 || day < 1 || hour >= 24 || minute >= 60
            || second >= 60 {
            return None;
        }
        if day > month_length(year, month) {
            return None;
        }
        Some(Timestamp { year, month, day, hour, minute, second })
    }

    /// The year.
    pub fn year(&self) -> (r: u16)
        ensures
            r == self@.year,
    {
        self.year
    }

    /// The month, from 1.
    pub fn month(&self) -> (r: u8)
        ensures
            r == self@.month,
    {
        self.month
    }

    /// The day of the month, from 1.
    pub fn day(&self) -> (r: u8)
        ensures
            r == self@.day,
    {
        self.day
    }

    /// The hour.
    pub fn hour(&self) -> (r: u8)
        ensures
            r == self@.hour,
    {
        self.hour
    }

    /// The minute.
    pub fn minute(&self) -> (r: u8)
        ensures
            r == self@.minute,
    {
        self.minute
    }

    /// The second.
    pub fn second(&self) -> (r: u8)
        ensures
            r == self@.second,
    {
        self.second
    }

    /// The timestamp that calendar fields name, if they name a valid moment.
    pub fn from_fields(f: StampFields) -> (r: Option<Timestamp>)
        ensures
            r is Some <==> moment_of_fields(f) is Some,
            r is Some ==> r->0@ == moment_of_fields(f)->0,
    {
        if f.year < 0 || f.year > 9999 || f.month > 12 || f.day > 31 || f.hour > 23 || f.minute
            > 59 || f.second > 59 {
            return None;
        }
        Timestamp::new(
            f.year as u16,
            f.month as u8,
            f.day as u8,
            f.hour as u8,
            f.minute as u8,
            f.second as u8,
        )
    }

    /// Reads a timestamp from RFC 3339 text, converted to UTC and cut to whole
    /// seconds. `None` where the text is rejected or lies outside the years 0
    /// to 9999.
    pub fn parse(text: &str) -> (r: Option<Timestamp>)
        ensures
            r is Some <==> parsed_moment(text@) is Some,
            r is Some ==> r->0@ == parsed_moment(text@)->0,
    {
        match chrono_parse(text) {
            Some(f) => Timestamp::from_fields(f),
            None => None,
        }
    }

    /// The form used in file names: `YYYY-MM-DDTHH-MM-SSZ`.
    pub fn file_stamp(&self) -> (r: String)
        ensures
            r@ == self@.file_stamp(),
    {
        proof {
            use_type_invariant(self);
        }
        chrono_format(self, "%Y-%m-%dT%H-%M-%SZ")
    }

    /// The form stored in headers: `YYYY-MM-DDTHH:MM:SSZ`.
    pub fn header_stamp(&self) -> (r: String)
        ensures
            r@ == self@.header_stamp(),
    {
        proof {
            use_type_invariant(self);
            reveal_strlit("%Y-%m-%dT%H-%M-%SZ");
            reveal_strlit("%Y-%m-%dT%H:%M:%SZ");
            assert("%Y-%m-%dT%H-%M-%SZ"@[11] == '-');
        }
        chrono_format(self, "%Y-%m-%dT%H:%M:%SZ")
    }

    /// The form used in the names of archives: `YYYYMMDD-HHMMSS`.
    pub fn compact_stamp(&self) -> (r: String)
        ensures
            r@ == self@.compact_stamp(),
    {
        proof {
            use_type_invariant(self);
            reveal_strlit("%Y-%m-%dT%H-%M-%SZ");
            reveal_strlit("%Y-%m-%dT%H:%M:%SZ");
            reveal_strlit("%Y%m%d-%H%M%S");
            assert("%Y%m%d-%H%M%S"@.len() == 13);
        }
        chrono_format(self, "%Y%m%d-%H%M%S")
    }

    /// Whether `self` is strictly earlier than `other`.
    pub fn is_before(&self, other: &Timestamp) -> (r: bool)
        ensures
            r == self@.before(other@),
    {
        if self.year != other.year {
            self.year < other.year
        } else if self.month != other.month {
            self.month < other.month
        } else if self.day != other.day {
            self.day < other.day
        } else if self.hour != other.hour {
            self.hour < other.hour
        } else if self.minute != other.minute {
            self.minute < other.minute
        } else {
            self.second < other.second
        }
    }

    /// Whether the two timestamps are the same moment.
    pub fn same_moment(&self, other: &Timestamp) -> (r: bool)
        ensures
            r == (self@ == other@),
    {
        self.year == other.year && self.month == other.month && self.day == other.day
            && self.hour == other.hour && self.minute == other.minute && self.second
            == other.second
    }
}

/// `chrono`'s `format` on a UTC date and time built from the fields of `ts`,
/// with one of the three patterns of this module. For a year from 0 to 9999
/// `%Y` writes four digits, and `%m`, `%d`, `%H`, `%M` and `%S` write two
/// digits each; the other characters of the pattern are copied.
#[verifier::external_body]
fn chrono_format(ts: &Timestamp, pattern: &str) -> (r: String)
    requires
        ts@.valid(),
        pattern@ == "%Y-%m-%dT%H-%M-%SZ"@ || pattern@ == "%Y-%m-%dT%H:%M:%SZ"@ || pattern@
            == "%Y%m%d-%H%M%S"@,
    ensures
        r@ == formatted(ts@, pattern@),
{
    let date = chrono::NaiveDate::from_ymd_opt(ts.year as i32, ts.month as u32, ts.day as u32);
    let at = date.unwrap().and_hms_opt(ts.hour as u32, ts.minute as u32, ts.second as u32);
    at.unwrap().and_utc().format(pattern).to_string()
}

/// `chrono`'s parser for `DateTime<FixedOffset>` (RFC 3339), followed by the
/// conversion to UTC; the result is handed over as calendar fields, without
/// the fraction of a second.
#[verifier::external_body]
fn chrono_parse(text: &str) -> (r: Option<StampFields>)
    ensures
        r == parsed_rfc3339(text@),
{
    match text.parse::<chrono::DateTime<chrono::FixedOffset>>() {
        Ok(at) => {
            let u = at.with_timezone(&chrono::Utc);
            Some(StampFields {
                year: u.year(),
                month: u.month(),
                day: u.day(),
                hour: u.hour(),
                minute: u.minute(),
                second: u.second(),
            })
        },
        Err(_) => None,
    }
}

/// Two texts that agree before index `k` and differ at `k` sort as their
/// characters at `k` do.
pub proof fn lemma_lex_first_difference(a: Seq<char>, b: Seq<char>, k: int, i: int)
    requires
        0 <= i <= k < a.len(),
        k < b.len(),
        forall|j: int| 0 <= j < k ==> a[j] == b[j],
        (a[k] as u32) < (b[k] as u32),
    ensures
        lex_lt_at(a, b, i),
    decreases k - i,
{
    if i < k {
        lemma_lex_first_difference(a, b, k, i + 1);
    }
}

/// The earlier of two valid moments has the stamp that sorts first, whatever
/// separates the parts of the time of day.
pub proof fn lemma_stamp_order(a: Moment, b: Moment, sep: char)
    requires
        a.valid(),
        b.valid(),
        a.before(b),
    ensures
        lex_lt(a.stamp(sep), b.stamp(sep)),
{
    let x = a.stamp(sep);
    let y = b.stamp(sep);
    if a.year != b.year {
        if a.year / 1000 != b.year / 1000 {
            lemma_lex_first_difference(x, y, 0, 0);
        } else if (a.year / 100) % 10 != (b.year / 100) % 10 {
            lemma_lex_first_difference(x, y, 1, 0);
        } else if (a.year / 10) % 10 != (b.year / 10) % 10 {
            lemma_lex_first_difference(x, y, 2, 0);
        } else {
            lemma_lex_first_difference(x, y, 3, 0);
        }
    } else if a.month != b.month {
        lemma_field_order(x, y, 5, a.month, b.month);
    } else if a.day != b.day {
        lemma_field_order(x, y, 8, a.day, b.day);
    } else if a.hour != b.hour {
        lemma_field_order(x, y, 11, a.hour, b.hour);
    } else if a.minute != b.minute {
        lemma_field_order(x, y, 14, a.minute, b.minute);
    } else {
        lemma_field_order(x, y, 17, a.second, b.second);
    }
}

/// Two texts that agree before a two-digit field at `at` sort as the numbers
/// in that field do.
proof fn lemma_field_order(x: Seq<char>, y: Seq<char>, at: int, a: int, b: int)
    requires
        0 <= a < b < 100,
        0 <= at,
        at + 1 < x.len(),
        at + 1 < y.len(),
        forall|j: int| 0 <= j < at ==> x[j] == y[j],
        x[at] == digit(a / 10),
        x[at + 1] == digit(a % 10),
        y[at] == digit(b / 10),
        y[at + 1] == digit(b % 10),
    ensures
        lex_lt(x, y),
{
    if a / 10 != b / 10 {
        lemma_lex_first_difference(x, y, at, 0);
    } else {
        lemma_lex_first_difference(x, y, at + 1, 0);
    }
}

/// Valid moments with one stamp are one moment.
pub proof fn lemma_stamp_injective(a: Moment, b: Moment, sep: char)
    requires
        a.valid(),
        b.valid(),
        a.stamp(sep) == b.stamp(sep),
    ensures
        a == b,
{
    if a != b {
        if a.before(b) {
            lemma_stamp_order(a, b, sep);
        } else {
            lemma_stamp_order(b, a, sep);
        }
        crate::text::lemma_lex_irreflexive(a.stamp(sep));
    }
}

} // verus!
