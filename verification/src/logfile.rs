//! The log: which file a line goes to, and what the line says.
//!
//! Each line starts with the time in UTC (ISO 8601, milliseconds), and there
//! is one file per UTC date, so that file names and lines always agree.

use vstd::prelude::*;
use vstd::arithmetic::div_mod::{lemma_fundamental_div_mod, lemma_fundamental_div_mod_converse};
use vstd::string::*;
use crate::text::{decimal, lemma_padded_text_tells_the_number, lemma_padded_width, zero_padded};

verus! {

/// Format of the date in a file name.
pub const DATE_FORMAT: &'static str = "%Y%m%d";

/// Format of the time at the start of a line.
pub const STAMP_FORMAT: &'static str = "%Y-%m-%dT%H:%M:%S%.3f";

/// First second that has a date: the start of the year -262143.
pub const FIRST_SECOND: i64 = -8_334_601_228_800;

/// Last second that has a date: the end of the year 262142.
pub const LAST_SECOND: i64 = 8_210_266_876_799;

/// A date of the proleptic Gregorian calendar.
pub struct Date {
    pub year: int,
    pub month: int,
    pub day: int,
}

/// Where a line goes, and what is written there.
pub struct LogRecord {
    pub file: String,
    pub line: String,
}

pub open spec fn leap_year(year: int) -> bool {
    year % 4 == 0 && (year % 100 != 0 || year % 400 == 0)
}

/// Days of the year before the first of a month, in a common year.
pub open spec fn days_before_month(month: int) -> int {
    if month <= 1 {
        0
    } else if month == 2 {
        31
    } else if month == 3 {
        59
    } else if month == 4 {
        90
    } else if month == 5 {
        120
    } else if month == 6 {
        151
    } else if month == 7 {
        181
    } else if month == 8 {
        212
    } else if month == 9 {
        243
    } else if month == 10 {
        273
    } else if month == 11 {
        304
    } else if month == 12 {
        334
    } else {
        365
    }
}

/// The first day of a month, counted from the first of January.
pub open spec fn month_start(year: int, month: int) -> int {
    days_before_month(month) + if month > 2 && leap_year(year) {
        1int
    } else {
        0
    }
}

/// The first day of a year, counted from the first of January 1970.
pub open spec fn year_start(year: int) -> int {
    let past = year - 1;
    365 * past + past / 4 - past / 100 + past / 400 - 719_162
}

impl Date {
    /// The calendar has this date.
    pub open spec fn valid(self) -> bool {
        &&& 1 <= self.month <= 12
        &&& 1 <= self.day <= month_start(self.year, self.month + 1) - month_start(
            self.year,
            self.month,
        )
    }

    /// The number of the day, where the first of January 1970 is day zero.
    pub open spec fn day_number(self) -> int {
        year_start(self.year) + month_start(self.year, self.month) + self.day - 1
    }
}

/// The UTC date on which a Unix time falls: the valid date with its day number.
pub open spec fn utc_date(secs: int) -> Date {
    choose|date: Date| #[trigger] date.valid() && date.day_number() == secs / 86_400
}

/// Whether `secs` and `nanos` since the start of 1970 are a time with a date.
/// The nanoseconds go past a second only in a leap second.
pub open spec fn has_date(secs: i64, nanos: u32) -> bool {
    &&& FIRST_SECOND <= secs <= LAST_SECOND
    &&& nanos < 1_000_000_000 || (nanos < 2_000_000_000 && secs as int % 60 == 59)
}

/// A year with four digits; with a sign where four unsigned digits do not do.
pub open spec fn year_text(year: int) -> Seq<char> {
    if 0 <= year <= 9999 {
        zero_padded(year as nat, 4)
    } else if year < 0 {
        "-"@ + zero_padded((-year) as nat, 4)
    } else {
        "+"@ + decimal(year as nat)
    }
}

/// Year, month and day of a Unix time, joined by `separator`.
pub open spec fn date_text(secs: int, separator: Seq<char>) -> Seq<char> {
    let date = utc_date(secs);
    year_text(date.year) + separator + zero_padded(date.month as nat, 2) + separator + zero_padded(
        date.day as nat,
        2,
    )
}

/// Hour, minute, second and millisecond of a Unix time.
pub open spec fn time_text(secs: int, nanos: nat) -> Seq<char> {
    let second_of_day = secs % 86_400;
    zero_padded((second_of_day / 3600) as nat, 2) + ":"@ + zero_padded(
        (second_of_day / 60 % 60) as nat,
        2,
    ) + ":"@ + zero_padded((second_of_day % 60) as nat + nanos / 1_000_000_000, 2) + "."@
        + zero_padded(nanos / 1_000_000 % 1000, 3)
}

/// Calls `chrono::DateTime::from_timestamp` and formats the time that it
/// gives, if any, with `chrono::DateTime::format`. Claimed: there is a time
/// for the seconds of the years -262143 to 262142, with nanoseconds below a
/// second, or below two in the last second of a minute; `%Y%m%d` writes its
/// UTC date, and `%Y-%m-%dT%H:%M:%S%.3f` its UTC date and time of day, each
/// number padded with zeros, the milliseconds cut off and not rounded, and the
/// year signed outside 0 to 9999. Other formats are not called for.
#[verifier::external_body]
fn format_utc(secs: i64, nanos: u32, format: &str) -> (res: Option<String>)
    requires
        format@ == DATE_FORMAT@ || format@ == STAMP_FORMAT@,
    ensures
        res is Some <==> has_date(secs, nanos),
        res is Some && format@ == DATE_FORMAT@ ==> res->0@ == date_text(secs as int, seq![]),
        res is Some && format@ == STAMP_FORMAT@ ==> res->0@ == date_text(secs as int, "-"@) + "T"@
            + time_text(secs as int, nanos as nat),
{
    match chrono::DateTime::from_timestamp(secs, nanos) {
        Some(time) => Some(time.format(format).to_string()),
        None => None,
    }
}

/// The name of the file for the lines of a day.
pub open spec fn file_name(secs: int) -> Seq<char> {
    "pciewatch-"@ + date_text(secs, seq![]) + ".log"@
}

/// A line of the log.
pub open spec fn line_text(secs: int, nanos: nat, msg: Seq<char>) -> Seq<char> {
    date_text(secs, "-"@) + "T"@ + time_text(secs, nanos) + "Z "@ + msg
}

/// Where and how a message is logged at `secs` and `nanos` since the start of
/// 1970 in UTC; nothing where that is no time with a date.
pub fn log_line(secs: i64, nanos: u32, msg: &str) -> (res: Option<LogRecord>)
    ensures
        res is Some <==> has_date(secs, nanos),
        res matches Some(record) ==> {
            &&& record.file@ == file_name(secs as int)
            &&& record.line@ == line_text(secs as int, nanos as nat, msg@)
        },
{
    let date = match format_utc(secs, nanos, DATE_FORMAT) {
        Some(date) => date,
        None => {
            return None;
        },
    };
    let mut line = match format_utc(secs, nanos, STAMP_FORMAT) {
        Some(stamp) => stamp,
        None => {
            return None;
        },
    };
    let mut file: String = "pciewatch-".to_owned();
    file.append(date.as_str());
    file.append(".log");
    line.append("Z ");
    line.append(msg);
    Some(LogRecord { file, line })
}

/// The calendar has a date for every day: the one after the date of the day
/// before, or the one before the date of the day after.
proof fn lemma_date_exists(day: int) -> (date: Date)
    ensures
        date.valid(),
        date.day_number() == day,
    decreases if day < 0 {
        -day
    } else {
        day
    },
{
    if day == 0 {
        Date { year: 1970, month: 1, day: 1 }
    } else if day > 0 {
        let before = lemma_date_exists(day - 1);
        let Date { year, month, day: d } = before;
        lemma_year_length(year);
        if d < month_start(year, month + 1) - month_start(year, month) {
            Date { year, month, day: d + 1 }
        } else if month < 12 {
            Date { year, month: month + 1, day: 1 }
        } else {
            Date { year: year + 1, month: 1, day: 1 }
        }
    } else {
        let after = lemma_date_exists(day + 1);
        let Date { year, month, day: d } = after;
        lemma_year_length(year - 1);
        if d > 1 {
            Date { year, month, day: d - 1 }
        } else if month > 1 {
            Date {
                year,
                month: month - 1,
                day: month_start(year, month) - month_start(year, month - 1),
            }
        } else {
            Date { year: year - 1, month: 12, day: 31 }
        }
    }
}

proof fn lemma_years_in_order(a: int, b: int)
    requires
        a <= b,
    ensures
        year_start(a) + 365 * (b - a) <= year_start(b),
    decreases b - a,
{
    if a < b {
        lemma_years_in_order(a, b - 1);
        lemma_year_length(b - 1);
    }
}

/// Counting on by one reaches a new multiple of `d`, or stays under the next.
proof fn lemma_count_of_multiples(n: int, d: int)
    requires
        d > 1,
    ensures
        n / d == (n - 1) / d + if n % d == 0 {
            1int
        } else {
            0
        },
{
    lemma_fundamental_div_mod(n, d);
    let q = n / d;
    let r = n % d;
    assert(d * q == q * d) by (nonlinear_arith);
    if r == 0 {
        assert((q - 1) * d == q * d - d) by (nonlinear_arith);
        lemma_fundamental_div_mod_converse(n - 1, d, q - 1, d - 1);
    } else {
        lemma_fundamental_div_mod_converse(n - 1, d, q, r - 1);
    }
}

/// Whole centuries are multiples of four, and four of them whole centuries.
proof fn lemma_multiples(n: int)
    ensures
        n % 100 == 0 ==> n % 4 == 0,
        n % 400 == 0 ==> n % 100 == 0,
{
}

/// Each year ends where the next one starts.
proof fn lemma_year_length(year: int)
    ensures
        year_start(year + 1) == year_start(year) + if leap_year(year) {
            366int
        } else {
            365
        },
{
    lemma_count_of_multiples(year, 4);
    lemma_count_of_multiples(year, 100);
    lemma_count_of_multiples(year, 400);
    lemma_multiples(year);
}

/// A day number belongs to one date only.
pub proof fn law_day_number_tells_the_date(a: Date, b: Date)
    requires
        a.valid(),
        b.valid(),
        a.day_number() == b.day_number(),
    ensures
        a == b,
{
    lemma_year_length(a.year);
    lemma_year_length(b.year);
    if a.year < b.year {
        lemma_years_in_order(a.year + 1, b.year);
    } else if b.year < a.year {
        lemma_years_in_order(b.year + 1, a.year);
    }
}

/// Every Unix time falls on a date, and on one only.
pub proof fn law_utc_date(secs: int, date: Date)
    ensures
        utc_date(secs).valid(),
        utc_date(secs).day_number() == secs / 86_400,
        date.valid() && date.day_number() == secs / 86_400 ==> utc_date(secs) == date,
{
    let witness = lemma_date_exists(secs / 86_400);
    assert(witness.valid() && witness.day_number() == secs / 86_400);
    if date.valid() && date.day_number() == secs / 86_400 {
        law_day_number_tells_the_date(utc_date(secs), date);
    }
}

/// The date in the name of a file is the date at the start of each line that
/// goes there.
pub proof fn law_file_name_and_line_agree(secs: int, nanos: nat, msg: Seq<char>)
    ensures
        exists|year: Seq<char>, month: Seq<char>, day: Seq<char>|
            {
                &&& file_name(secs) == "pciewatch-"@ + (year + month + day) + ".log"@
                &&& (#[trigger] (year + "-"@ + month + "-"@ + day + "T"@)).is_prefix_of(
                    line_text(secs, nanos, msg),
                )
            },
{
    let date = utc_date(secs);
    let year = year_text(date.year);
    let month = zero_padded(date.month as nat, 2);
    let day = zero_padded(date.day as nat, 2);
    assert(date_text(secs, seq![]) == year + month + day);
    let start = year + "-"@ + month + "-"@ + day + "T"@;
    assert(start.is_prefix_of(line_text(secs, nanos, msg)));
}

proof fn lemma_year_text_tells_the_year(a: int, b: int)
    ensures
        year_text(a) == year_text(b) ==> a == b,
{
    reveal_strlit("-");
    reveal_strlit("+");
    let pa = if a < 0 {
        (-a) as nat
    } else {
        a as nat
    };
    let pb = if b < 0 {
        (-b) as nat
    } else {
        b as nat
    };
    lemma_padded_width(pa, 4);
    lemma_padded_width(pb, 4);
    lemma_padded_text_tells_the_number(pa, pb, 4);
    if year_text(a) == year_text(b) {
        assert(year_text(a)[0] == year_text(b)[0]);
        if a < 0 {
            assert(year_text(a).skip(1) == zero_padded(pa, 4));
            assert(year_text(b).skip(1) == zero_padded(pb, 4));
        } else if a > 9999 {
            assert(year_text(a).skip(1) == decimal(pa));
            assert(year_text(b).skip(1) == decimal(pb));
        }
    }
}

/// Two lines go to the same file exactly where they fall on the same UTC day.
pub proof fn law_one_file_per_day(a: int, b: int)
    ensures
        file_name(a) == file_name(b) <==> a / 86_400 == b / 86_400,
{
    let da = utc_date(a);
    let db = utc_date(b);
    law_utc_date(a, da);
    law_utc_date(b, db);
    if a / 86_400 == b / 86_400 {
        law_day_number_tells_the_date(da, db);
    }
    if file_name(a) == file_name(b) {
        let ta = date_text(a, seq![]);
        let tb = date_text(b, seq![]);
        let prefix = "pciewatch-"@;
        let suffix = ".log"@;
        assert(file_name(a).subrange(
            prefix.len() as int,
            file_name(a).len() - suffix.len(),
        ) == ta);
        assert(file_name(b).subrange(
            prefix.len() as int,
            file_name(b).len() - suffix.len(),
        ) == tb);
        lemma_padded_width(da.month as nat, 2);
        lemma_padded_width(db.month as nat, 2);
        lemma_padded_width(da.day as nat, 2);
        lemma_padded_width(db.day as nat, 2);
        assert(ta.take(ta.len() - 4) == year_text(da.year));
        assert(tb.take(tb.len() - 4) == year_text(db.year));
        assert(ta.subrange(ta.len() - 4, ta.len() - 2) == zero_padded(da.month as nat, 2));
        assert(tb.subrange(tb.len() - 4, tb.len() - 2) == zero_padded(db.month as nat, 2));
        assert(ta.skip(ta.len() - 2) == zero_padded(da.day as nat, 2));
        assert(tb.skip(tb.len() - 2) == zero_padded(db.day as nat, 2));
        lemma_year_text_tells_the_year(da.year, db.year);
        lemma_padded_text_tells_the_number(da.month as nat, db.month as nat, 2);
        lemma_padded_text_tells_the_number(da.day as nat, db.day as nat, 2);
    }
}

/// Every time of the years -262143 to 262142 has a date, and is logged: those
/// before 1970 and those within a leap second too. No other has one.
pub proof fn law_times_with_a_date(secs: i64, nanos: u32)
    ensures
        -8_334_601_228_800 <= secs <= 8_210_266_876_799 && nanos < 1_000_000_000 ==> has_date(
            secs,
            nanos,
        ),
        -8_334_601_228_800 <= secs <= 8_210_266_876_799 && nanos < 2_000_000_000 && secs as int % 60
            == 59 ==> has_date(secs, nanos),
        has_date(secs, nanos) ==> -8_334_601_228_800 <= secs <= 8_210_266_876_799 && nanos
            < 2_000_000_000,
        has_date(secs, nanos) && nanos >= 1_000_000_000 ==> secs as int % 60 == 59,
{
}

/// A line ends with its whole message, whatever the message: two lines of the
/// same time differ in nothing else, and no line says less than its message.
pub proof fn law_line_ends_with_its_message(
    secs: int,
    nanos: nat,
    msg: Seq<char>,
    other: Seq<char>,
)
    ensures
        line_text(secs, nanos, msg) == line_text(secs, nanos, seq![]) + msg,
        line_text(secs, nanos, msg).skip(line_text(secs, nanos, seq![]).len() as int) == msg,
        line_text(secs, nanos, msg + other) == line_text(secs, nanos, msg) + other,
        line_text(secs, nanos, msg) == line_text(secs, nanos, other) ==> msg == other,
{
    let stamp = line_text(secs, nanos, seq![]);
    assert(line_text(secs, nanos, msg) == stamp + msg);
    assert(line_text(secs, nanos, other) == stamp + other);
    lemma_after_stamp(stamp, msg);
    lemma_after_stamp(stamp, other);
}

proof fn lemma_after_stamp(stamp: Seq<char>, msg: Seq<char>)
    ensures
        (stamp + msg).skip(stamp.len() as int) == msg,
{
}

/// In front of the message stand the date, a `T`, the time of day and `Z `.
/// The time of day is hour, minute, second and millisecond, where hours of
/// sixty minutes of sixty seconds make up the second of the day; a leap second
/// is one more than the second that it goes with.
pub proof fn law_line_starts_with_the_time(
    secs: int,
    nanos: nat,
    msg: Seq<char>,
    hour: nat,
    minute: nat,
    second: nat,
    leap: nat,
    milli: nat,
)
    requires
        secs % 86_400 == hour * 3600 + minute * 60 + second,
        minute < 60,
        second < 60,
        leap <= 1,
        milli < 1000,
        leap * 1_000_000_000 + milli * 1_000_000 <= nanos,
        nanos < leap * 1_000_000_000 + (milli + 1) * 1_000_000,
    ensures
        ({
            let line = line_text(secs, nanos, msg);
            let end = line.len() - msg.len();
            &&& line.subrange(end - 2, end) == "Z "@
            &&& line.subrange(end - 5, end - 2) == zero_padded(milli, 3)
            &&& line[end - 6] == '.'
            &&& line.subrange(end - 8, end - 6) == zero_padded(second + leap, 2)
            &&& line[end - 9] == ':'
            &&& line.subrange(end - 11, end - 9) == zero_padded(minute, 2)
            &&& line[end - 12] == ':'
            &&& line.subrange(end - 14, end - 12) == zero_padded(hour, 2)
            &&& line[end - 15] == 'T'
            &&& line.take(end - 15) == date_text(secs, "-"@)
        }),
{
    reveal_strlit("Z ");
    reveal_strlit("T");
    reveal_strlit(":");
    reveal_strlit(".");
    let of_day = secs % 86_400;
    assert(of_day / 3600 == hour);
    assert(of_day / 60 == hour * 60 + minute);
    assert(of_day / 60 % 60 == minute);
    assert(of_day % 60 == second);
    assert(nanos / 1_000_000 == leap * 1000 + milli);
    assert(nanos / 1_000_000 % 1000 == milli);
    assert(nanos / 1_000_000_000 == leap);
    lemma_padded_width(hour, 2);
    lemma_padded_width(minute, 2);
    lemma_padded_width(second + leap, 2);
    lemma_padded_width(milli, 3);
}

/// The name of a file and the start of its lines spell the date of the day:
/// the one that the calendar gives to its number. The year has four digits
/// where it can, and a sign where it cannot.
pub proof fn law_file_is_named_after_the_date(secs: int, nanos: nat, msg: Seq<char>, date: Date)
    requires
        date.valid(),
        date.day_number() == secs / 86_400,
    ensures
        ({
            let year = if 0 <= date.year <= 9999 {
                zero_padded(date.year as nat, 4)
            } else if date.year < 0 {
                "-"@ + zero_padded((-date.year) as nat, 4)
            } else {
                "+"@ + decimal(date.year as nat)
            };
            let month = zero_padded(date.month as nat, 2);
            let day = zero_padded(date.day as nat, 2);
            &&& file_name(secs) == "pciewatch-"@ + year + month + day + ".log"@
            &&& (year + "-"@ + month + "-"@ + day + "T"@).is_prefix_of(line_text(secs, nanos, msg))
        }),
{
    law_utc_date(secs, date);
    let year = year_text(date.year);
    let month = zero_padded(date.month as nat, 2);
    let day = zero_padded(date.day as nat, 2);
    assert(file_name(secs) == "pciewatch-"@ + year + month + day + ".log"@);
    assert((year + "-"@ + month + "-"@ + day + "T"@).is_prefix_of(line_text(secs, nanos, msg)));
}

/// The calendar counts from the first of January 1970, which is day zero. The
/// day after a date is the next of the month, or the first of the next month,
/// or the first of January; a month has thirty-one days, or thirty in April,
/// June, September and November, or in February twenty-eight, and one more in
/// a year that four divides, but not a hundred unless four hundred does.
pub proof fn law_calendar_goes_day_by_day(year: int, month: int, day: int)
    requires
        1 <= month <= 12,
    ensures
        (Date { year: 1970, month: 1, day: 1 }).day_number() == 0,
        ({
            let leap = year % 4 == 0 && (year % 100 != 0 || year % 400 == 0);
            let last = if month == 4 || month == 6 || month == 9 || month == 11 {
                30int
            } else if month == 2 && leap {
                29
            } else if month == 2 {
                28
            } else {
                31
            };
            let today = Date { year, month, day };
            &&& today.valid() <==> 1 <= day <= last
            &&& (Date { year, month, day: day + 1 }).day_number() == today.day_number() + 1
            &&& day == last && month < 12 ==> (Date {
                year,
                month: month + 1,
                day: 1,
            }).day_number() == today.day_number() + 1
            &&& day == last && month == 12 ==> (Date {
                year: year + 1,
                month: 1,
                day: 1,
            }).day_number() == today.day_number() + 1
        }),
{
    lemma_year_length(year);
}

} // verus!
