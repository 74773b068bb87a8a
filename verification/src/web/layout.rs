//! Shared page helpers: date-times shown in Asia/Shanghai time (UTC+8).

use vstd::prelude::*;
use crate::domain::rule_engine::{MIN_INSTANT_NANOS, MAX_INSTANT_NANOS};
use crate::text::{int_text, i128_text, push_char};
use crate::providers::fund_source::{days_from_civil, days_in_month, shanghai_wall_clock};

verus! {

/// Nanoseconds in eight hours, the offset of Asia/Shanghai from UTC.
pub const SHANGHAI_OFFSET_NANOS: i128 = 28_800_000_000_000;

/// Whether an instant, and the same instant read in UTC+8, are date-times the `time` crate holds.
pub open spec fn shown_in_shanghai(unix_nanos: int) -> bool {
    MIN_INSTANT_NANOS <= unix_nanos && unix_nanos + SHANGHAI_OFFSET_NANOS <= MAX_INSTANT_NANOS
}

/// The date (year, month, day) of the proleptic Gregorian calendar that lies `days` days after
/// 1970-01-01 (before it where negative): the inverse of `days_from_civil`.
pub open spec fn civil_from_days(days: int) -> (int, int, int) {
    let z = days + 719468;
    let era = z / 146097;
    let day_of_era = z - era * 146097;
    let year_of_era = (day_of_era - day_of_era / 1460 + day_of_era / 36524 - day_of_era / 146096) / 365;
    let day_of_year = day_of_era - (365 * year_of_era + year_of_era / 4 - year_of_era / 100);
    let shifted_month = (5 * day_of_year + 2) / 153;
    let day = day_of_year - (153 * shifted_month + 2) / 5 + 1;
    let month = if shifted_month < 10 {
        shifted_month + 3
    } else {
        shifted_month - 9
    };
    let year = year_of_era + era * 400 + if month <= 2 {
        1int
    } else {
        0int
    };
    (year, month, day)
}

/// Calendar fields (year, month, day, hour, minute, second) of an instant read in UTC+8: the
/// whole seconds of the instant plus eight hours, split into a date and a time of day.
pub open spec fn shanghai_fields(unix_nanos: int) -> (int, int, int, int, int, int) {
    let seconds = (unix_nanos + SHANGHAI_OFFSET_NANOS) / 1_000_000_000;
    let date = civil_from_days(seconds / 86400);
    let of_day = seconds % 86400;
    (date.0, date.1, date.2, of_day / 3600, of_day % 3600 / 60, of_day % 60)
}

/// The `time` crate's `Display` text of an instant converted to UTC+8.
pub uninterp spec fn shanghai_display(unix_nanos: int) -> Seq<char>;

/// Calendar fields of the instant in UTC+8: `OffsetDateTime::from_unix_timestamp_nanos`, then
/// `to_offset(+08:00)`, then `year`, `month`, `day`, `hour`, `minute`, `second`; they are
/// `shanghai_fields` of the instant.
#[verifier::external_body]
fn shanghai_calendar(unix_nanos: i128) -> (res: (i32, u8, u8, u8, u8, u8))
    requires
        shown_in_shanghai(unix_nanos as int),
    ensures
        (res.0 as int, res.1 as int, res.2 as int, res.3 as int, res.4 as int, res.5 as int)
            == shanghai_fields(unix_nanos as int),
{
    let offset = time::UtcOffset::from_hms(8, 0, 0).unwrap();
    let local = time::OffsetDateTime::from_unix_timestamp_nanos(unix_nanos).unwrap().to_offset(offset);
    (local.year(), u8::from(local.month()), local.day(), local.hour(), local.minute(), local.second())
}

/// The `time` crate's `Display` of the instant converted to UTC+8
/// (`OffsetDateTime::to_offset`, then `to_string`).
#[verifier::external_body]
pub(crate) fn display_offset_datetime(unix_nanos: i128) -> (res: String)
    requires
        shown_in_shanghai(unix_nanos as int),
    ensures
        res@ == shanghai_display(unix_nanos as int),
{
    let offset = time::UtcOffset::from_hms(8, 0, 0).unwrap();
    time::OffsetDateTime::from_unix_timestamp_nanos(unix_nanos).unwrap().to_offset(offset).to_string()
}

/// `n` in decimal, padded with zeros after the sign to at least `width` characters
/// (what `{:0width$}` prints).
pub open spec fn zero_padded(n: int, width: nat) -> Seq<char> {
    let digits = int_text(if n < 0 { -n } else { n });
    let sign = if n < 0 { seq!['-'] } else { Seq::<char>::empty() };
    let pad = if digits.len() + sign.len() < width {
        (width - digits.len() - sign.len()) as nat
    } else {
        0nat
    };
    sign + Seq::new(pad, |i: int| '0') + digits
}

fn padded(n: i32, width: usize) -> (res: String)
    requires
        width <= 8,
    ensures
        res@ == zero_padded(n as int, width as nat),
{
    let magnitude: i128 = if n < 0 {
        -(n as i128)
    } else {
        n as i128
    };
    let digits = i128_text(magnitude);
    let digit_count = digits.as_str().unicode_len();
    let sign_len: usize = if n < 0 {
        1
    } else {
        0
    };
    let mut res = String::new();
    if n < 0 {
        push_char(&mut res, '-');
    }
    let ghost sign = if n < 0 { seq!['-'] } else { Seq::<char>::empty() };
    assert(res@ =~= sign);
    let pad: usize = if digit_count < width && sign_len < width - digit_count {
        width - digit_count - sign_len
    } else {
        0
    };
    let mut i: usize = 0;
    while i < pad
        invariant
            i <= pad,
            res@ =~= sign + Seq::new(i as nat, |k: int| '0'),
        decreases pad - i,
    {
        push_char(&mut res, '0');
        assert(Seq::new(i as nat, |k: int| '0').push('0') =~= Seq::new((i + 1) as nat, |k: int| '0'));
        i = i + 1;
    }
    res.append(digits.as_str());
    res
}

/// The clock text of a date-time in UTC+8.
pub open spec fn clock_text(unix_nanos: int) -> Seq<char> {
    let f = shanghai_fields(unix_nanos);
    zero_padded(f.0, 4) + "-"@ + zero_padded(f.1, 2) + "-"@ + zero_padded(f.2, 2) + " "@
        + zero_padded(f.3, 2) + ":"@ + zero_padded(f.4, 2) + ":"@ + zero_padded(f.5, 2)
}

/// A date-time shown in UTC+8 as `YYYY-MM-DD HH:MM:SS`.
pub fn display_datetime(unix_nanos: i128) -> (res: String)
    requires
        shown_in_shanghai(unix_nanos as int),
    ensures
        res@ == clock_text(unix_nanos as int),
{
    let f = shanghai_calendar(unix_nanos);
    let mut res = padded(f.0, 4);
    res.append("-");
    res.append(padded(f.1 as i32, 2).as_str());
    res.append("-");
    res.append(padded(f.2 as i32, 2).as_str());
    res.append(" ");
    res.append(padded(f.3 as i32, 2).as_str());
    res.append(":");
    res.append(padded(f.4 as i32, 2).as_str());
    res.append(":");
    res.append(padded(f.5 as i32, 2).as_str());
    res
}

proof fn lemma_year_of_era(day_of_era: int)
    requires
        0 <= day_of_era < 146097,
    ensures
        ({
            let year_of_era = (day_of_era - day_of_era / 1460 + day_of_era / 36524 - day_of_era / 146096) / 365;
            &&& 0 <= year_of_era < 400
            &&& 0 <= day_of_era - (365 * year_of_era + year_of_era / 4 - year_of_era / 100) <= 365
        }),
{
}

proof fn lemma_month_of_year(day_of_year: int)
    requires
        0 <= day_of_year <= 365,
    ensures
        0 <= (5 * day_of_year + 2) / 153 < 12,
        (153 * ((5 * day_of_year + 2) / 153) + 2) / 5 <= day_of_year,
{
}

proof fn lemma_last_day_of_era_year(day_of_era: int)
    requires
        0 <= day_of_era < 146097,
        ({
            let year_of_era = (day_of_era - day_of_era / 1460 + day_of_era / 36524 - day_of_era / 146096) / 365;
            day_of_era - (365 * year_of_era + year_of_era / 4 - year_of_era / 100) == 365
        }),
    ensures
        ({
            let year_of_era = (day_of_era - day_of_era / 1460 + day_of_era / 36524 - day_of_era / 146096) / 365;
            (year_of_era + 1) % 4 == 0 && ((year_of_era + 1) % 100 != 0 || year_of_era + 1 == 400)
        }),
{
}

proof fn lemma_day_of_month(day_of_year: int)
    requires
        0 <= day_of_year <= 365,
    ensures
        ({
            let shifted_month = (5 * day_of_year + 2) / 153;
            let day = day_of_year - (153 * shifted_month + 2) / 5 + 1;
            let month = if shifted_month < 10 {
                shifted_month + 3
            } else {
                shifted_month - 9
            };
            &&& 1 <= day
            &&& day <= (if month == 2 {
                if day_of_year == 365 {
                    29int
                } else {
                    28int
                }
            } else if month == 4 || month == 6 || month == 9 || month == 11 {
                30int
            } else {
                31int
            })
        }),
{
}

/// Reading a day count as a date and counting the days of that date again gives the day count
/// back.
pub proof fn law_days_of_civil_date_round_trip(days: int)
    ensures
        ({
            let date = civil_from_days(days);
            days_from_civil(date.0, date.1, date.2) == days
        }),
{
    let z = days + 719468;
    let era = z / 146097;
    let day_of_era = z - era * 146097;
    lemma_year_of_era(day_of_era);
    let year_of_era = (day_of_era - day_of_era / 1460 + day_of_era / 36524 - day_of_era / 146096) / 365;
    let day_of_year = day_of_era - (365 * year_of_era + year_of_era / 4 - year_of_era / 100);
    lemma_month_of_year(day_of_year);
    let y = year_of_era + era * 400;
    assert(y / 400 == era);
}

/// A day count read as a date is a date of the proleptic Gregorian calendar: a month from 1 to
/// 12 and a day within that month, leap years counted.
pub proof fn law_civil_date_is_valid(days: int)
    ensures
        ({
            let date = civil_from_days(days);
            &&& 1 <= date.1 <= 12
            &&& 1 <= date.2 <= days_in_month(date.0, date.1)
        }),
{
    let z = days + 719468;
    let era = z / 146097;
    let day_of_era = z - era * 146097;
    lemma_year_of_era(day_of_era);
    let year_of_era = (day_of_era - day_of_era / 1460 + day_of_era / 36524 - day_of_era / 146096) / 365;
    let day_of_year = day_of_era - (365 * year_of_era + year_of_era / 4 - year_of_era / 100);
    lemma_month_of_year(day_of_year);
    lemma_day_of_month(day_of_year);
    if day_of_year == 365 {
        lemma_last_day_of_era_year(day_of_era);
        let y = year_of_era + era * 400 + 1;
        assert(y % 4 == (year_of_era + 1) % 4);
        assert(y % 100 == (year_of_era + 1) % 100);
        assert(year_of_era + 1 == 400 ==> y % 400 == 0);
    }
}

/// The calendar fields of an instant read in UTC+8 are a date of the proleptic Gregorian
/// calendar and a time of day, and counting the seconds from 1970-01-01T00:00 to them gives the
/// whole seconds of the instant plus eight hours.
pub proof fn law_shanghai_fields_count_back(unix_nanos: int)
    ensures
        ({
            let f = shanghai_fields(unix_nanos);
            &&& 1 <= f.1 <= 12
            &&& 1 <= f.2 <= days_in_month(f.0, f.1)
            &&& 0 <= f.3 < 24
            &&& 0 <= f.4 < 60
            &&& 0 <= f.5 < 60
            &&& days_from_civil(f.0, f.1, f.2) * 86400 + f.3 * 3600 + f.4 * 60 + f.5 == (unix_nanos
                + SHANGHAI_OFFSET_NANOS) / 1_000_000_000
        }),
{
    let seconds = (unix_nanos + SHANGHAI_OFFSET_NANOS) / 1_000_000_000;
    let days = seconds / 86400;
    let of_day = seconds % 86400;
    law_civil_date_is_valid(days);
    law_days_of_civil_date_round_trip(days);
    let date = civil_from_days(days);
    assert(shanghai_fields(unix_nanos) == (date.0, date.1, date.2, of_day / 3600, of_day % 3600 / 60, of_day % 60));
    assert(days * 86400 + of_day == seconds);
    assert(of_day / 3600 * 3600 + of_day % 3600 / 60 * 60 + of_day % 60 == of_day);
}

proof fn lemma_era_year_of_days(year_of_era: int, day_of_year: int)
    requires
        0 <= year_of_era < 400,
        0 <= day_of_year <= 365,
        day_of_year == 365 ==> (year_of_era + 1) % 4 == 0 && ((year_of_era + 1) % 100 != 0 || year_of_era
            + 1 == 400),
    ensures
        ({
            let day_of_era = year_of_era * 365 + year_of_era / 4 - year_of_era / 100 + day_of_year;
            &&& 0 <= day_of_era < 146097
            &&& (day_of_era - day_of_era / 1460 + day_of_era / 36524 - day_of_era / 146096) / 365
                == year_of_era
        }),
{
}

proof fn lemma_shifted_month_of_day(shifted_month: int, day: int)
    requires
        0 <= shifted_month < 12,
        1 <= day <= (if shifted_month == 11 {
            29int
        } else if shifted_month == 1 || shifted_month == 3 || shifted_month == 6 || shifted_month == 8 {
            30int
        } else {
            31int
        }),
    ensures
        ({
            let day_of_year = (153 * shifted_month + 2) / 5 + day - 1;
            &&& 0 <= day_of_year <= 365
            &&& (day_of_year == 365 ==> shifted_month == 11 && day == 29)
            &&& (5 * day_of_year + 2) / 153 == shifted_month
        }),
{
}

/// Counting the days of a date of the proleptic Gregorian calendar and reading the count as a
/// date again gives the date back.
#[verifier::rlimit(50)]
pub proof fn law_civil_date_round_trip(year: int, month: int, day: int)
    requires
        1 <= month <= 12,
        1 <= day <= days_in_month(year, month),
    ensures
        civil_from_days(days_from_civil(year, month, day)) == (year, month, day),
{
    let y = if month <= 2 {
        year - 1
    } else {
        year
    };
    let era = y / 400;
    let year_of_era = y - era * 400;
    let shifted_month = if month > 2 {
        month - 3
    } else {
        month + 9
    };
    lemma_shifted_month_of_day(shifted_month, day);
    let day_of_year = (153 * shifted_month + 2) / 5 + day - 1;
    if day_of_year == 365 {
        assert(year % 4 == (year_of_era + 1) % 4);
        assert(year % 100 == (year_of_era + 1) % 100);
        assert(year % 400 == (year_of_era + 1) % 400);
    }
    lemma_era_year_of_days(year_of_era, day_of_year);
    let day_of_era = year_of_era * 365 + year_of_era / 4 - year_of_era / 100 + day_of_year;
    let z = era * 146097 + day_of_era;
    assert(days_from_civil(year, month, day) + 719468 == z);
    assert(z / 146097 == era);
    assert(z - (z / 146097) * 146097 == day_of_era);
}

/// An instant made from a wall-clock time in UTC+8 reads back as that wall-clock time.
pub proof fn law_wall_clock_reads_back(year: int, month: int, day: int, hour: int, minute: int, second: int)
    requires
        1 <= month <= 12,
        1 <= day <= days_in_month(year, month),
        0 <= hour < 24,
        0 <= minute < 60,
        0 <= second < 60,
    ensures
        shanghai_fields(shanghai_wall_clock(year, month, day, hour, minute, second)) == (
            year,
            month,
            day,
            hour,
            minute,
            second,
        ),
{
    law_civil_date_round_trip(year, month, day);
    let days = days_from_civil(year, month, day);
    let seconds = days * 86400 + hour * 3600 + minute * 60 + second;
    assert((seconds - 28800) * 1_000_000_000 + SHANGHAI_OFFSET_NANOS == seconds * 1_000_000_000);
    assert(seconds * 1_000_000_000 / 1_000_000_000 == seconds) by (nonlinear_arith);
    assert(seconds / 86400 == days);
    assert(seconds % 86400 == hour * 3600 + minute * 60 + second);
}

} // verus!
