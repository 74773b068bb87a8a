//! The Eastmoney fund data source: where it is asked, how its answers are read, and how a
//! valuation answer is merged into a snapshot.
//!
//! Decimal readings arrive as `Number`s: the caller reads the decimals (and computes the rates
//! derived from them), the library decides which reading goes where.

use vstd::prelude::*;
use crate::app::errors::FundIngestError;
use crate::domain::fund_quote::{Number, NewFundQuote, copy_number};
use crate::text::{
    chars_of, concat, concat3, contains, contains_seq, text_eq, trim, trim_seq, opt_seq, trim_start_char, trim_start_char_seq, i64_text, int_text,
    parse_integer, parse_integer_seq, all_digits, lemma_digits_value_nonneg,
};
use crate::web::layout::shown_in_shanghai;

verus! {

/// Name of the net value source.
pub const SOURCE_NAME: &'static str = "eastmoney/pingzhongdata";

/// Name of the valuation source.
pub const VALUATION_SOURCE_NAME: &'static str = "eastmoney/fundcomapi";

/// Base URL of the net value source.
pub const EASTMONEY_BASE_URL: &'static str = "https://fund.eastmoney.com";

/// Base URL of the primary valuation service.
pub const VALUATION_PRIMARY_BASE_URL: &'static str = "https://fundcomapi.eastmoney.com";

/// Base URL of the fallback valuation service.
pub const VALUATION_FALLBACK_BASE_URL: &'static str = "https://fundcomapi.tiantianfunds.com";

/// Path (with query) of the latest-valuation call.
pub const VALUATION_PATH: &'static str = "mm/newCore/FundValuationLast?deviceid=1234567.py.service&version=6.5.5&appVersion=6.5.5&product=EFund&plat=Iphone";

/// The pieces of `s` between occurrences of `c` (`str::split` with a char): always at least one.
pub open spec fn split_seq(s: Seq<char>, c: char) -> Seq<Seq<char>>
    decreases s.len(),
{
    if s.len() == 0 {
        seq![Seq::<char>::empty()]
    } else {
        let rest = split_seq(s.drop_last(), c);
        if s.last() == c {
            rest.push(Seq::<char>::empty())
        } else {
            rest.update(rest.len() - 1, rest.last().push(s.last()))
        }
    }
}

proof fn lemma_split_nonempty(s: Seq<char>, c: char)
    ensures
        split_seq(s, c).len() >= 1,
    decreases s.len(),
{
    if s.len() > 0 {
        lemma_split_nonempty(s.drop_last(), c);
    }
}

proof fn lemma_split_pieces_lack_separator(s: Seq<char>, c: char)
    ensures
        forall|k: int, m: int|
            0 <= k < split_seq(s, c).len() && 0 <= m < split_seq(s, c)[k].len() ==> #[trigger] split_seq(
                s,
                c,
            )[k][m] != c,
    decreases s.len(),
{
    if s.len() > 0 {
        lemma_split_pieces_lack_separator(s.drop_last(), c);
        lemma_split_nonempty(s.drop_last(), c);
        let rest = split_seq(s.drop_last(), c);
        let pieces = split_seq(s, c);
        assert forall|k: int, m: int| 0 <= k < pieces.len() && 0 <= m < pieces[k].len() implies #[trigger] pieces[k][m] != c by {
            if s.last() == c {
                if k < rest.len() {
                    assert(pieces[k] == rest[k]);
                    assert(rest[k][m] != c);
                }
            } else {
                if k < rest.len() - 1 {
                    assert(pieces[k] == rest[k]);
                    assert(rest[k][m] != c);
                } else if m < rest.last().len() {
                    assert(pieces[k][m] == rest[rest.len() - 1][m]);
                    assert(rest[rest.len() - 1][m] != c);
                }
            }
        }
    }
}

/// The views of pieces of characters.
pub open spec fn piece_views(pieces: Seq<Vec<char>>) -> Seq<Seq<char>> {
    pieces.map_values(|p: Vec<char>| p@)
}

fn split_chars(cs: &[char], c: char) -> (res: Vec<Vec<char>>)
    ensures
        piece_views(res@) == split_seq(cs@, c),
{
    let mut done: Vec<Vec<char>> = Vec::new();
    let mut cur: Vec<char> = Vec::new();
    let mut i: usize = 0;
    assert(cs@.take(0) =~= Seq::<char>::empty());
    assert(piece_views(done@).push(cur@) =~= split_seq(cs@.take(0), c));
    while i < cs.len()
        invariant
            i <= cs@.len(),
            piece_views(done@).push(cur@) == split_seq(cs@.take(i as int), c),
        decreases cs.len() - i,
    {
        let ghost before = split_seq(cs@.take(i as int), c);
        assert(cs@.take(i + 1).drop_last() =~= cs@.take(i as int));
        assert(cs@.take(i + 1).last() == cs@[i as int]);
        proof {
            lemma_split_nonempty(cs@.take(i as int), c);
        }
        if cs[i] == c {
            let finished = cur;
            cur = Vec::new();
            done.push(finished);
            assert(piece_views(done@).push(cur@) =~= before.push(Seq::<char>::empty()));
        } else {
            cur.push(cs[i]);
            assert(piece_views(done@).push(cur@) =~= before.update(
                before.len() - 1,
                before.last().push(cs@[i as int]),
            ));
        }
        i = i + 1;
    }
    assert(cs@.take(cs@.len() as int) =~= cs@);
    done.push(cur);
    assert(piece_views(done@) =~= split_seq(cs@, c));
    done
}

/// The position of the first `c` in `s`.
pub open spec fn char_index(s: Seq<char>, c: char) -> Option<int>
    decreases s.len(),
{
    if s.len() == 0 {
        None
    } else if s[0] == c {
        Some(0)
    } else {
        match char_index(s.drop_first(), c) {
            Some(i) => Some(i + 1),
            None => None,
        }
    }
}

proof fn lemma_char_index(s: Seq<char>, c: char, i: int)
    requires
        0 <= i <= s.len(),
        forall|k: int| 0 <= k < i ==> #[trigger] s[k] != c,
        i < s.len() ==> s[i] == c,
    ensures
        char_index(s, c) == (if i < s.len() {
            Some(i)
        } else {
            None::<int>
        }),
    decreases s.len(),
{
    if s.len() > 0 && i > 0 {
        assert forall|k: int| 0 <= k < i - 1 implies #[trigger] s.drop_first()[k] != c by {
            assert(s.drop_first()[k] == s[k + 1]);
        }
        if i < s.len() {
            assert(s.drop_first()[i - 1] == s[i]);
        }
        lemma_char_index(s.drop_first(), c, i - 1);
        assert(s[0] != c);
    }
}

/// `s` cut at the first `c` (`str::split_once` with a char).
pub open spec fn split_once_seq(s: Seq<char>, c: char) -> Option<(Seq<char>, Seq<char>)> {
    match char_index(s, c) {
        Some(i) => Some((s.take(i), s.skip(i + 1))),
        None => None,
    }
}

fn split_once_chars(cs: &[char], c: char) -> (res: Option<(Vec<char>, Vec<char>)>)
    ensures
        match res {
            Some((a, b)) => split_once_seq(cs@, c) == Some((a@, b@)),
            None => split_once_seq(cs@, c) is None,
        },
{
    let mut i: usize = 0;
    while i < cs.len()
        invariant
            i <= cs@.len(),
            forall|k: int| 0 <= k < i ==> #[trigger] cs@[k] != c,
        decreases cs.len() - i,
    {
        if cs[i] == c {
            proof {
                lemma_char_index(cs@, c, i as int);
            }
            let mut before: Vec<char> = Vec::new();
            let mut k: usize = 0;
            while k < i
                invariant
                    k <= i < cs@.len(),
                    before@ == cs@.subrange(0, k as int),
                decreases i - k,
            {
                before.push(cs[k]);
                assert(cs@.subrange(0, k as int).push(cs@[k as int]) =~= cs@.subrange(0, k + 1));
                k = k + 1;
            }
            let mut after: Vec<char> = Vec::new();
            let mut m: usize = i + 1;
            while m < cs.len()
                invariant
                    i + 1 <= m <= cs@.len(),
                    after@ == cs@.subrange(i + 1, m as int),
                decreases cs.len() - m,
            {
                after.push(cs[m]);
                assert(cs@.subrange(i + 1, m as int).push(cs@[m as int]) =~= cs@.subrange(
                    i + 1,
                    m + 1,
                ));
                m = m + 1;
            }
            assert(before@ =~= cs@.take(i as int));
            assert(after@ =~= cs@.skip(i + 1));
            return Some((before, after));
        }
        i = i + 1;
    }
    proof {
        lemma_char_index(cs@, c, i as int);
    }
    None
}

/// What `str::parse::<u8>` gives.
pub open spec fn parse_u8_seq(s: Seq<char>) -> Option<int> {
    parse_integer_seq(s, 0, 255)
}

/// What `str::parse::<i32>` gives.
pub open spec fn parse_i32_seq(s: Seq<char>) -> Option<int> {
    parse_integer_seq(s, i32::MIN as int, i32::MAX as int)
}

/// The fields (year, month, day, hour, minute, second) of `YYYY-MM-DD HH:MM[:SS]` as the
/// source writes a local time: a date and a time split by the first space, three `-`-parts
/// and two or three `:`-parts; an unreadable second counts as 0.
pub open spec fn local_datetime_fields(value: Seq<char>) -> Option<(int, int, int, int, int, int)> {
    match split_once_seq(value, ' ') {
        None => None,
        Some(parts) => {
            let date = split_seq(parts.0, '-');
            let clock = split_seq(parts.1, ':');
            let year = parse_i32_seq(date[0]);
            let month = if date.len() > 1 {
                parse_u8_seq(date[1])
            } else {
                None
            };
            let day = if date.len() > 2 {
                parse_u8_seq(date[2])
            } else {
                None
            };
            let hour = parse_u8_seq(clock[0]);
            let minute = if clock.len() > 1 {
                parse_u8_seq(clock[1])
            } else {
                None
            };
            let second = if clock.len() > 2 {
                match parse_u8_seq(clock[2]) {
                    Some(s) => s,
                    None => 0,
                }
            } else {
                0
            };
            if year is None || month is None || day is None || date.len() > 3 || hour is None
                || minute is None || clock.len() > 3 {
                None
            } else {
                Some((year.unwrap(), month.unwrap(), day.unwrap(), hour.unwrap(), minute.unwrap(), second))
            }
        },
    }
}

proof fn lemma_local_year_nonnegative(value: Seq<char>)
    ensures
        local_datetime_fields(value) matches Some(f) ==> f.0 >= 0,
{
    if let Some(parts) = split_once_seq(value, ' ') {
        let date = split_seq(parts.0, '-');
        lemma_split_nonempty(parts.0, '-');
        lemma_split_pieces_lack_separator(parts.0, '-');
        let year_text = date[0];
        if year_text.len() > 0 {
            assert(year_text[0] != '-');
        }
        let digits = if year_text.len() > 0 && year_text[0] == '+' {
            year_text.drop_first()
        } else {
            year_text
        };
        if all_digits(digits) {
            lemma_digits_value_nonneg(digits);
        }
    }
}

/// Whether `year` is a leap year of the proleptic Gregorian calendar.
pub open spec fn is_leap_year(year: int) -> bool {
    (year % 4 == 0 && year % 100 != 0) || year % 400 == 0
}

/// Days in `month` of `year`.
pub open spec fn days_in_month(year: int, month: int) -> int {
    if month == 2 {
        if is_leap_year(year) {
            29
        } else {
            28
        }
    } else if month == 4 || month == 6 || month == 9 || month == 11 {
        30
    } else {
        31
    }
}

/// Whether the fields name a wall-clock time the `time` crate holds (years -9999..=9999).
pub open spec fn valid_wall_clock(year: int, month: int, day: int, hour: int, minute: int, second: int) -> bool {
    &&& -9999 <= year <= 9999
    &&& 1 <= month <= 12
    &&& 1 <= day <= days_in_month(year, month)
    &&& 0 <= hour < 24
    &&& 0 <= minute < 60
    &&& 0 <= second < 60
}

/// Whether a valid wall-clock time in UTC+8 falls before the first instant held in UTC
/// (converting it panics in the `time` crate).
pub open spec fn before_first_utc_instant(year: int, month: int, day: int, hour: int) -> bool {
    year == -9999 && month == 1 && day == 1 && hour < 8
}

/// Days from 1970-01-01 to a date of the proleptic Gregorian calendar (negative before it).
pub open spec fn days_from_civil(year: int, month: int, day: int) -> int {
    let y = if month <= 2 {
        year - 1
    } else {
        year
    };
    let era = y / 400;
    let year_of_era = y - era * 400;
    let shifted_month = if month > 2 {
        month - 3
    } else {
        month + 9
    };
    let day_of_year = (153 * shifted_month + 2) / 5 + day - 1;
    let day_of_era = year_of_era * 365 + year_of_era / 4 - year_of_era / 100 + day_of_year;
    era * 146097 + day_of_era - 719468
}

/// The instant, in Unix nanoseconds, of a wall-clock time in UTC+8.
pub open spec fn shanghai_wall_clock(year: int, month: int, day: int, hour: int, minute: int, second: int) -> int {
    (days_from_civil(year, month, day) * 86400 + hour * 3600 + minute * 60 + second - 28800)
        * 1_000_000_000
}

/// The instant of a wall-clock time in UTC+8: `Month::try_from`, `Date::from_calendar_date`,
/// `Time::from_hms`, then `PrimitiveDateTime::new(..).assume_offset(+08:00).to_offset(UTC)`
/// and `unix_timestamp_nanos`. `None` exactly when the fields are not a valid date and time;
/// an instant that exists is one that can be shown in UTC+8.
#[verifier::external_body]
fn shanghai_wall_clock_instant(year: i32, month: u8, day: u8, hour: u8, minute: u8, second: u8) -> (res: Option<i128>)
    requires
        valid_wall_clock(year as int, month as int, day as int, hour as int, minute as int, second as int)
            ==> !before_first_utc_instant(year as int, month as int, day as int, hour as int),
    ensures
        res is Some <==> valid_wall_clock(year as int, month as int, day as int, hour as int, minute as int, second as int),
        res matches Some(n) ==> n == shanghai_wall_clock(year as int, month as int, day as int, hour as int, minute as int, second as int)
            && shown_in_shanghai(n as int),
{
    let month = time::Month::try_from(month).ok()?;
    let date = time::Date::from_calendar_date(year, month, day).ok()?;
    let clock = time::Time::from_hms(hour, minute, second).ok()?;
    let offset = time::UtcOffset::from_hms(8, 0, 0).ok()?;
    let local = time::PrimitiveDateTime::new(date, clock).assume_offset(offset);
    Some(local.to_offset(time::UtcOffset::UTC).unix_timestamp_nanos())
}

/// The instant a source local time (UTC+8) stands for, where it reads as one.
pub open spec fn local_datetime_instant(value: Seq<char>) -> Option<int> {
    match local_datetime_fields(value) {
        Some(f) => if valid_wall_clock(f.0, f.1, f.2, f.3, f.4, f.5) {
            Some(shanghai_wall_clock(f.0, f.1, f.2, f.3, f.4, f.5))
        } else {
            None
        },
        None => None,
    }
}

fn parse_u8_chars(cs: &[char]) -> (res: Option<u8>)
    ensures
        match res {
            Some(v) => parse_u8_seq(cs@) == Some(v as int),
            None => parse_u8_seq(cs@) is None,
        },
{
    match parse_integer(cs, 0, 255) {
        Some(v) => Some(v as u8),
        None => None,
    }
}

fn parse_i32_chars(cs: &[char]) -> (res: Option<i32>)
    ensures
        match res {
            Some(v) => parse_i32_seq(cs@) == Some(v as int),
            None => parse_i32_seq(cs@) is None,
        },
{
    match parse_integer(cs, i32::MIN as i128, i32::MAX as i128) {
        Some(v) => Some(v as i32),
        None => None,
    }
}

fn local_fields(value: &str) -> (res: Option<(i32, u8, u8, u8, u8, u8)>)
    ensures
        match res {
            Some(f) => local_datetime_fields(value@) == Some(
                (f.0 as int, f.1 as int, f.2 as int, f.3 as int, f.4 as int, f.5 as int),
            ),
            None => local_datetime_fields(value@) is None,
        },
{
    let cs = chars_of(value);
    let (date_part, time_part) = match split_once_chars(cs.as_slice(), ' ') {
        Some(parts) => parts,
        None => return None,
    };
    let date = split_chars(date_part.as_slice(), '-');
    let clock = split_chars(time_part.as_slice(), ':');
    proof {
        lemma_split_nonempty(date_part@, '-');
        lemma_split_nonempty(time_part@, ':');
        assert(date@[0]@ == split_seq(date_part@, '-')[0]);
        assert(clock@[0]@ == split_seq(time_part@, ':')[0]);
        if date@.len() > 1 {
            assert(date@[1]@ == split_seq(date_part@, '-')[1]);
        }
        if date@.len() > 2 {
            assert(date@[2]@ == split_seq(date_part@, '-')[2]);
        }
        if clock@.len() > 1 {
            assert(clock@[1]@ == split_seq(time_part@, ':')[1]);
        }
        if clock@.len() > 2 {
            assert(clock@[2]@ == split_seq(time_part@, ':')[2]);
        }
    }
    let year = match parse_i32_chars(date[0].as_slice()) {
        Some(v) => v,
        None => return None,
    };
    if date.len() < 2 {
        return None;
    }
    let month = match parse_u8_chars(date[1].as_slice()) {
        Some(v) => v,
        None => return None,
    };
    if date.len() < 3 {
        return None;
    }
    let day = match parse_u8_chars(date[2].as_slice()) {
        Some(v) => v,
        None => return None,
    };
    if date.len() > 3 {
        return None;
    }
    let hour = match parse_u8_chars(clock[0].as_slice()) {
        Some(v) => v,
        None => return None,
    };
    if clock.len() < 2 {
        return None;
    }
    let minute = match parse_u8_chars(clock[1].as_slice()) {
        Some(v) => v,
        None => return None,
    };
    let second: u8 = if clock.len() > 2 {
        match parse_u8_chars(clock[2].as_slice()) {
            Some(v) => v,
            None => 0,
        }
    } else {
        0
    };
    if clock.len() > 3 {
        return None;
    }
    Some((year, month, day, hour, minute, second))
}

/// Reads a source local time `YYYY-MM-DD HH:MM[:SS]` in UTC+8 as an instant.
pub fn parse_eastmoney_local_datetime(value: &str) -> (res: Option<i128>)
    ensures
        res matches Some(n) ==> Some(n as int) == local_datetime_instant(value@) && shown_in_shanghai(n as int),
        res is None ==> local_datetime_instant(value@) is None,
{
    proof {
        lemma_local_year_nonnegative(value@);
    }
    match local_fields(value) {
        Some(f) => shanghai_wall_clock_instant(f.0, f.1, f.2, f.3, f.4, f.5),
        None => None,
    }
}

/// Pattern of the fund name in the net value script.
pub const NAME_PATTERN: &'static str = r#"var\s+fS_name\s*=\s*"([^"]+)";"#;

/// Pattern of the fund code in the net value script.
pub const CODE_PATTERN: &'static str = r#"var\s+fS_code\s*=\s*"([^"]+)";"#;

/// Pattern of the net value history (a JSON array) in the net value script.
pub const NET_WORTH_PATTERN: &'static str = r#"var\s+Data_netWorthTrend\s*=\s*(\[[^;]*\]);"#;

/// Pattern of the estimated net value in the net value script.
pub const ESTIMATED_NAV_PATTERN: &'static str = r#"var\s+gsz\s*=\s*"([^"]+)";"#;

/// Pattern of the estimated change rate in the net value script.
pub const ESTIMATED_CHANGE_RATE_PATTERN: &'static str = r#"var\s+gszzl\s*=\s*"([^"]+)";"#;

/// Pattern of the estimate time in the net value script.
pub const ESTIMATED_AT_PATTERN: &'static str = r#"var\s+gztime\s*=\s*"([^"]+)";"#;

/// The text of the first group of the first match of `pattern` in `haystack`, as the `regex`
/// crate finds it (`None` where the pattern does not compile, nothing matches, or the group
/// took no part).
pub uninterp spec fn regex_first_group(pattern: Seq<char>, haystack: Seq<char>) -> Option<Seq<char>>;

/// `Regex::new(pattern)`, then `captures(haystack)` and `get(1)`.
#[verifier::external_body]
fn first_group(pattern: &str, haystack: &str) -> (res: Option<String>)
    ensures
        opt_seq(res) == regex_first_group(pattern@, haystack@),
{
    let re = regex::Regex::new(pattern).ok()?;
    let caps = re.captures(haystack)?;
    Some(caps.get(1)?.as_str().to_owned())
}

/// The message of a missing required field.
pub open spec fn missing_field_text(field_name: Seq<char>) -> Seq<char> {
    "基金数据源缺少必要字段："@ + field_name
}

/// A required field: the trimmed first group, where there is one and it is not blank.
pub open spec fn required_capture(pattern: Seq<char>, body: Seq<char>) -> Option<Seq<char>> {
    match regex_first_group(pattern, body) {
        Some(g) => if trim_seq(g).len() > 0 {
            Some(trim_seq(g))
        } else {
            None
        },
        None => None,
    }
}

/// An optional field: the trimmed first group, where there is one.
pub open spec fn optional_capture(pattern: Seq<char>, body: Seq<char>) -> Option<Seq<char>> {
    match regex_first_group(pattern, body) {
        Some(g) => Some(trim_seq(g)),
        None => None,
    }
}

/// Reads a required field of the script; a missing or blank one is invalid source data.
pub fn capture_required(pattern: &str, body: &str, field_name: &str) -> (res: Result<String, FundIngestError>)
    ensures
        match required_capture(pattern@, body@) {
            Some(v) => res matches Ok(s) && s@ == v,
            None => res matches Err(FundIngestError::InvalidSourceData(m)) && m@ == missing_field_text(field_name@),
        },
{
    match first_group(pattern, body) {
        Some(g) => {
            let value = trim(g.as_str());
            if value.as_str().is_empty() {
                Err(FundIngestError::invalid_source_data(concat("基金数据源缺少必要字段：", field_name)))
            } else {
                Ok(value)
            }
        },
        None => Err(FundIngestError::invalid_source_data(concat("基金数据源缺少必要字段：", field_name))),
    }
}

/// Reads an optional field of the script, trimmed.
pub fn capture_optional(pattern: &str, body: &str) -> (res: Option<String>)
    ensures
        opt_seq(res) == optional_capture(pattern@, body@),
{
    match first_group(pattern, body) {
        Some(g) => Some(trim(g.as_str())),
        None => None,
    }
}

/// The texts read from the net value script: code, name, the JSON of the net value history,
/// and the estimate fields where present.
#[derive(Debug, Clone)]
pub struct PingzhongFields {
    pub code: String,
    pub name: String,
    pub history_json: String,
    pub estimated_nav_text: Option<String>,
    pub estimated_change_rate_text: Option<String>,
    pub estimated_at_text: Option<String>,
}

/// The script without leading byte order marks.
pub open spec fn normalized_script(body: Seq<char>) -> Seq<char> {
    trim_start_char_seq(body, '\u{feff}')
}

/// The message of a script for another fund.
pub open spec fn code_mismatch_text(expected: Seq<char>, actual: Seq<char>) -> Seq<char> {
    "基金数据源返回的基金代码不匹配：期望 "@ + expected + "，实际 "@ + actual
}

/// What reading the script gives: the invalid-data message, or the code, name and history.
pub open spec fn pingzhong_result(expected: Seq<char>, body: Seq<char>) -> Result<
    (Seq<char>, Seq<char>, Seq<char>),
    Seq<char>,
> {
    let text = normalized_script(body);
    match required_capture(CODE_PATTERN@, text) {
        None => Err(missing_field_text("基金代码"@)),
        Some(code) => if code != expected {
            Err(code_mismatch_text(expected, code))
        } else {
            match required_capture(NAME_PATTERN@, text) {
                None => Err(missing_field_text("基金名称"@)),
                Some(name) => match required_capture(NET_WORTH_PATTERN@, text) {
                    None => Err(missing_field_text("净值历史"@)),
                    Some(history) => Ok((code, name, history)),
                },
            }
        },
    }
}

/// Reads the net value script of `expected_code`: its code (which must be the expected one),
/// name and history are required, the estimate fields optional.
pub fn read_pingzhongdata(expected_code: &str, body: &str) -> (res: Result<PingzhongFields, FundIngestError>)
    ensures
        match pingzhong_result(expected_code@, body@) {
            Ok(parts) => res matches Ok(f) && (f.code@, f.name@, f.history_json@) == parts
                && opt_seq(f.estimated_nav_text) == optional_capture(
                ESTIMATED_NAV_PATTERN@,
                normalized_script(body@),
            ) && opt_seq(f.estimated_change_rate_text) == optional_capture(
                ESTIMATED_CHANGE_RATE_PATTERN@,
                normalized_script(body@),
            ) && opt_seq(f.estimated_at_text) == optional_capture(
                ESTIMATED_AT_PATTERN@,
                normalized_script(body@),
            ),
            Err(m) => res matches Err(FundIngestError::InvalidSourceData(e)) && e@ == m,
        },
{
    let text = trim_start_char(body, '\u{feff}');
    let code = match capture_required(CODE_PATTERN, text.as_str(), "基金代码") {
        Ok(c) => c,
        Err(e) => return Err(e),
    };
    if !text_eq(code.as_str(), expected_code) {
        let mut message = concat("基金数据源返回的基金代码不匹配：期望 ", expected_code);
        message.append("，实际 ");
        message.append(code.as_str());
        return Err(FundIngestError::invalid_source_data(message));
    }
    let name = match capture_required(NAME_PATTERN, text.as_str(), "基金名称") {
        Ok(n) => n,
        Err(e) => return Err(e),
    };
    let history_json = match capture_required(NET_WORTH_PATTERN, text.as_str(), "净值历史") {
        Ok(h) => h,
        Err(e) => return Err(e),
    };
    Ok(
        PingzhongFields {
            code,
            name,
            history_json,
            estimated_nav_text: capture_optional(ESTIMATED_NAV_PATTERN, text.as_str()),
            estimated_change_rate_text: capture_optional(ESTIMATED_CHANGE_RATE_PATTERN, text.as_str()),
            estimated_at_text: capture_optional(ESTIMATED_AT_PATTERN, text.as_str()),
        },
    )
}

/// The first instant the `time` crate holds, in Unix seconds (-9999-01-01T00:00:00Z).
pub const MIN_UNIX_SECONDS: i64 = -377_705_116_800;

/// The last second the `time` crate holds, in Unix seconds (9999-12-31T23:59:59Z).
pub const MAX_UNIX_SECONDS: i64 = 253_402_300_799;

/// The instant, in Unix nanoseconds, of a Unix second within the range of date-times the `time`
/// crate holds (what `OffsetDateTime::from_unix_timestamp` accepts); none outside it.
fn unix_seconds_instant(seconds: i64) -> (res: Option<i128>)
    ensures
        res == (if MIN_UNIX_SECONDS <= seconds <= MAX_UNIX_SECONDS {
            Some((seconds * 1_000_000_000) as i128)
        } else {
            None::<i128>
        }),
{
    if MIN_UNIX_SECONDS <= seconds && seconds <= MAX_UNIX_SECONDS {
        Some(seconds as i128 * 1_000_000_000)
    } else {
        None
    }
}

/// `ms / 1000` rounded toward zero, as Rust divides integers.
pub open spec fn millis_to_seconds(ms: int) -> int {
    if ms >= 0 {
        ms / 1000
    } else {
        -((-ms) / 1000)
    }
}

/// The date of a net value point (Unix milliseconds), where the `time` crate holds it.
pub open spec fn nav_date_of(timestamp_ms: int) -> Option<int> {
    let seconds = millis_to_seconds(timestamp_ms);
    if MIN_UNIX_SECONDS <= seconds <= MAX_UNIX_SECONDS {
        Some(seconds * 1_000_000_000)
    } else {
        None
    }
}

fn nav_date(timestamp_ms: i64) -> (res: Option<i128>)
    ensures
        opt_int(res) == nav_date_of(timestamp_ms as int),
{
    let seconds: i64 = if timestamp_ms >= 0 {
        timestamp_ms / 1000
    } else {
        let magnitude: i128 = -(timestamp_ms as i128);
        (-(magnitude / 1000)) as i64
    };
    unix_seconds_instant(seconds)
}

/// The value of an optional instant.
pub open spec fn opt_int(o: Option<i128>) -> Option<int> {
    match o {
        Some(n) => Some(n as int),
        None => None,
    }
}

/// A point of the net value history: when (Unix milliseconds), the unit net value, and the
/// change rate of that day where the source gives it.
#[derive(Debug, Clone)]
pub struct NetWorthPoint {
    pub timestamp_ms: i64,
    pub y: Number,
    pub equity_return: Option<Number>,
}

/// What one fetch of a fund gave.
#[derive(Debug, Clone)]
pub struct FetchedFundSnapshot {
    pub code: String,
    pub confirmed_change_rate: Option<Number>,
    pub change_rate: Option<Number>,
    pub estimated_nav: Option<Number>,
    pub estimated_change_rate: Option<Number>,
    pub estimated_at: Option<i128>,
    pub fetched_at: i128,
    pub name: String,
    pub nav_date: Option<i128>,
    pub source: String,
    pub unit_nav: Option<Number>,
}

/// The message of a script without any net value point.
pub open spec fn empty_history_text() -> Seq<char> {
    "基金数据源未返回任何净值历史"@
}

/// The option `a`, else `b`.
pub open spec fn or_else<T>(a: Option<T>, b: Option<T>) -> Option<T> {
    match a {
        Some(x) => Some(x),
        None => b,
    }
}

fn or_number(a: Option<Number>, b: Option<Number>) -> (res: Option<Number>)
    ensures
        res == or_else(a, b),
{
    match a {
        Some(x) => Some(x),
        None => b,
    }
}

/// The snapshot of a fetch from the script's fields and the history decoded from them.
/// `nav_change_rate` is the change of the last unit net value against the one before (where
/// there are two and the earlier is not zero); `estimated_nav` and `estimated_change_rate` are
/// the estimate fields read as decimals. The change rate shown is the estimated one, else the
/// confirmed one: the rate of the last point, else `nav_change_rate`.
pub fn assemble_snapshot(
    fields: PingzhongFields,
    history: &Vec<NetWorthPoint>,
    nav_change_rate: Option<Number>,
    estimated_nav: Option<Number>,
    estimated_change_rate: Option<Number>,
    fetched_at: i128,
) -> (res: Result<FetchedFundSnapshot, FundIngestError>)
    ensures
        history@.len() == 0 ==> (res matches Err(FundIngestError::InvalidSourceData(m)) && m@
            == empty_history_text()),
        history@.len() > 0 ==> (res matches Ok(snap) && {
            let latest = history@.last();
            let confirmed = or_else(latest.equity_return, nav_change_rate);
            &&& snap.code@ == fields.code@
            &&& snap.name@ == fields.name@
            &&& snap.unit_nav == Some(latest.y)
            &&& opt_int(snap.nav_date) == nav_date_of(latest.timestamp_ms as int)
            &&& snap.confirmed_change_rate == confirmed
            &&& snap.estimated_nav == estimated_nav
            &&& snap.estimated_change_rate == estimated_change_rate
            &&& opt_int(snap.estimated_at) == match fields.estimated_at_text {
                Some(t) => local_datetime_instant(t@),
                None => None,
            }
            &&& snap.change_rate == or_else(estimated_change_rate, confirmed)
            &&& snap.fetched_at == fetched_at
            &&& snap.source@ == SOURCE_NAME@
        }),
{
    if history.len() == 0 {
        return Err(FundIngestError::invalid_source_data(String::from_str("基金数据源未返回任何净值历史")));
    }
    let latest = &history[history.len() - 1];
    let confirmed = or_number(copy_number(&latest.equity_return), nav_change_rate);
    let estimated_at = match &fields.estimated_at_text {
        Some(t) => parse_eastmoney_local_datetime(t.as_str()),
        None => None,
    };
    let change_rate = or_number(copy_number(&estimated_change_rate), copy_number(&confirmed));
    Ok(
        FetchedFundSnapshot {
            code: fields.code,
            confirmed_change_rate: confirmed,
            change_rate,
            estimated_nav,
            estimated_change_rate,
            estimated_at,
            fetched_at,
            name: fields.name,
            nav_date: nav_date(latest.timestamp_ms),
            source: String::from_str(SOURCE_NAME),
            unit_nav: Some(latest.y.copy()),
        },
    )
}

/// One item of the latest-valuation reply.
#[derive(Debug, Clone)]
pub struct ValuationItem {
    pub estimated_nav: Option<Number>,
    pub estimated_change_rate: Option<Number>,
    pub estimated_at: Option<String>,
}

/// The latest-valuation reply.
#[derive(Debug, Clone)]
pub struct ValuationReply {
    pub data: Option<Vec<ValuationItem>>,
    pub error_code: Option<i64>,
}

/// An estimate from the valuation service.
#[derive(Debug, Clone)]
pub struct ValuationSnapshot {
    pub estimated_nav: Option<Number>,
    pub estimated_change_rate: Option<Number>,
    pub estimated_at: Option<i128>,
}

/// The item of a reply that counts: the first, where the reply has no error code (or 0).
pub open spec fn valuation_item(reply: ValuationReply) -> Option<ValuationItem> {
    let code = match reply.error_code {
        Some(c) => c,
        None => 0,
    };
    if code != 0 {
        None
    } else {
        match reply.data {
            Some(items) => if items@.len() > 0 {
                Some(items@[0])
            } else {
                None
            },
            None => None,
        }
    }
}

/// What a latest-valuation reply gives: nothing when it carries an error code or no item, or
/// when its first item has neither an estimated value nor an estimated rate; else the item's
/// estimate, its time read as a wall-clock time in UTC+8.
pub open spec fn valuation_selected(reply: ValuationReply, res: Option<ValuationSnapshot>) -> bool {
    match valuation_item(reply) {
        None => res is None,
        Some(item) => if item.estimated_nav is None && item.estimated_change_rate is None {
            res is None
        } else {
            res matches Some(v) && v.estimated_nav == item.estimated_nav
                && v.estimated_change_rate == item.estimated_change_rate
                && opt_int(v.estimated_at) == match item.estimated_at {
                Some(t) => local_datetime_instant(t@),
                None => None,
            }
        },
    }
}

/// Law: a reply that carries a non-zero error code, or no item, gives no estimate; a reply
/// without an error code whose first item has an estimated value or rate gives exactly that
/// item's value and rate.
pub proof fn law_valuation_reply_first_item(reply: ValuationReply, res: Option<ValuationSnapshot>)
    requires
        valuation_selected(reply, res),
    ensures
        (reply.error_code matches Some(c) && c != 0) ==> res is None,
        (reply.data is None || reply.data.unwrap()@.len() == 0) ==> res is None,
        ({
            &&& (reply.error_code is None || reply.error_code == Some(0i64))
            &&& reply.data matches Some(items)
            &&& items@.len() > 0
            &&& (items@[0].estimated_nav is Some || items@[0].estimated_change_rate is Some)
        }) ==> (res matches Some(v) && v.estimated_nav == reply.data.unwrap()@[0].estimated_nav
            && v.estimated_change_rate == reply.data.unwrap()@[0].estimated_change_rate),
{
}

/// Reads a latest-valuation reply (see `valuation_selected`).
pub fn select_valuation(reply: ValuationReply) -> (res: Option<ValuationSnapshot>)
    ensures
        valuation_selected(reply, res),
{
    let code: i64 = match reply.error_code {
        Some(c) => c,
        None => 0,
    };
    if code != 0 {
        return None;
    }
    let items = match reply.data {
        Some(items) => items,
        None => return None,
    };
    if items.len() == 0 {
        return None;
    }
    let item = &items[0];
    if item.estimated_nav.is_none() && item.estimated_change_rate.is_none() {
        return None;
    }
    let estimated_at = match &item.estimated_at {
        Some(t) => parse_eastmoney_local_datetime(t.as_str()),
        None => None,
    };
    Some(
        ValuationSnapshot {
            estimated_nav: copy_number(&item.estimated_nav),
            estimated_change_rate: copy_number(&item.estimated_change_rate),
            estimated_at,
        },
    )
}

/// The source names `current` and `extra` together: `current` where it already names `extra`,
/// else both joined by `+`.
pub open spec fn merged_source_names(current: Seq<char>, extra: Seq<char>) -> Seq<char> {
    if contains_seq(current, extra) {
        current
    } else {
        current + "+"@ + extra
    }
}

/// Adds `extra` to the source names `current` unless it is already there.
pub fn merge_source_names(current: &str, extra: &str) -> (res: String)
    ensures
        res@ == merged_source_names(current@, extra@),
{
    if contains(current, extra) {
        String::from_str(current)
    } else {
        concat3(current, "+", extra)
    }
}

/// Adding a source name twice is adding it once: the merged names name it.
pub proof fn law_merge_source_names_idempotent(current: Seq<char>, extra: Seq<char>)
    ensures
        contains_seq(merged_source_names(current, extra), extra),
        merged_source_names(merged_source_names(current, extra), extra) == merged_source_names(
            current,
            extra,
        ),
{
    let merged = merged_source_names(current, extra);
    if !contains_seq(current, extra) {
        reveal_strlit("+");
        let at: int = current.len() as int + 1;
        assert(merged.subrange(at, at + extra.len() as int) =~= extra);
    }
}

/// The snapshot with an estimate merged in: the valuation's estimated value and rate win over
/// the script's (the rate derived from the valuation's value and the unit value,
/// `derived_change_rate`, comes before the script's rate). Where neither an estimated value nor
/// rate results, the snapshot stays as it is; else the estimate time is the valuation's (else
/// the script's), the change rate shown is the estimated rate (else the confirmed one), and the
/// valuation service joins the sources.
pub open spec fn merged_snapshot(
    snapshot: FetchedFundSnapshot,
    valuation: ValuationSnapshot,
    derived_change_rate: Option<Number>,
) -> (Option<Number>, Option<Number>, Option<i128>, Option<Number>) {
    let estimated_nav = or_else(valuation.estimated_nav, snapshot.estimated_nav);
    let estimated_change_rate = or_else(
        or_else(valuation.estimated_change_rate, derived_change_rate),
        snapshot.estimated_change_rate,
    );
    (
        estimated_nav,
        estimated_change_rate,
        or_else(valuation.estimated_at, snapshot.estimated_at),
        or_else(estimated_change_rate, snapshot.confirmed_change_rate),
    )
}

/// Law: merging a valuation estimate, the valuation's estimated value replaces the script's
/// whenever the valuation has one (and the snapshot is then updated), and the script's stays
/// when it has none; likewise the valuation's estimated rate and time win whenever it has them;
/// the change rate shown is the estimated rate where there is one, else the confirmed rate.
pub proof fn law_valuation_estimate_wins(
    snapshot: FetchedFundSnapshot,
    valuation: ValuationSnapshot,
    derived_change_rate: Option<Number>,
)
    ensures
        ({
            let m = merged_snapshot(snapshot, valuation, derived_change_rate);
            &&& valuation.estimated_nav matches Some(v) ==> m.0 == Some(v) && !(m.0 is None && m.1 is None)
            &&& valuation.estimated_nav is None ==> m.0 == snapshot.estimated_nav
            &&& valuation.estimated_change_rate matches Some(r) ==> m.1 == Some(r) && !(m.0 is None
                && m.1 is None)
            &&& valuation.estimated_at matches Some(t) ==> m.2 == Some(t)
            &&& m.1 matches Some(r) ==> m.3 == Some(r)
            &&& m.1 is None ==> m.3 == snapshot.confirmed_change_rate
        }),
{
}

/// Merges a valuation estimate into a snapshot (see `merged_snapshot`). `derived_change_rate`
/// is the change of the valuation's estimated value against the snapshot's unit value, where
/// both exist and the unit value is not zero.
pub fn merge_valuation_snapshot(
    snapshot: &mut FetchedFundSnapshot,
    valuation: ValuationSnapshot,
    derived_change_rate: Option<Number>,
)
    ensures
        ({
            let m = merged_snapshot(*old(snapshot), valuation, derived_change_rate);
            if m.0 is None && m.1 is None {
                *final(snapshot) == *old(snapshot)
            } else {
                &&& final(snapshot).estimated_nav == m.0
                &&& final(snapshot).estimated_change_rate == m.1
                &&& final(snapshot).estimated_at == m.2
                &&& final(snapshot).change_rate == m.3
                &&& final(snapshot).source@ == merged_source_names(
                    old(snapshot).source@,
                    VALUATION_SOURCE_NAME@,
                )
                &&& final(snapshot).code == old(snapshot).code
                &&& final(snapshot).name == old(snapshot).name
                &&& final(snapshot).confirmed_change_rate == old(snapshot).confirmed_change_rate
                &&& final(snapshot).unit_nav == old(snapshot).unit_nav
                &&& final(snapshot).nav_date == old(snapshot).nav_date
                &&& final(snapshot).fetched_at == old(snapshot).fetched_at
            }
        }),
        valuation.estimated_nav matches Some(v) ==> final(snapshot).estimated_nav == Some(v),
        valuation.estimated_nav is None ==> final(snapshot).estimated_nav == old(snapshot).estimated_nav,
        valuation.estimated_change_rate matches Some(r) ==> final(snapshot).estimated_change_rate == Some(r),
        (valuation.estimated_nav is Some || valuation.estimated_change_rate is Some) ==> (
        valuation.estimated_at matches Some(t) ==> final(snapshot).estimated_at == Some(t)),
        (valuation.estimated_nav is Some || valuation.estimated_change_rate is Some) ==> (
        final(snapshot).estimated_change_rate matches Some(r) ==> final(snapshot).change_rate == Some(r)),
{
    proof {
        law_valuation_estimate_wins(*old(snapshot), valuation, derived_change_rate);
    }
    let estimated_nav = or_number(valuation.estimated_nav, copy_number(&snapshot.estimated_nav));
    let estimated_change_rate = or_number(
        or_number(valuation.estimated_change_rate, derived_change_rate),
        copy_number(&snapshot.estimated_change_rate),
    );
    if estimated_nav.is_none() && estimated_change_rate.is_none() {
        return;
    }
    let estimated_at: Option<i128> = match valuation.estimated_at {
        Some(t) => Some(t),
        None => snapshot.estimated_at,
    };
    let change_rate = or_number(
        copy_number(&estimated_change_rate),
        copy_number(&snapshot.confirmed_change_rate),
    );
    let source = merge_source_names(snapshot.source.as_str(), VALUATION_SOURCE_NAME);
    snapshot.estimated_nav = estimated_nav;
    snapshot.estimated_change_rate = estimated_change_rate;
    snapshot.estimated_at = estimated_at;
    snapshot.change_rate = change_rate;
    snapshot.source = source;
}

/// The valuation services to ask for a source at `base_url` (a base URL without trailing `/`):
/// the two Eastmoney services for the Eastmoney source, else the same host.
pub fn valuation_base_urls(base_url: &str) -> (res: Vec<String>)
    ensures
        base_url@ == EASTMONEY_BASE_URL@ ==> res@.len() == 2 && res@[0]@ == VALUATION_PRIMARY_BASE_URL@
            && res@[1]@ == VALUATION_FALLBACK_BASE_URL@,
        base_url@ != EASTMONEY_BASE_URL@ ==> res@.len() == 1 && res@[0]@ == base_url@,
{
    let mut res: Vec<String> = Vec::new();
    if text_eq(base_url, EASTMONEY_BASE_URL) {
        res.push(String::from_str(VALUATION_PRIMARY_BASE_URL));
        res.push(String::from_str(VALUATION_FALLBACK_BASE_URL));
    } else {
        res.push(String::from_str(base_url));
    }
    res
}

/// The path of the net value script of a fund; `unix_seconds` (the current time) defeats caches.
pub fn pingzhongdata_path(fund_code: &str, unix_seconds: i64) -> (res: String)
    ensures
        res@ == "pingzhongdata/"@ + fund_code@ + ".js?v="@ + int_text(unix_seconds as int),
{
    let mut res = concat3("pingzhongdata/", fund_code, ".js?v=");
    res.append(i64_text(unix_seconds).as_str());
    res
}

/// Job type of a fetch asked for by hand.
pub fn manual_fetch_job_type(fund_code: &str) -> (res: String)
    ensures
        res@ == "fund_manual_fetch:"@ + fund_code@,
{
    concat("fund_manual_fetch:", fund_code)
}

/// The error of a net value source that could not be asked.
pub fn source_request_failure(cause: &str) -> (res: FundIngestError)
    ensures
        res matches FundIngestError::SourceUnavailable(m) && m@ == "请求基金数据源失败："@ + cause@,
{
    FundIngestError::source_unavailable(concat("请求基金数据源失败：", cause))
}

/// The error of a net value history that is not the expected JSON.
pub fn history_decode_failure(cause: &str) -> (res: FundIngestError)
    ensures
        res matches FundIngestError::InvalidSourceData(m) && m@ == "解析基金净值历史失败："@ + cause@,
{
    FundIngestError::invalid_source_data(concat("解析基金净值历史失败：", cause))
}

/// A step of storing a fetch that touches the store.
#[derive(Debug, Clone, Copy, PartialEq, Eq, Structural)]
pub enum StoreStep {
    /// Recording that the fetch job started.
    StartJob,
    /// Writing the quote.
    WriteQuote,
    /// Recording that the fetch job succeeded.
    FinishJob,
    /// Recording that the fetch job failed.
    RecordFailure,
}

/// What the failure of a store step is called.
pub open spec fn store_step_text(step: StoreStep) -> Seq<char> {
    match step {
        StoreStep::StartJob => "创建抓取任务记录失败："@,
        StoreStep::WriteQuote => "写入基金抓取结果失败："@,
        StoreStep::FinishJob => "更新抓取任务状态失败："@,
        StoreStep::RecordFailure => "记录抓取失败任务失败："@,
    }
}

/// The storage error of a failed store step, with the store's own words.
pub fn store_failure(step: StoreStep, cause: &str) -> (res: FundIngestError)
    ensures
        res matches FundIngestError::StorageFailure(m) && m@ == store_step_text(step) + cause@,
{
    let prefix = match step {
        StoreStep::StartJob => "创建抓取任务记录失败：",
        StoreStep::WriteQuote => "写入基金抓取结果失败：",
        StoreStep::FinishJob => "更新抓取任务状态失败：",
        StoreStep::RecordFailure => "记录抓取失败任务失败：",
    };
    FundIngestError::storage_failure(concat(prefix, cause))
}

/// The quote to store for a fund from a fetch.
pub fn new_fund_quote(fund_id: i64, snapshot: FetchedFundSnapshot) -> (res: NewFundQuote)
    ensures
        res.fund_id == fund_id,
        res.unit_nav == snapshot.unit_nav,
        res.nav_date == snapshot.nav_date,
        res.confirmed_change_rate == snapshot.confirmed_change_rate,
        res.estimated_nav == snapshot.estimated_nav,
        res.estimated_change_rate == snapshot.estimated_change_rate,
        res.estimated_at == snapshot.estimated_at,
        res.change_rate == snapshot.change_rate,
        res.fetched_at == snapshot.fetched_at,
        res.source == snapshot.source,
{
    NewFundQuote {
        fund_id,
        unit_nav: snapshot.unit_nav,
        nav_date: snapshot.nav_date,
        confirmed_change_rate: snapshot.confirmed_change_rate,
        estimated_nav: snapshot.estimated_nav,
        estimated_change_rate: snapshot.estimated_change_rate,
        estimated_at: snapshot.estimated_at,
        change_rate: snapshot.change_rate,
        fetched_at: snapshot.fetched_at,
        source: snapshot.source,
    }
}

} // verus!
