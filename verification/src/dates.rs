//! Dates and times: what chrono reads from text, what the local clock says,
//! and the text in which a release date is stored.
use vstd::prelude::*;
use chrono::Datelike;
use chrono::Timelike;
use chrono::TimeZone;

verus! {

/// A calendar date at a time of day, as plain numbers.
#[derive(Debug, Clone, Copy, PartialEq, Eq, Structural)]
pub struct DateTimeFields {
    pub year: i32,
    pub month: u32,
    pub day: u32,
    pub hour: u32,
    pub minute: u32,
    pub second: u32,
    /// Nanoseconds past the second; from 1 000 000 000 on, a leap second.
    pub nanosecond: u32,
}

/// `year` is a leap year of the proleptic Gregorian calendar.
pub open spec fn is_leap_year(year: int) -> bool {
    year % 4 == 0 && (year % 100 != 0 || year % 400 == 0)
}

/// The number of days of `month` in `year`.
pub open spec fn days_in_month(year: int, month: int) -> int {
    if month == 2 {
        if is_leap_year(year) { 29 } else { 28 }
    } else if month == 4 || month == 6 || month == 9 || month == 11 {
        30
    } else {
        31
    }
}

/// `year`, `month` and `day` are a day of the calendar within the years that chrono's
/// `NaiveDate` covers.
pub open spec fn is_calendar_date(year: int, month: int, day: int) -> bool {
    &&& -262143 <= year <= 262142
    &&& 1 <= month <= 12
    &&& 1 <= day <= days_in_month(year, month)
}

/// `at` is a day of the calendar at a time of day.
pub open spec fn is_date_time(at: DateTimeFields) -> bool {
    &&& is_calendar_date(at.year as int, at.month as int, at.day as int)
    &&& at.hour < 24
    &&& at.minute < 60
    &&& at.second < 60
    &&& (at.nanosecond < 1_000_000_000 || (at.second == 59 && at.nanosecond < 2_000_000_000))
}

/// What `chrono::NaiveDate::parse_from_str(text, format)` gives back, as year, month and day,
/// or `None` where it fails.
pub uninterp spec fn chrono_parse_date(text: Seq<char>, format: Seq<char>) -> Option<(i32, u32, u32)>;

/// What `chrono::NaiveDateTime::parse_from_str(text, format)` gives back, as plain numbers,
/// or `None` where it fails.
pub uninterp spec fn chrono_parse_date_time(text: Seq<char>, format: Seq<char>) -> Option<DateTimeFields>;

/// `text` ends with a space and four decimal digits.
pub open spec fn ends_with_four_digits(text: Seq<char>) -> bool {
    &&& text.len() >= 5
    &&& text[text.len() - 5] == ' '
    &&& forall|k: int| text.len() - 4 <= k < text.len() ==> '0' <= #[trigger] text[k] <= '9'
}

/// Reads a date from `text` in the strftime-like `format`, with
/// `chrono::NaiveDate::parse_from_str`, and hands out its year, month and day, or chrono's
/// error. The result is named, not stated; a date that comes back is a day of the
/// calendar, as every `NaiveDate` is. Where the format ends in `%Y` after a space and the
/// text in a space and four digits, the year is read without a sign from at most four
/// digits, so it lies in 0 to 9999.
#[verifier::external_body]
pub fn parse_date(text: &str, format: &str) -> (date: Result<(i32, u32, u32), chrono::format::ParseError>)
    ensures
        match date {
            Ok(d) => chrono_parse_date(text@, format@) == Some(d),
            Err(_) => chrono_parse_date(text@, format@) is None,
        },
        date matches Ok((y, m, d)) ==> is_calendar_date(y as int, m as int, d as int),
        format@ == "%B %d, %Y"@ && ends_with_four_digits(text@) ==> (date matches Ok((y, m, d)) ==> 0 <= y <= 9999),
{
    chrono::NaiveDate::parse_from_str(text, format).map(|d| (d.year(), d.month(), d.day()))
}

/// Reads a date and time of day from `text` in `format`, with
/// `chrono::NaiveDateTime::parse_from_str`, and hands out its year, month, day, hour, minute
/// and second, and nanosecond (a leap second is second 59 of its minute with a
/// nanosecond from 1 000 000 000 on, as `Timelike` gives them).
/// The result is named. Of what comes back, every `NaiveDateTime` is a day of the calendar
/// at a time of day; and in the format `%Y-%m-%d %H:%M:%S`, the text that `Display` writes
/// for a date and time of a year from 0 to 9999 with no fraction of a second is read back
/// as that date and time.
#[verifier::external_body]
pub fn parse_date_time(text: &str, format: &str) -> (at: Option<DateTimeFields>)
    ensures
        at == chrono_parse_date_time(text@, format@),
        at matches Some(f) ==> is_date_time(f),
        format@ == "%Y-%m-%d %H:%M:%S"@ ==> forall|f: DateTimeFields|
            is_date_time(f) && f.nanosecond == 0 && 0 <= f.year <= 9999 && text@ == date_time_text(f) ==> at == Some(f),
{
    chrono::NaiveDateTime::parse_from_str(text, format).ok().map(|t| DateTimeFields {
        year: t.year(),
        month: t.month(),
        day: t.day(),
        hour: t.hour(),
        minute: t.minute(),
        second: t.second(),
        nanosecond: t.nanosecond(),
    })
}

/// An instant, as seconds since 1970-01-01 00:00:00 UTC and the nanoseconds past that second.
#[derive(Debug, Clone, Copy, PartialEq, Eq, Structural)]
pub struct Instant {
    pub seconds: i64,
    pub nanos: u32,
}

/// `a` comes before `b`.
pub open spec fn instant_before(a: Instant, b: Instant) -> bool {
    a.seconds < b.seconds || (a.seconds == b.seconds && a.nanos < b.nanos)
}

/// Whether `a` comes before `b`.
pub fn is_before(a: Instant, b: Instant) -> (before: bool)
    ensures
        before == instant_before(a, b),
{
    a.seconds < b.seconds || (a.seconds == b.seconds && a.nanos < b.nanos)
}

/// The instants that a date and time of day of the local time zone stands for.
#[derive(Debug, Clone, Copy)]
pub enum LocalInstants {
    /// The local time does not exist (it falls into a gap of the time zone).
    Missing,
    /// The local time is one instant.
    Single(Instant),
    /// The local time happens twice (it falls into an overlap of the time zone).
    Ambiguous(Instant, Instant),
}

/// The number of days from 1970-01-01 to the day `day` of `month` in `year`, in the
/// proleptic Gregorian calendar (negative before it).
pub open spec fn days_from_civil(year: int, month: int, day: int) -> int {
    let y = if month <= 2 { year - 1 } else { year };
    let era = y / 400;
    let year_of_era = y - era * 400;
    let month_from_march = if month > 2 { month - 3 } else { month + 9 };
    let day_of_year = (153 * month_from_march + 2) / 5 + day - 1;
    let day_of_era = year_of_era * 365 + year_of_era / 4 - year_of_era / 100 + day_of_year;
    era * 146097 + day_of_era - 719468
}

/// The seconds from 1970-01-01 00:00:00 to the date and time `at`, read as if it were UTC
/// (a leap second counts as second 59).
pub open spec fn naive_seconds(at: DateTimeFields) -> int {
    days_from_civil(at.year as int, at.month as int, at.day as int) * 86400 + at.hour * 3600 + at.minute * 60
        + at.second
}

/// An instant of the local date and time `at`, in some time zone: it lies less than a
/// day away from `at` read as UTC.
pub open spec fn within_a_day(at: DateTimeFields, t: Instant) -> bool {
    naive_seconds(at) - 86400 < t.seconds < naive_seconds(at) + 86400
}

/// The instants of the machine's time zone at the local date and time `at`, by
/// `chrono::Local.from_local_datetime` on the `NaiveDateTime` that `at` holds, each taken
/// as its Unix timestamp and the nanoseconds past it. Which of them there are depends on
/// the machine's time zone and is not stated. Each one is `at` less the zone's offset,
/// and chrono's offsets lie strictly within a day, so each lies less than a day from `at`
/// read as UTC.
#[verifier::external_body]
pub fn local_instants(at: &DateTimeFields) -> (instants: LocalInstants)
    requires
        is_date_time(*at),
    ensures
        instants matches LocalInstants::Single(t) ==> within_a_day(*at, t),
        instants matches LocalInstants::Ambiguous(a, b) ==> within_a_day(*at, a) && within_a_day(*at, b),
{
    let date = chrono::NaiveDate::from_ymd_opt(at.year, at.month, at.day).unwrap();
    match chrono::Local.from_local_datetime(&date.and_hms_nano_opt(at.hour, at.minute, at.second, at.nanosecond).unwrap()) {
        chrono::LocalResult::None => LocalInstants::Missing,
        chrono::LocalResult::Single(t) => LocalInstants::Single(Instant { seconds: t.timestamp(), nanos: t.timestamp_subsec_nanos() }),
        chrono::LocalResult::Ambiguous(a, b) => LocalInstants::Ambiguous(
            Instant { seconds: a.timestamp(), nanos: a.timestamp_subsec_nanos() },
            Instant { seconds: b.timestamp(), nanos: b.timestamp_subsec_nanos() },
        ),
    }
}

/// The current instant, by `chrono::Local::now`, taken as its Unix timestamp and the
/// nanoseconds past it. It depends on the clock, so nothing is stated of it.
#[verifier::external_body]
pub fn local_now() -> (now: Instant) {
    let t = chrono::Local::now();
    Instant { seconds: t.timestamp(), nanos: t.timestamp_subsec_nanos() }
}

/// The current local time written as in RFC 2822, by `chrono::DateTime::to_rfc2822` on
/// `chrono::Local::now()`. That function panics for years outside 0 to 9999, which the
/// clock does not reach; the text depends on the clock, so nothing is stated of it.
#[verifier::external_body]
pub fn local_now_rfc2822() -> (text: String) {
    chrono::Local::now().to_rfc2822()
}

/// The decimal digit `d`.
pub open spec fn digit_char(d: nat) -> char {
    (('0' as nat) + d) as char
}

/// The decimal digits of `n`, without leading zeros.
pub open spec fn decimal(n: nat) -> Seq<char>
    decreases n,
{
    if n < 10 {
        seq![digit_char(n)]
    } else {
        decimal(n / 10).push(digit_char(n % 10))
    }
}

/// The decimal digits of `n`, with zeros in front up to `width` characters.
pub open spec fn zero_padded(n: nat, width: nat) -> Seq<char> {
    if decimal(n).len() >= width {
        decimal(n)
    } else {
        Seq::new((width - decimal(n).len()) as nat, |i: int| '0') + decimal(n)
    }
}

/// A year as chrono writes it: four digits from 0 to 9999, else a sign and at least
/// four digits.
pub open spec fn year_text(year: int) -> Seq<char> {
    if 0 <= year <= 9999 {
        zero_padded(year as nat, 4)
    } else if year < 0 {
        seq!['-'] + zero_padded((-year) as nat, 4)
    } else {
        seq!['+'] + zero_padded(year as nat, 4)
    }
}

/// A date and time written as `%Y-%m-%d %H:%M:%S`: what chrono's `NaiveDateTime` writes
/// with `Display` when its nanosecond is 0 (the nanosecond is not written).
pub open spec fn date_time_text(at: DateTimeFields) -> Seq<char> {
    year_text(at.year as int) + seq!['-'] + zero_padded(at.month as nat, 2) + seq!['-']
        + zero_padded(at.day as nat, 2) + seq![' '] + zero_padded(at.hour as nat, 2) + seq![':']
        + zero_padded(at.minute as nat, 2) + seq![':'] + zero_padded(at.second as nat, 2)
}

/// `n` below `10` to the power `k` has at most `k` digits.
pub proof fn lemma_decimal_len_le(n: nat, k: nat)
    requires
        k >= 1,
        n < pow10(k),
    ensures
        decimal(n).len() <= k,
    decreases k,
{
    assert(pow10(k) == 10 * pow10((k - 1) as nat));
    assert(pow10(0) == 1);
    if n >= 10 && k > 1 {
        lemma_decimal_len_le(n / 10, (k - 1) as nat);
    }
}

/// Ten to the power `k`.
pub open spec fn pow10(k: nat) -> nat
    decreases k,
{
    if k == 0 {
        1
    } else {
        10 * pow10((k - 1) as nat)
    }
}

/// What chrono's `NaiveDateTime` writes with `Display` for the date and time `at`.
pub uninterp spec fn chrono_date_time_display(at: DateTimeFields) -> Seq<char>;

/// `at` as chrono writes it: the `Display` of the `NaiveDateTime` that `at` holds. The text
/// is named; where `at` has no fraction of a second, chrono's source writes the year (four
/// digits from 0 to 9999, else with its sign and at least four digits), month, day, hour,
/// minute and second, padded to two digits, as `%Y-%m-%d %H:%M:%S`, and nothing more.
#[verifier::external_body]
pub fn format_date_time(at: &DateTimeFields) -> (text: String)
    requires
        is_date_time(*at),
    ensures
        text@ == chrono_date_time_display(*at),
        at.nanosecond == 0 ==> text@ == date_time_text(*at),
{
    let date = chrono::NaiveDate::from_ymd_opt(at.year, at.month, at.day).unwrap();
    date.and_hms_nano_opt(at.hour, at.minute, at.second, at.nanosecond).unwrap().to_string()
}

} // verus!
