//! The name of the file that holds a period's leaderboards.
use vstd::prelude::*;

use crate::model::Region;
use crate::text::{decimal, digit_char, lemma_decimal_len, push_zero_padded, zero_padded};

verus! {

/// Names the calendar date `(year, month, day)` in UTC that the chrono crate
/// gives for `millis` milliseconds since the Unix epoch; `None` where chrono
/// has no date for it.
pub uninterp spec fn utc_date_of_millis(millis: i64) -> Option<(i32, u32, u32)>;

/// Calls `chrono::TimeZone::timestamp_millis_opt` on `chrono::Utc`, then
/// `Datelike::year`, `month` and `day` on the date-time. Claimed: the result
/// is the function named `utc_date_of_millis` of `millis`, with the month in
/// 1..=12 and the day in 1..=31 (as chrono documents them). The calendar
/// computation itself is not stated.
#[verifier::external_body]
fn utc_date(millis: i64) -> (r: Option<(i32, u32, u32)>)
    ensures
        r == utc_date_of_millis(millis),
        r matches Some((y, m, d)) ==> 1 <= m <= 12 && 1 <= d <= 31,
{
    match chrono::TimeZone::timestamp_millis_opt(&chrono::Utc, millis) {
        chrono::MappedLocalTime::Single(dt) => Some(
            (chrono::Datelike::year(&dt), chrono::Datelike::month(&dt), chrono::Datelike::day(&dt)),
        ),
        _ => None,
    }
}

/// A year as `%Y` writes it: four digits, zero-padded, within 0..=9999;
/// outside, with its sign and at least four digits.
pub open spec fn year_text(year: int) -> Seq<char> {
    if 0 <= year <= 9999 {
        zero_padded(year as nat, 4)
    } else if year < 0 {
        seq!['-'] + zero_padded((-year) as nat, 4)
    } else {
        seq!['+'] + zero_padded(year as nat, 4)
    }
}

/// How `%Y` and the two-digit fields write numbers: a year of four digits as
/// its decimal form, a larger one with a `+` before it, one below -999 with a
/// `-`; a month or day of two digits as its decimal form, a smaller one with
/// a `0` before it.
pub proof fn law_date_fields(year: i32, n: u32)
    ensures
        1000 <= year <= 9999 ==> year_text(year as int) == decimal(year as nat),
        year > 9999 ==> year_text(year as int) == seq!['+'] + decimal(year as nat),
        year < -999 ==> year_text(year as int) == seq!['-'] + decimal((-year) as nat),
        10 <= n ==> zero_padded(n as nat, 2) == decimal(n as nat),
        n < 10 ==> zero_padded(n as nat, 2) == seq!['0', digit_char(n as nat)],
{
    let m = if year < 0 {
        -(year as int)
    } else {
        year as int
    };
    if m >= 1000 {
        let a = m as nat;
        lemma_decimal_len(a);
        lemma_decimal_len(a / 10);
        lemma_decimal_len(a / 100);
        if a >= 10000 {
            lemma_decimal_len(a / 1000);
            assert(decimal(a / 1000).len() >= 1);
        } else {
            assert(a / 1000 < 10);
            lemma_decimal_len(a / 1000);
        }
    }
    lemma_decimal_len(n as nat);
    if n >= 10 {
        lemma_decimal_len(n as nat / 10);
    } else {
        assert(Seq::new(1, |i: int| '0') + decimal(n as nat) =~= seq!['0', digit_char(n as nat)]);
    }
}

/// The name of the file that holds the leaderboards of `region` for the
/// period that starts on the given date: the date as `%Y-%m-%d`, then
/// `-leaderboard-`, the region's code and `.csv`.
pub open spec fn file_name_text(year: i32, month: u32, day: u32, region: Region) -> Seq<char> {
    year_text(year as int) + "-"@ + zero_padded(month as nat, 2) + "-"@ + zero_padded(
        day as nat,
        2,
    ) + "-leaderboard-"@ + region.code() + ".csv"@
}

/// The name of the file for the period that starts on `year`-`month`-`day`
/// (see `file_name_text`).
pub fn leaderboard_file_name_for_date(year: i32, month: u32, day: u32, region: Region) -> (s:
    String)
    ensures
        s@ == file_name_text(year, month, day, region),
        s@ == year_text(year as int) + "-"@ + zero_padded(month as nat, 2) + "-"@ + zero_padded(
            day as nat,
            2,
        ) + "-leaderboard-"@ + region.code() + ".csv"@,
{
    let mut s = String::new();
    if 0 <= year && year <= 9999 {
        push_zero_padded(&mut s, year as u32, 4);
    } else if year < 0 {
        s.push('-');
        let magnitude: i64 = -(year as i64);
        push_zero_padded(&mut s, magnitude as u32, 4);
    } else {
        s.push('+');
        push_zero_padded(&mut s, year as u32, 4);
    }
    assert(s@ =~= year_text(year as int));
    s.append("-");
    push_zero_padded(&mut s, month, 2);
    s.append("-");
    push_zero_padded(&mut s, day, 2);
    s.append("-leaderboard-");
    s.append(region.query_str());
    s.append(".csv");
    assert(s@ =~= file_name_text(year, month, day, region));
    s
}

/// The name of the file for the period that starts at `start_timestamp`
/// milliseconds since the Unix epoch (taken as a signed number); `None` where
/// chrono has no date for that instant.
pub fn leaderboard_file_name(start_timestamp: u64, region: Region) -> (r: Option<String>)
    ensures
        match utc_date_of_millis(start_timestamp as i64) {
            Some((y, m, d)) => r matches Some(s) && s@ == file_name_text(y, m, d, region),
            None => r is None,
        },
{
    match utc_date(start_timestamp as i64) {
        Some((year, month, day)) => Some(leaderboard_file_name_for_date(year, month, day, region)),
        None => None,
    }
}

} // verus!
