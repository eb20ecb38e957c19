use chrono::NaiveDate;

use mplus_leaderboard::error::FetchError;
use mplus_leaderboard::model::Region;
use mplus_leaderboard::report::{leaderboard_file_name, leaderboard_file_name_for_date};
use mplus_leaderboard::text::NumberError;

#[test]
fn file_name_from_period_start() {
    assert_eq!(
        leaderboard_file_name(1_546_300_800_000, Region::Us),
        Some("2019-01-01-leaderboard-us.csv".to_string())
    );
    assert_eq!(
        leaderboard_file_name(1_546_387_199_999, Region::Eu),
        Some("2019-01-01-leaderboard-eu.csv".to_string())
    );
}

#[test]
fn file_name_reads_the_timestamp_as_signed() {
    assert_eq!(
        leaderboard_file_name(u64::MAX, Region::Us),
        Some("1969-12-31-leaderboard-us.csv".to_string())
    );
    assert_eq!(leaderboard_file_name(i64::MAX as u64, Region::Us), None);
}

#[test]
fn file_name_for_date_writes_years_as_strftime_does() {
    assert_eq!(leaderboard_file_name_for_date(2019, 1, 1, Region::Us), "2019-01-01-leaderboard-us.csv");
    assert_eq!(leaderboard_file_name_for_date(999, 12, 31, Region::Eu), "0999-12-31-leaderboard-eu.csv");
    assert_eq!(leaderboard_file_name_for_date(-1, 3, 4, Region::Eu), "-0001-03-04-leaderboard-eu.csv");
    assert_eq!(
        leaderboard_file_name_for_date(12345, 3, 4, Region::Apac),
        "+12345-03-04-leaderboard-apac.csv"
    );
    assert_eq!(
        leaderboard_file_name_for_date(i32::MIN, 3, 4, Region::Apac),
        "-2147483648-03-04-leaderboard-apac.csv"
    );
}

#[test]
fn file_name_dates_agree_with_chrono_format() {
    for (y, m, d) in [(2019, 1, 1), (5, 6, 7), (-44, 3, 15), (10000, 12, 31), (9999, 2, 28)].iter() {
        let date = NaiveDate::from_ymd_opt(*y, *m, *d).unwrap();
        let expected = format!("{}-leaderboard-us.csv", date.format("%Y-%m-%d"));
        assert_eq!(leaderboard_file_name_for_date(*y, *m, *d, Region::Us), expected);
    }
}

#[test]
fn error_messages_describe_failures() {
    assert_eq!(FetchError::MissingEntry.message(), "Missing entry");
    assert_eq!(
        FetchError::Number(NumberError::InvalidDigit).message(),
        "invalid digit found in string"
    );
    assert_eq!(
        FetchError::Number(NumberError::PosOverflow).message(),
        "number too large to fit in target type"
    );
}
