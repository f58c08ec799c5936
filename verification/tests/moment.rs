use write_only::moment::{days_ago, days_text_of, numeral, Timestamp};

const DAY: i64 = 86_400;
const NOON_8_JULY_2016: i64 = 1_467_979_200;

fn at(secs: i64, nanos: u32) -> Timestamp {
    Timestamp::new(secs, nanos).unwrap()
}

#[test]
fn timestamp_keeps_what_it_was_made_of() {
    let t = at(NOON_8_JULY_2016, 123_456_789);
    assert_eq!(t.secs(), NOON_8_JULY_2016);
    assert_eq!(t.nanos(), 123_456_789);
    assert_eq!(at(-1, 0).secs(), -1);
}

#[test]
fn timestamp_out_of_range_is_refused() {
    assert_eq!(Timestamp::new(i64::MAX, 0), None);
    assert_eq!(Timestamp::new(i64::MIN, 0), None);
    assert_eq!(Timestamp::new(0, 2_000_000_000), None);
    assert_eq!(Timestamp::new(0, 1_000_000_000), None);
}

#[test]
fn date_is_year_month_day() {
    assert_eq!(at(NOON_8_JULY_2016, 0).date(), "2016 July  8");
    assert_eq!(at(1_467_288_000, 0).date(), "2016 June 30");
    assert_eq!(at(0, 0).date(), "1970 January  1");
    assert_eq!(at(-1, 999_999_999).date(), "1969 December 31");
    assert_eq!(at(1_709_208_000, 0).date(), "2024 February 29");
}

#[test]
fn days_since_counts_whole_days() {
    let now = at(NOON_8_JULY_2016, 0);
    assert_eq!(now.days_since(&now), 0);
    assert_eq!(at(NOON_8_JULY_2016 + DAY, 0).days_since(&now), 1);
    assert_eq!(at(NOON_8_JULY_2016 + DAY - 1, 999_999_999).days_since(&now), 0);
    assert_eq!(at(NOON_8_JULY_2016 - DAY, 0).days_since(&now), -1);
    assert_eq!(at(NOON_8_JULY_2016 - DAY + 1, 0).days_since(&now), 0);
    assert_eq!(at(NOON_8_JULY_2016 - 2 * DAY + 1, 0).days_since(&now), -1);
    assert_eq!(at(NOON_8_JULY_2016, 0).days_since(&at(0, 0)), 16_990);
}

#[test]
fn numeral_is_decimal() {
    assert_eq!(numeral(0), "0");
    assert_eq!(numeral(7), "7");
    assert_eq!(numeral(10), "10");
    assert_eq!(numeral(1234567890), "1234567890");
    assert_eq!(numeral(u64::MAX), "18446744073709551615");
}

#[test]
fn days_text_names_the_near_days() {
    assert_eq!(days_text_of(0), "today");
    assert_eq!(days_text_of(1), "tomorrow");
    assert_eq!(days_text_of(-1), "yesterday");
}

#[test]
fn days_text_counts_the_far_days() {
    assert_eq!(days_text_of(2), "in 2 days");
    assert_eq!(days_text_of(365), "in 365 days");
    assert_eq!(days_text_of(-2), "2 days ago");
    assert_eq!(days_text_of(-100), "100 days ago");
    assert_eq!(days_text_of(i64::MAX), "in 9223372036854775807 days");
    assert_eq!(days_text_of(i64::MIN), "9223372036854775808 days ago");
}

#[test]
fn days_ago_reads_the_distance_from_now() {
    let now = at(NOON_8_JULY_2016, 0);
    assert_eq!(days_ago(&now, &now), "today");
    assert_eq!(days_ago(&at(NOON_8_JULY_2016 - 3600, 0), &now), "today");
    assert_eq!(days_ago(&at(NOON_8_JULY_2016 - DAY, 0), &now), "yesterday");
    assert_eq!(days_ago(&at(NOON_8_JULY_2016 - 12 * DAY - 5, 0), &now), "12 days ago");
    assert_eq!(days_ago(&at(NOON_8_JULY_2016 + DAY, 0), &now), "tomorrow");
    assert_eq!(days_ago(&at(NOON_8_JULY_2016 + 3 * DAY + 7, 0), &now), "in 3 days");
}

#[test]
fn date_time_is_date_and_time_of_day() {
    assert_eq!(at(NOON_8_JULY_2016, 0).date_time(), "2016-07-08 12:00:00");
    assert_eq!(at(0, 1).date_time(), "1970-01-01 00:00:00.000000001");
    assert_eq!(at(-1, 500_000_000).date_time(), "1969-12-31 23:59:59.500");
}
