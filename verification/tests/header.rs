use chrono::{DateTime, NaiveDate};
use remote_time::error::FetchError;
use remote_time::header::{nanos_of_reading, observe, parse_date, NANOS_PER_SEC};
use remote_time::hosts::{host, request_url, FETCH_TIMEOUT_SECS, HOST_COUNT};
use remote_time::timestamp::Timestamp;

#[test]
fn header_date_becomes_whole_seconds_in_nanoseconds() {
    let nanos = parse_date("Wed, 18 Feb 2015 23:16:09 GMT").unwrap();
    assert_eq!(nanos, 1_424_301_369_000_000_000);
    assert_eq!(nanos % NANOS_PER_SEC, 0);
    assert_eq!(nanos / NANOS_PER_SEC, 1_424_301_369);
}

#[test]
fn header_round_trips_through_the_timestamp() {
    let text = "Fri, 15 May 2015 00:00:00 GMT";
    let nanos = parse_date(text).unwrap();
    let at = Timestamp::from_nanos(nanos);
    assert_eq!(at.secs(), 1_431_648_000);
    assert_eq!(at.subsec_nanos(), 0);
    assert_eq!(at.to_naive_utc().to_string(), "2015-05-15 00:00:00");
    assert_eq!(at.to_naive_utc().and_utc().to_rfc2822(), "Fri, 15 May 2015 00:00:00 +0000");
}

#[test]
fn header_offsets_are_applied() {
    assert_eq!(
        parse_date("Wed, 18 Feb 2015 23:16:09 +0100"),
        Some((1_424_301_369 - 3_600) * NANOS_PER_SEC)
    );
    assert_eq!(
        parse_date("Wed, 18 Feb 2015 23:16:09 -0500"),
        Some((1_424_301_369 + 5 * 3_600) * NANOS_PER_SEC)
    );
    assert_eq!(parse_date("Thu, 01 Jan 1970 00:00:00 GMT"), Some(0));
    assert_eq!(parse_date("Wed, 31 Dec 1969 23:59:59 GMT"), Some(-NANOS_PER_SEC));
}

#[test]
fn leap_second_counts_as_the_second_after() {
    assert_eq!(
        parse_date("Sat, 30 Jun 2012 23:59:60 +0000"),
        Some(1_341_100_800 * NANOS_PER_SEC)
    );
    assert_eq!(
        parse_date("Sun, 01 Jul 2012 00:00:00 +0000"),
        Some(1_341_100_800 * NANOS_PER_SEC)
    );
}

#[test]
fn what_is_no_date_has_no_timestamp() {
    assert_eq!(parse_date(""), None);
    assert_eq!(parse_date("not a date"), None);
    assert_eq!(parse_date("2015-02-18T23:16:09Z"), None);
    assert_eq!(parse_date("Wed, 31 Feb 2015 23:16:09 GMT"), None);
    assert_eq!(parse_date("Thu, 18 Feb 2015 23:16:09 GMT"), None);
}

#[test]
fn date_past_the_nanosecond_range_has_no_timestamp() {
    assert!(DateTime::parse_from_rfc2822("Sat, 01 Jan 2400 00:00:00 GMT").is_ok());
    assert_eq!(parse_date("Sat, 01 Jan 2400 00:00:00 GMT"), None);
    assert!(DateTime::parse_from_rfc2822("Sat, 01 Jan 1600 00:00:00 GMT").is_ok());
    assert_eq!(parse_date("Sat, 01 Jan 1600 00:00:00 GMT"), None);
    assert_eq!(
        parse_date("Fri, 11 Apr 2262 23:47:16 GMT"),
        Some(9_223_372_036 * NANOS_PER_SEC)
    );
    assert_eq!(parse_date("Fri, 11 Apr 2262 23:47:17 GMT"), None);
}

#[test]
fn reading_to_nanoseconds() {
    assert_eq!(nanos_of_reading(0, 0), Some(0));
    assert_eq!(nanos_of_reading(1_431_648_000, 0), Some(1_431_648_000_000_000_000));
    assert_eq!(nanos_of_reading(-1, 0), Some(-1_000_000_000));
    assert_eq!(nanos_of_reading(59, 1_000_000_000), Some(60_000_000_000));
    assert_eq!(nanos_of_reading(9_223_372_036, 0), Some(9_223_372_036_000_000_000));
    assert_eq!(nanos_of_reading(-9_223_372_036, 0), Some(-9_223_372_036_000_000_000));
}

#[test]
fn reading_with_a_fraction_or_out_of_range_is_refused() {
    assert_eq!(nanos_of_reading(10, 1), None);
    assert_eq!(nanos_of_reading(10, 999_999_999), None);
    assert_eq!(nanos_of_reading(10, 1_500_000_000), None);
    assert_eq!(nanos_of_reading(9_223_372_037, 0), None);
    assert_eq!(nanos_of_reading(9_223_372_036, 1_000_000_000), None);
    assert_eq!(nanos_of_reading(-9_223_372_037, 0), None);
    assert_eq!(nanos_of_reading(i64::MAX, 0), None);
    assert_eq!(nanos_of_reading(i64::MIN, 0), None);
}

#[test]
fn observation_of_a_response() {
    assert_eq!(observe(Some("Wed, 18 Feb 2015 23:16:09 GMT")), Ok(1_424_301_369_000_000_000));
    assert_eq!(observe(None), Err(FetchError::MissingDate));
    assert_eq!(observe(Some("yesterday")), Err(FetchError::UnparsableDate));
    assert_eq!(observe(Some("Sat, 01 Jan 2400 00:00:00 GMT")), Err(FetchError::UnparsableDate));
}

#[test]
fn timestamp_splits_seconds_and_nanoseconds() {
    let at = Timestamp::from_nanos(1_500_000_000_123);
    assert_eq!((at.secs(), at.subsec_nanos()), (1_500, 123));
    assert_eq!(at.as_nanos(), 1_500_000_000_123);
    let at = Timestamp::from_nanos(0);
    assert_eq!((at.secs(), at.subsec_nanos()), (0, 0));
    let at = Timestamp::from_nanos(999_999_999);
    assert_eq!((at.secs(), at.subsec_nanos()), (0, 999_999_999));
    let at = Timestamp::from_nanos(i64::MAX);
    assert_eq!((at.secs(), at.subsec_nanos()), (9_223_372_036, 854_775_807));
    assert_eq!(at.as_nanos(), i64::MAX);
}

#[test]
fn timestamp_before_the_epoch_rounds_towards_the_past() {
    let at = Timestamp::from_nanos(-1);
    assert_eq!((at.secs(), at.subsec_nanos()), (-1, 999_999_999));
    assert_eq!(at.as_nanos(), -1);
    let at = Timestamp::from_nanos(-1_000_000_000);
    assert_eq!((at.secs(), at.subsec_nanos()), (-1, 0));
    let at = Timestamp::from_nanos(-1_000_000_001);
    assert_eq!((at.secs(), at.subsec_nanos()), (-2, 999_999_999));
    let at = Timestamp::from_nanos(i64::MIN);
    assert_eq!((at.secs(), at.subsec_nanos()), (-9_223_372_037, 145_224_192));
    assert_eq!(at.as_nanos(), i64::MIN);
}

#[test]
fn timestamp_as_chrono_date_and_time() {
    let expected = NaiveDate::from_ymd_opt(2015, 5, 15)
        .unwrap()
        .and_hms_nano_opt(0, 0, 1, 444)
        .unwrap();
    assert_eq!(Timestamp::from_nanos(1_431_648_001_000_000_444).to_naive_utc(), expected);
    let epoch = NaiveDate::from_ymd_opt(1970, 1, 1).unwrap().and_hms_opt(0, 0, 0).unwrap();
    assert_eq!(Timestamp::from_nanos(0).to_naive_utc(), epoch);
    let before = NaiveDate::from_ymd_opt(1969, 12, 31)
        .unwrap()
        .and_hms_nano_opt(23, 59, 59, 999_999_999)
        .unwrap();
    assert_eq!(Timestamp::from_nanos(-1).to_naive_utc(), before);
}

#[test]
fn timestamp_extremes_are_dates_that_chrono_holds() {
    let last = Timestamp::from_nanos(i64::MAX).to_naive_utc();
    assert_eq!(last.to_string(), "2262-04-11 23:47:16.854775807");
    let first = Timestamp::from_nanos(i64::MIN).to_naive_utc();
    assert_eq!(first.to_string(), "1677-09-21 00:12:43.145224192");
    assert!(first < last);
}

#[test]
fn host_set() {
    assert_eq!(HOST_COUNT, 12);
    assert_eq!(FETCH_TIMEOUT_SECS, 2);
    let expected = [
        "facebook.com",
        "microsoft.com",
        "amazon.com",
        "google.com",
        "youtube.com",
        "twitter.com",
        "reddit.com",
        "netflix.com",
        "bing.com",
        "twitch.tv",
        "myshopify.com",
        "wikipedia.org",
    ];
    for (index, name) in expected.iter().enumerate() {
        assert_eq!(host(index), Some(*name));
    }
    assert_eq!(host(12), None);
    assert_eq!(host(usize::MAX), None);
}

#[test]
fn request_goes_to_plain_http() {
    assert_eq!(request_url("google.com"), "http://google.com");
    assert_eq!(request_url(host(9).unwrap()), "http://twitch.tv");
    assert_eq!(request_url(""), "http://");
}
