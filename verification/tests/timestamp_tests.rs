use certwatch::timestamp::{normalize, to_iso8601, UtcInstant, TimestampFormatError};

fn instant(year: u32, month: u32, day: u32, hour: u32, minute: u32, second: u32) -> UtcInstant {
    UtcInstant { year, month, day, hour, minute, second }
}

#[test]
fn test_parse_date() {
    let date_str = "20251219235959Z";
    let date = openssl::asn1::Asn1Time::from_str(date_str).unwrap();
    let rendered = date.to_string();
    let dt = normalize(rendered.as_bytes());
    assert_eq!(dt, Ok(instant(2025, 12, 19, 23, 59, 59)));
}

#[test]
fn normalize_example() {
    let r = normalize(b"Dec 19 23:59:59 2025 GMT");
    assert_eq!(r, Ok(instant(2025, 12, 19, 23, 59, 59)));
}

#[test]
fn normalize_space_padded_day() {
    let r = normalize(b"Feb  3 00:00:00 2023 GMT");
    assert_eq!(r, Ok(instant(2023, 2, 3, 0, 0, 0)));
}

#[test]
fn normalize_zero_padded_day() {
    let r = normalize(b"Feb 03 04:05:06 2023 GMT");
    assert_eq!(r, Ok(instant(2023, 2, 3, 4, 5, 6)));
}

#[test]
fn normalize_missing_gmt_token() {
    assert_eq!(normalize(b"Dec 19 23:59:59 2025 UTC"), Err(TimestampFormatError));
    assert_eq!(normalize(b"Dec 19 23:59:59 2025"), Err(TimestampFormatError));
}

#[test]
fn normalize_rejects_bad_shapes() {
    assert_eq!(normalize(b""), Err(TimestampFormatError));
    assert_eq!(normalize(b"Dex 19 23:59:59 2025 GMT"), Err(TimestampFormatError));
    assert_eq!(normalize(b"Dec 19 23-59-59 2025 GMT"), Err(TimestampFormatError));
    assert_eq!(normalize(b"Dec 00 23:59:59 2025 GMT"), Err(TimestampFormatError));
    assert_eq!(normalize(b"Dec 32 23:59:59 2025 GMT"), Err(TimestampFormatError));
    assert_eq!(normalize(b"Dec 19 24:00:00 2025 GMT"), Err(TimestampFormatError));
    assert_eq!(normalize(b"Dec 19 23:60:00 2025 GMT"), Err(TimestampFormatError));
    assert_eq!(normalize(b"Dec 19 23:00:61 2025 GMT"), Err(TimestampFormatError));
}

#[test]
fn normalize_leap_years() {
    assert_eq!(normalize(b"Feb 29 12:00:00 2024 GMT"), Ok(instant(2024, 2, 29, 12, 0, 0)));
    assert_eq!(normalize(b"Feb 29 12:00:00 2025 GMT"), Err(TimestampFormatError));
    assert_eq!(normalize(b"Feb 29 12:00:00 2000 GMT"), Ok(instant(2000, 2, 29, 12, 0, 0)));
    assert_eq!(normalize(b"Feb 29 12:00:00 1900 GMT"), Err(TimestampFormatError));
    assert_eq!(normalize(b"Apr 31 12:00:00 2024 GMT"), Err(TimestampFormatError));
}

#[test]
fn iso8601_rendering() {
    let t = instant(2025, 1, 1, 0, 0, 0);
    assert_eq!(to_iso8601(&t), b"2025-01-01T00:00:00Z".to_vec());
    let t = instant(2025, 12, 19, 23, 59, 59);
    assert_eq!(to_iso8601(&t), b"2025-12-19T23:59:59Z".to_vec());
}

#[test]
fn round_trip_through_openssl_rendering() {
    // The certificate library's own textual rendering of a validity
    // bound must normalize to the instant its fields denote.
    let date = openssl::asn1::Asn1Time::from_str("20240229235959Z").unwrap();
    let rendered = date.to_string();
    assert_eq!(normalize(rendered.as_bytes()), Ok(instant(2024, 2, 29, 23, 59, 59)));
}
