use bytes::BytesMut;
use chrono::{DateTime, NaiveDate, NaiveTime, TimeZone};
use chrono_tz::UTC;
use glaredb_pg::error::ReprError;
use glaredb_pg::interval::format_interval_text;
use glaredb_pg::writer::{BinaryWriter, Decimal128, TextWriter};

fn assert_buf(buf: &BytesMut, val: &[u8]) {
    let slice: &[u8] = buf.as_ref();
    assert_eq!(
        val,
        &slice[0..buf.len()],
        "\nExpected: {}\nGot: {}",
        &String::from_utf8_lossy(val),
        &String::from_utf8_lossy(slice)
    );
    assert_eq!(buf.len(), val.len());
}

#[test]
fn test_text_writer() {
    type Writer = TextWriter;

    let mut buf = BytesMut::new();
    let buf = &mut buf;

    buf.clear();
    Writer::write_bool(buf, true).unwrap();
    assert_buf(buf, b"t");

    buf.clear();
    Writer::write_bool(buf, false).unwrap();
    assert_buf(buf, b"f");

    buf.clear();
    Writer::write_int2(buf, 1234).unwrap();
    assert_buf(buf, b"1234");

    buf.clear();
    Writer::write_int2(buf, -1234).unwrap();
    assert_buf(buf, b"-1234");

    buf.clear();
    Writer::write_int4(buf, 654321).unwrap();
    assert_buf(buf, b"654321");

    buf.clear();
    Writer::write_int4(buf, -654321).unwrap();
    assert_buf(buf, b"-654321");

    buf.clear();
    Writer::write_int8(buf, 1234567890).unwrap();
    assert_buf(buf, b"1234567890");

    buf.clear();
    Writer::write_int8(buf, -1234567890).unwrap();
    assert_buf(buf, b"-1234567890");

    buf.clear();
    Writer::write_text(buf, "abcdefghij").unwrap();
    assert_buf(buf, b"abcdefghij");

    buf.clear();
    Writer::write_bytea(buf, &[23, 13, 255, 0, 130]).unwrap();
    assert_buf(buf, b"\\x170dff0082");

    buf.clear();
    let nt = DateTime::from_timestamp(938689324, 0).unwrap().naive_utc();
    Writer::write_timestamp(buf, &nt).unwrap();
    assert_buf(buf, format!("{}", nt.format("%Y-%m-%d %H:%M:%S")).as_bytes());

    buf.clear();
    let nt = DateTime::from_timestamp(938689324, 123567).unwrap().naive_utc();
    Writer::write_timestamp(buf, &nt).unwrap();
    assert_buf(buf, format!("{}.000124", nt.format("%Y-%m-%d %H:%M:%S")).as_bytes());

    buf.clear();
    let nt = DateTime::from_timestamp(938689324, 123_400_000).unwrap().naive_utc();
    Writer::write_timestamp(buf, &nt).unwrap();
    assert_buf(buf, format!("{}.1234", nt.format("%Y-%m-%d %H:%M:%S")).as_bytes());

    buf.clear();
    let nt = DateTime::from_timestamp(-197199051, 0).unwrap().naive_utc();
    Writer::write_timestamp(buf, &nt).unwrap();
    assert_buf(buf, format!("{}", nt.format("%Y-%m-%d %H:%M:%S")).as_bytes());

    buf.clear();
    let nt = DateTime::from_timestamp(-62143593684, 0).unwrap().naive_utc();
    Writer::write_timestamp(buf, &nt).unwrap();
    assert_buf(buf, format!("1-{} BC", nt.format("%m-%d %H:%M:%S")).as_bytes());

    buf.clear();
    let dt = UTC.timestamp_opt(938689324, 0).unwrap();
    Writer::write_timestamptz(buf, &dt.naive_utc()).unwrap();
    assert_buf(buf, format!("{}+00", dt.format("%Y-%m-%d %H:%M:%S")).as_bytes());

    buf.clear();
    let dt = UTC.timestamp_opt(938689324, 123567).unwrap();
    Writer::write_timestamptz(buf, &dt.naive_utc()).unwrap();
    assert_buf(buf, format!("{}.000124+00", dt.format("%Y-%m-%d %H:%M:%S")).as_bytes());

    buf.clear();
    let dt = UTC.timestamp_opt(938689324, 123_400_000).unwrap();
    Writer::write_timestamptz(buf, &dt.naive_utc()).unwrap();
    assert_buf(buf, format!("{}.1234+00", dt.format("%Y-%m-%d %H:%M:%S")).as_bytes());

    buf.clear();
    let dt = UTC.timestamp_opt(-197199051, 0).unwrap();
    Writer::write_timestamptz(buf, &dt.naive_utc()).unwrap();
    assert_buf(buf, format!("{}+00", dt.format("%Y-%m-%d %H:%M:%S")).as_bytes());

    buf.clear();
    let dt = UTC.timestamp_opt(-62143593684, 0).unwrap();
    Writer::write_timestamptz(buf, &dt.naive_utc()).unwrap();
    assert_buf(buf, format!("1-{}+00 BC", dt.format("%m-%d %H:%M:%S")).as_bytes());

    buf.clear();
    let nt = NaiveTime::from_hms_nano_opt(16, 32, 4, 0).unwrap();
    Writer::write_time(buf, &nt).unwrap();
    assert_buf(buf, b"16:32:04");

    buf.clear();
    let nt = NaiveTime::from_hms_nano_opt(16, 32, 4, 123567).unwrap();
    Writer::write_time(buf, &nt).unwrap();
    assert_buf(buf, b"16:32:04.000124");

    buf.clear();
    let nt = NaiveTime::from_hms_nano_opt(16, 32, 4, 123_400_000).unwrap();
    Writer::write_time(buf, &nt).unwrap();
    assert_buf(buf, b"16:32:04.1234");

    buf.clear();
    let nd = NaiveDate::from_ymd_opt(1999, 9, 30).unwrap();
    Writer::write_date(buf, &nd).unwrap();
    assert_buf(buf, b"1999-09-30");

    buf.clear();
    let nd = NaiveDate::from_ymd_opt(1963, 10, 2).unwrap();
    Writer::write_date(buf, &nd).unwrap();
    assert_buf(buf, b"1963-10-02");

    buf.clear();
    let nd = NaiveDate::from_ymd_opt(0, 9, 30).unwrap();
    Writer::write_date(buf, &nd).unwrap();
    assert_buf(buf, b"1-09-30 BC");

    buf.clear();
    let decimal = Decimal128::new(3950123456, 6);
    Writer::write_decimal(buf, &decimal).unwrap();
    assert_buf(buf, b"3950.123456");
}

#[test]
fn text_time_fraction_rounds_to_micros() {
    let mut buf = BytesMut::new();
    // 499 ns round down to no fraction at all.
    let nt = NaiveTime::from_hms_nano_opt(0, 0, 1, 499).unwrap();
    TextWriter::write_time(&mut buf, &nt).unwrap();
    assert_buf(&buf, b"00:00:01");
    buf.clear();
    // 500 ns round up to one microsecond.
    let nt = NaiveTime::from_hms_nano_opt(23, 59, 59, 500).unwrap();
    TextWriter::write_time(&mut buf, &nt).unwrap();
    assert_buf(&buf, b"23:59:59.000001");
    buf.clear();
    let nd = NaiveDate::from_ymd_opt(-43, 3, 15).unwrap();
    TextWriter::write_date(&mut buf, &nd).unwrap();
    assert_buf(&buf, b"44-03-15 BC");
}

#[test]
fn write_any_text_and_binary() {
    let mut buf = BytesMut::new();
    TextWriter::write_any(&mut buf, "[1, 2]").unwrap();
    assert_buf(&buf, b"[1, 2]");
    buf.clear();
    let err = BinaryWriter::write_any(&mut buf, "[1, 2]").unwrap_err();
    assert_eq!(buf.len(), 0);
    match err {
        ReprError::InternalError(m) => assert_eq!(
            m,
            "binary writer: no encoder for value `[1, 2]` \u{2014} add an explicit arm in `Scalar::from_datafusion`"
        ),
        other => panic!("unexpected error {other:?}"),
    }
}

#[test]
fn test_binary_writer() {
    type Writer = BinaryWriter;

    let mut buf = BytesMut::new();
    let buf = &mut buf;

    buf.clear();
    Writer::write_bool(buf, true).unwrap();
    assert_buf(buf, &[1]);

    buf.clear();
    Writer::write_bool(buf, false).unwrap();
    assert_buf(buf, &[0]);

    buf.clear();
    Writer::write_int2(buf, 1234).unwrap();
    assert_buf(buf, 1234_i16.to_be_bytes().as_ref());

    buf.clear();
    Writer::write_int4(buf, 654321).unwrap();
    assert_buf(buf, 654321_i32.to_be_bytes().as_ref());

    buf.clear();
    Writer::write_int8(buf, 1234567890).unwrap();
    assert_buf(buf, 1234567890_i64.to_be_bytes().as_ref());

    buf.clear();
    Writer::write_text(buf, "abcdefghij").unwrap();
    assert_buf(buf, b"abcdefghij");

    buf.clear();
    Writer::write_bytea(buf, &[23, 13, 255, 0, 130]).unwrap();
    assert_buf(buf, &[23, 13, 255, 0, 130]);

    buf.clear();
    let nt = DateTime::from_timestamp(938689324, 123567)
        .unwrap()
        .naive_utc();
    Writer::write_timestamp(buf, &nt).unwrap();
    // Microseconds since Jan 1, 2000
    assert_buf(buf, (-7_995_475_999_876_i64).to_be_bytes().as_ref());

    buf.clear();
    let dt = UTC.timestamp_opt(938689324, 123567).unwrap();
    Writer::write_timestamptz(buf, &dt.naive_utc()).unwrap();
    assert_buf(buf, (-7_995_475_999_876_i64).to_be_bytes().as_ref());

    buf.clear();
    let nt = NaiveTime::from_hms_micro_opt(16, 32, 4, 1234).unwrap();
    Writer::write_time(buf, &nt).unwrap();
    // Microseconds since mid-night
    assert_buf(buf, 59_524_001_234_i64.to_be_bytes().as_ref());

    buf.clear();
    let nd = NaiveDate::from_ymd_opt(1999, 9, 30).unwrap();
    Writer::write_date(buf, &nd).unwrap();
    // Days since Jan 1, 2000
    assert_buf(buf, (-93_i32).to_be_bytes().as_ref());

    buf.clear();
    let decimal = Decimal128::new(3950123456, 6);
    Writer::write_decimal(buf, &decimal).unwrap();
    // 3950.123456 → ndigits=3, weight=0, sign=+, dscale=6, [3950,1234,5600]
    assert_buf(buf, &[0, 3, 0, 0, 0, 0, 0, 6, 15, 110, 4, 210, 21, 224]);
}

#[test]
fn test_binary_writer_decimal_edges() {
    type Writer = BinaryWriter;
    let mut buf = BytesMut::new();
    let buf = &mut buf;

    // Zero: ndigits=0, weight=0, sign=+, dscale=2, no groups.
    buf.clear();
    Writer::write_decimal(buf, &Decimal128::new(0, 2)).unwrap();
    assert_buf(buf, &[0, 0, 0, 0, 0, 0, 0, 2]);

    // Plain integer (scale 0): 12345 = 1*10000 + 2345 → [1, 2345], weight=1.
    buf.clear();
    Writer::write_decimal(buf, &Decimal128::new(12345, 0)).unwrap();
    assert_buf(buf, &[0, 2, 0, 1, 0, 0, 0, 0, 0, 1, 9, 41]);

    // Negative value: -3950.123456 → same digits, sign=0x4000.
    buf.clear();
    Writer::write_decimal(buf, &Decimal128::new(-3950123456, 6)).unwrap();
    assert_buf(buf, &[0, 3, 0, 0, 0x40, 0, 0, 6, 15, 110, 4, 210, 21, 224]);

    // Pure fraction needing a pad: 0.5 (scale 1) → 5000, weight=-1, dscale=1.
    buf.clear();
    Writer::write_decimal(buf, &Decimal128::new(5, 1)).unwrap();
    assert_buf(buf, &[0, 1, 255, 255, 0, 0, 0, 1, 19, 136]);

    // Trailing zero group trimmed: 1.0000 → [1], weight 0, dscale 4.
    buf.clear();
    Writer::write_decimal(buf, &Decimal128::new(10000, 4)).unwrap();
    assert_buf(buf, &[0, 1, 0, 0, 0, 0, 0, 4, 0, 1]);
}

#[test]
fn test_binary_writer_interval() {
    type Writer = BinaryWriter;
    let mut buf = BytesMut::new();
    let buf = &mut buf;

    // 1 month, 2 days, 3 seconds → micros=3_000_000, days=2, months=1.
    buf.clear();
    Writer::write_interval(buf, 1, 2, 3_000_000).unwrap();
    let mut expected = Vec::new();
    expected.extend_from_slice(3_000_000_i64.to_be_bytes().as_ref());
    expected.extend_from_slice(2_i32.to_be_bytes().as_ref());
    expected.extend_from_slice(1_i32.to_be_bytes().as_ref());
    assert_buf(buf, &expected);
}

#[test]
fn binary_decimal_too_large_is_refused() {
    let mut buf = BytesMut::new();
    buf.extend_from_slice(&[9]);
    // i128::MAX with scale 1 needs a factor of 1000 to align the fraction,
    // which does not fit 128 bits.
    let err = BinaryWriter::write_decimal(&mut buf, &Decimal128::new(i128::MAX, 1)).unwrap_err();
    assert_eq!(
        err,
        ReprError::InternalError(format!(
            "decimal too large to encode as PG numeric: mantissa={}, scale=1",
            i128::MAX
        ))
    );
    assert_buf(&buf, &[9]);
}

#[test]
fn binary_decimal_negative_scale() {
    // 12 * 10^4 = 120000 → groups [12, 0] → trailing zero dropped: [12],
    // weight 1, dscale 0.
    let mut buf = BytesMut::new();
    BinaryWriter::write_decimal(&mut buf, &Decimal128::new(12, -4)).unwrap();
    assert_buf(&buf, &[0, 1, 0, 1, 0, 0, 0, 0, 0, 12]);
}

#[test]
fn binary_writes_append() {
    let mut buf = BytesMut::new();
    BinaryWriter::write_int2(&mut buf, -2).unwrap();
    BinaryWriter::write_bool(&mut buf, true).unwrap();
    assert_buf(&buf, &[0xff, 0xfe, 1]);
}

#[test]
fn text_decimal_forms() {
    let mut buf = BytesMut::new();
    TextWriter::write_decimal(&mut buf, &Decimal128::new(-5, 3)).unwrap();
    assert_buf(&buf, b"-0.005");
    buf.clear();
    TextWriter::write_decimal(&mut buf, &Decimal128::new(12, -2)).unwrap();
    assert_buf(&buf, b"1200");
    buf.clear();
    TextWriter::write_decimal(&mut buf, &Decimal128::new(0, -2)).unwrap();
    assert_buf(&buf, b"0");
    buf.clear();
    TextWriter::write_decimal(&mut buf, &Decimal128::new(42, 0)).unwrap();
    assert_buf(&buf, b"42");
}

#[test]
fn text_interval_forms() {
    assert_eq!(format_interval_text(0, 0, 0), "00:00:00");
    assert_eq!(
        format_interval_text(14, 3, 4 * 3_600_000_000 + 5 * 60_000_000 + 6_500_000),
        "1 year 2 mons 3 days 04:05:06.5"
    );
    assert_eq!(format_interval_text(1, 1, 0), "1 mon 1 day");
    assert_eq!(format_interval_text(-13, -1, 0), "-1 year -1 mon -1 day");
    assert_eq!(format_interval_text(24, 0, -1), "2 years -00:00:00.000001");
    assert_eq!(format_interval_text(0, 2, 90 * 3_600_000_000), "2 days 90:00:00");

    let mut buf = BytesMut::new();
    TextWriter::write_interval(&mut buf, 0, 0, 61_000_000).unwrap();
    assert_buf(&buf, b"00:01:01");
}

#[test]
fn text_utf8_is_kept() {
    let mut buf = BytesMut::new();
    TextWriter::write_text(&mut buf, "héllo").unwrap();
    assert_buf(&buf, "héllo".as_bytes());
    buf.clear();
    BinaryWriter::write_text(&mut buf, "héllo").unwrap();
    assert_buf(&buf, "héllo".as_bytes());
}

#[test]
fn binary_timestamp_extremes() {
    let mut buf = BytesMut::new();
    let far = NaiveDate::MAX.and_hms_opt(0, 0, 0).unwrap();
    BinaryWriter::write_timestamp(&mut buf, &far).unwrap();
    assert_eq!(buf.len(), 8);
    buf.clear();
    let epoch = NaiveDate::from_ymd_opt(2000, 1, 1).unwrap();
    BinaryWriter::write_date(&mut buf, &epoch).unwrap();
    assert_buf(&buf, &[0, 0, 0, 0]);
}
