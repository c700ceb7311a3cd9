use chrono::NaiveTime;
use glaredb_pg::arrow::{ArrowType, TimeUnit};
use glaredb_pg::scalar::{
    into_engine, time32_value, time64_value, ConversionRefusal, EngineValue, ScalarShape,
};

#[test]
fn conversion_table() {
    assert!(matches!(into_engine(&ScalarShape::Null, &ArrowType::Utf8), Ok(EngineValue::TypedNull)));
    assert!(matches!(into_engine(&ScalarShape::Int2, &ArrowType::Int8), Ok(EngineValue::Int8)));
    assert!(matches!(into_engine(&ScalarShape::Int2, &ArrowType::Int32), Err(ConversionRefusal::Unsupported)));
    assert!(matches!(
        into_engine(&ScalarShape::Timestamp, &ArrowType::Timestamp(TimeUnit::Millisecond, None)),
        Ok(EngineValue::Timestamp(TimeUnit::Millisecond, None))
    ));
    let zoned = ScalarShape::TimestampTz { zone: "UTC".to_string() };
    assert!(matches!(
        into_engine(&zoned, &ArrowType::Timestamp(TimeUnit::Second, Some("UTC".to_string()))),
        Ok(EngineValue::Timestamp(TimeUnit::Second, Some(ref z))) if z == "UTC"
    ));
    assert!(matches!(
        into_engine(&zoned, &ArrowType::Timestamp(TimeUnit::Second, Some("Europe/Paris".to_string()))),
        Err(ConversionRefusal::ZoneMismatch)
    ));
    assert!(matches!(
        into_engine(&ScalarShape::Decimal { scale: 2 }, &ArrowType::Decimal128(10, 2)),
        Ok(EngineValue::Decimal128(10, 2))
    ));
    assert!(matches!(
        into_engine(&ScalarShape::Decimal { scale: 3 }, &ArrowType::Decimal128(10, 2)),
        Err(ConversionRefusal::ScaleMismatch)
    ));
    assert!(matches!(into_engine(&ScalarShape::Time, &ArrowType::Time32(TimeUnit::Microsecond)), Err(ConversionRefusal::Unsupported)));
    assert!(matches!(into_engine(&ScalarShape::Other, &ArrowType::Utf8), Err(ConversionRefusal::Unsupported)));
}

#[test]
fn time_of_day_in_units() {
    let t = NaiveTime::from_hms_nano_opt(1, 2, 3, 456_789_123).unwrap();
    assert_eq!(time32_value(&t, TimeUnit::Second), 3723);
    assert_eq!(time32_value(&t, TimeUnit::Millisecond), 3_723_456);
    assert_eq!(time64_value(&t, TimeUnit::Microsecond), 3_723_456_789);
    assert_eq!(time64_value(&t, TimeUnit::Nanosecond), 3_723_456_789_123);
}
