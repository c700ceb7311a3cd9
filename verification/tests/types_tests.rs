use glaredb_pg::delta::{delta_schema_fields, delta_to_arrow, DeltaField, DeltaPrimitive, DeltaType};
use glaredb_pg::arrow::{ArrowType, Field, TimeUnit};
use glaredb_pg::types::arrow_to_pg_type;
use tokio_postgres::types::Type as PgType;

#[test]
fn type_hint_wins() {
    let t = arrow_to_pg_type(&ArrowType::Int32, Some(PgType::OID));
    assert_eq!(t, PgType::OID);
}

#[test]
fn primitives_round_trip() {
    assert_eq!(arrow_to_pg_type(&ArrowType::Boolean, None), PgType::BOOL);
    assert_eq!(arrow_to_pg_type(&ArrowType::Int32, None), PgType::INT4);
    assert_eq!(arrow_to_pg_type(&ArrowType::Int64, None), PgType::INT8);
    assert_eq!(arrow_to_pg_type(&ArrowType::Float64, None), PgType::FLOAT8);
    assert_eq!(arrow_to_pg_type(&ArrowType::Utf8, None), PgType::TEXT);
    assert_eq!(arrow_to_pg_type(&ArrowType::Binary, None), PgType::BYTEA);
    assert_eq!(arrow_to_pg_type(&ArrowType::Date32, None), PgType::DATE);
}

#[test]
fn decimal_maps_to_numeric() {
    assert_eq!(arrow_to_pg_type(&ArrowType::Decimal128(10, 2), None), PgType::NUMERIC);
    assert_eq!(arrow_to_pg_type(&ArrowType::Decimal256(38, 9), None), PgType::NUMERIC);
}

#[test]
fn timestamps_distinguish_tz() {
    assert_eq!(
        arrow_to_pg_type(&ArrowType::Timestamp(TimeUnit::Microsecond, None), None),
        PgType::TIMESTAMP
    );
    assert_eq!(
        arrow_to_pg_type(
            &ArrowType::Timestamp(TimeUnit::Microsecond, Some("UTC".into())),
            None
        ),
        PgType::TIMESTAMPTZ
    );
}

#[test]
fn lists_announce_as_json_to_match_wire() {
    let int_list = ArrowType::List(Box::new(Field {
        name: "item".to_string(),
        data_type: ArrowType::Int32,
        nullable: true,
    }));
    assert_eq!(arrow_to_pg_type(&int_list, None), PgType::JSON);
}

#[test]
fn nested_announce_as_json_for_dbeaver() {
    let s = ArrowType::Struct(vec![Field {
        name: "a".to_string(),
        data_type: ArrowType::Int32,
        nullable: true,
    }]);
    assert_eq!(arrow_to_pg_type(&s, None), PgType::JSON);
}

#[test]
fn test_get_timezone() {
    let tz = glaredb_pg::timezone::get_timezone("+00:00");
    assert_eq!(chrono_tz::UTC, tz);
}

#[test]
fn get_timezone_by_name() {
    let tz = glaredb_pg::timezone::get_timezone("Australia/Melbourne");
    assert_eq!(tz, chrono_tz::Australia::Melbourne);
    assert_eq!(glaredb_pg::timezone::get_timezone("utc"), chrono_tz::UTC);
}

#[test]
fn delta_columns_announce_arrow_types() {
    assert!(matches!(delta_to_arrow(DeltaType::Primitive(DeltaPrimitive::Long)), ArrowType::Int64));
    assert!(matches!(
        delta_to_arrow(DeltaType::Primitive(DeltaPrimitive::Timestamp)),
        ArrowType::Timestamp(TimeUnit::Microsecond, Some(z)) if z == "UTC"
    ));
    assert!(matches!(
        delta_to_arrow(DeltaType::Primitive(DeltaPrimitive::TimestampNtz)),
        ArrowType::Timestamp(TimeUnit::Microsecond, None)
    ));
    assert!(matches!(
        delta_to_arrow(DeltaType::Primitive(DeltaPrimitive::Decimal(10, 2))),
        ArrowType::Decimal128(10, 2)
    ));
    assert!(matches!(delta_to_arrow(DeltaType::MapType), ArrowType::Utf8));

    let cols = vec![
        DeltaField { name: "id".to_string(), data_type: DeltaType::Primitive(DeltaPrimitive::Integer), nullable: false },
        DeltaField { name: "tags".to_string(), data_type: DeltaType::Array, nullable: true },
    ];
    let fields = delta_schema_fields(&cols);
    assert_eq!(fields.len(), 2);
    assert_eq!(fields[0].name, "id");
    assert!(matches!(fields[0].data_type, ArrowType::Int32));
    assert!(!fields[0].nullable);
    assert!(matches!(fields[1].data_type, ArrowType::Utf8));
    assert!(fields[1].nullable);
}
