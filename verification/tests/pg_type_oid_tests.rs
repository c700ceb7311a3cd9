use std::collections::HashSet;

use glaredb_pg::arrow::{ArrowType, Field, TimeUnit};
use glaredb_pg::pg_type_oid::{
    arrow_name_to_pg_oid, arrow_to_pg_oid, arrow_to_pg_type_info, pg_type_by_name, pg_type_by_oid,
    pg_types, split_top_level_comma,
};

fn field(name: &str, data_type: ArrowType, nullable: bool) -> Field {
    Field {
        name: name.to_string(),
        data_type,
        nullable,
    }
}

#[test]
fn no_duplicate_oids() {
    let mut seen = HashSet::new();
    for t in pg_types() {
        assert!(seen.insert(t.oid), "duplicate oid: {} ({})", t.oid, t.name);
    }
}

#[test]
fn no_duplicate_names() {
    let mut seen = HashSet::new();
    for t in pg_types() {
        assert!(seen.insert(t.name), "duplicate name: {}", t.name);
    }
}

#[test]
fn array_back_references_resolve() {
    // Every `_X` row's typelem must point at an existing scalar row.
    for t in pg_types().iter().filter(|t| t.name.starts_with('_')) {
        assert!(
            pg_type_by_oid(t.typelem).is_some(),
            "{} has typelem {} which is missing from PG_TYPES",
            t.name,
            t.typelem
        );
    }
}

#[test]
fn scalar_array_pairs_match() {
    // Every scalar that advertises typarray must point at a real array row
    // whose typelem points back.
    for t in pg_types().iter().filter(|t| t.typarray != 0) {
        let arr = pg_type_by_oid(t.typarray).expect("typarray missing");
        assert_eq!(
            arr.typelem, t.oid,
            "{} ↔ {} mismatch (typarray {} vs typelem {})",
            t.name, arr.name, t.typarray, arr.typelem
        );
    }
}

#[test]
fn well_known_oids() {
    assert_eq!(pg_type_by_name("bool").unwrap().oid, 16);
    assert_eq!(pg_type_by_name("int4").unwrap().oid, 23);
    assert_eq!(pg_type_by_name("int8").unwrap().oid, 20);
    assert_eq!(pg_type_by_name("text").unwrap().oid, 25);
    assert_eq!(pg_type_by_name("numeric").unwrap().oid, 1700);
    assert_eq!(pg_type_by_name("json").unwrap().oid, 114);
    assert_eq!(pg_type_by_name("jsonb").unwrap().oid, 3802);
    assert_eq!(pg_type_by_name("uuid").unwrap().oid, 2950);
    assert_eq!(pg_type_by_name("regclass").unwrap().oid, 2205);
}

#[test]
fn arrow_primitive_mappings() {
    assert_eq!(arrow_to_pg_oid(&ArrowType::Boolean), 16);
    assert_eq!(arrow_to_pg_oid(&ArrowType::Int32), 23);
    assert_eq!(arrow_to_pg_oid(&ArrowType::Int64), 20);
    assert_eq!(arrow_to_pg_oid(&ArrowType::Float64), 701);
    assert_eq!(arrow_to_pg_oid(&ArrowType::Utf8), 25);
    assert_eq!(arrow_to_pg_oid(&ArrowType::Binary), 17);
    assert_eq!(arrow_to_pg_oid(&ArrowType::Date32), 1082);
    assert_eq!(
        arrow_to_pg_oid(&ArrowType::Timestamp(TimeUnit::Microsecond, None)),
        1114
    );
    assert_eq!(
        arrow_to_pg_oid(&ArrowType::Timestamp(
            TimeUnit::Microsecond,
            Some("UTC".into())
        )),
        1184
    );
    assert_eq!(arrow_to_pg_oid(&ArrowType::Decimal128(10, 2)), 1700);
    assert_eq!(arrow_to_pg_oid(&ArrowType::Decimal256(10, 2)), 1700);
}

#[test]
fn arrow_list_announces_json_to_match_wire() {
    let int_list = ArrowType::List(Box::new(field("item", ArrowType::Int32, true)));
    assert_eq!(arrow_to_pg_oid(&int_list), 114);

    let ts_list = ArrowType::LargeList(Box::new(field(
        "item",
        ArrowType::Timestamp(TimeUnit::Microsecond, None),
        true,
    )));
    assert_eq!(arrow_to_pg_oid(&ts_list), 114);
}

#[test]
fn arrow_struct_maps_to_json() {
    let s = ArrowType::Struct(vec![field("a", ArrowType::Int32, true)]);
    assert_eq!(arrow_to_pg_oid(&s), 114); // json
}

#[test]
fn arrow_name_to_pg_oid_basic() {
    assert_eq!(arrow_name_to_pg_oid("Int32"), 23);
    assert_eq!(arrow_name_to_pg_oid("Utf8"), 25);
    assert_eq!(arrow_name_to_pg_oid("Decimal128(10, 2)"), 1700);
    assert_eq!(arrow_name_to_pg_oid("Timestamp(Microsecond, None)"), 1114);
    assert_eq!(
        arrow_name_to_pg_oid("Timestamp(Microsecond, Some(\"UTC\"))"),
        1184
    );
    assert_eq!(arrow_name_to_pg_oid("List<Int32>"), 114);
    assert_eq!(arrow_name_to_pg_oid("Struct"), 114);
    assert_eq!(arrow_name_to_pg_oid("definitely-not-a-type"), 25);
}

#[test]
fn arrow_to_pg_oid_dictionary_recurses_into_value_type() {
    let dict_utf8 = ArrowType::Dictionary(Box::new(ArrowType::UInt16), Box::new(ArrowType::Utf8));
    assert_eq!(arrow_to_pg_oid(&dict_utf8), 25);

    let dict_int = ArrowType::Dictionary(Box::new(ArrowType::Int32), Box::new(ArrowType::Int64));
    assert_eq!(arrow_to_pg_oid(&dict_int), 20);

    let dict_decimal = ArrowType::Dictionary(
        Box::new(ArrowType::Int32),
        Box::new(ArrowType::Decimal128(10, 2)),
    );
    assert_eq!(arrow_to_pg_oid(&dict_decimal), 1700);

    let dict_dict = ArrowType::Dictionary(
        Box::new(ArrowType::UInt8),
        Box::new(ArrowType::Dictionary(
            Box::new(ArrowType::UInt16),
            Box::new(ArrowType::Utf8),
        )),
    );
    assert_eq!(arrow_to_pg_oid(&dict_dict), 25);
}

#[test]
fn arrow_to_pg_oid_run_end_encoded_recurses_into_value_type() {
    let ree_utf8 = ArrowType::RunEndEncoded(
        Box::new(field("run_ends", ArrowType::Int32, false)),
        Box::new(field("values", ArrowType::Utf8, true)),
    );
    assert_eq!(arrow_to_pg_oid(&ree_utf8), 25);
}

#[test]
fn arrow_name_to_pg_oid_dictionary_recurses_into_value_type() {
    assert_eq!(arrow_name_to_pg_oid("Dictionary(UInt16, Utf8)"), 25);
    assert_eq!(arrow_name_to_pg_oid("Dictionary(Int32, Int64)"), 20);
    assert_eq!(
        arrow_name_to_pg_oid("Dictionary(Int32, Decimal128(10, 2))"),
        1700
    );
    assert_eq!(
        arrow_name_to_pg_oid("Dictionary(Int32, Timestamp(Microsecond, None))"),
        1114
    );
    assert_eq!(
        arrow_name_to_pg_oid("Dictionary(UInt8, Dictionary(UInt16, Utf8))"),
        25
    );
    assert_eq!(arrow_name_to_pg_oid("Dictionary"), 114);
    assert_eq!(arrow_name_to_pg_oid("Dictionary(NoCommaInside)"), 114);
}

#[test]
fn split_top_level_comma_walks_paren_depth() {
    assert_eq!(split_top_level_comma("Int32, Utf8"), Some(5));
    assert_eq!(split_top_level_comma("Int32, Decimal128(10, 2)"), Some(5));
    // Comma inside parens does NOT split.
    assert_eq!(split_top_level_comma("Decimal128(10, 2)"), None);
    // No comma at all.
    assert_eq!(split_top_level_comma("Utf8"), None);
}

#[test]
fn pg_type_lookups_agree() {
    let t = pg_type_by_oid(1700).unwrap();
    assert_eq!(t.name, "numeric");
    assert!(!t.is_array());
    let a = pg_type_by_oid(1007).unwrap();
    assert_eq!(a.name, "_int4");
    assert!(a.is_array());
    assert_eq!(a.typelem, 23);
    assert!(pg_type_by_oid(1).is_none());
    assert!(pg_type_by_name("no_such_type").is_none());
    assert_eq!(pg_types().len(), 98);
    let info = arrow_to_pg_type_info(&ArrowType::Int16);
    assert_eq!(info.oid, 21);
    assert_eq!(info.name, "int2");
}

