use std::collections::HashSet;

use glaredb_pg::arrow::ArrowType;
use glaredb_pg::builtins::{
    BuiltinDatabase, BuiltinSchema, BuiltinTable, BuiltinView, ColumnKind, DEFAULT_CATALOG,
    FIRST_GLAREDB_BUILTIN_ID, FIRST_NON_STATIC_OID, INTERNAL_SCHEMA, POSTGRES_SCHEMA,
};

#[test]
fn builtin_schema_oid_range() {
    let mut oids = HashSet::new();
    for schema in BuiltinSchema::builtins() {
        assert!(schema.oid < FIRST_NON_STATIC_OID);
        assert!(schema.oid > FIRST_GLAREDB_BUILTIN_ID);
        assert!(schema.oid >= 16385);
        assert!(schema.oid <= 16400);
        assert!(oids.insert(schema.oid), "duplicate oid: {}", schema.oid);
    }
}

#[test]
fn builtin_table_oid_range() {
    let mut oids = HashSet::new();
    for schema in BuiltinTable::builtins() {
        assert!(schema.oid < FIRST_NON_STATIC_OID);
        assert!(schema.oid >= FIRST_GLAREDB_BUILTIN_ID);
        assert!(oids.insert(schema.oid), "duplicate oid: {}", schema.oid);
    }
}

#[test]
fn builtin_unique_schema_names() {
    let mut names = HashSet::new();
    for builtin in BuiltinSchema::builtins() {
        assert!(names.insert(builtin.name.to_string()))
    }
}

#[test]
fn builtin_unique_view_names() {
    let mut names = HashSet::new();
    for builtin in BuiltinView::builtins() {
        let name = format!("{}.{}", builtin.schema, builtin.name);
        assert!(names.insert(name.clone()), "duplicate name: {}", name);
    }
}

#[test]
fn builtin_unique_table_names() {
    let mut names = HashSet::new();
    for builtin in BuiltinTable::builtins() {
        let name = format!("{}.{}", builtin.schema, builtin.name);
        assert!(names.insert(name.clone()), "duplicate name: {}", name);
    }
}

#[test]
fn builtin_database_is_default() {
    let dbs = BuiltinDatabase::builtins();
    assert_eq!(dbs.len(), 1);
    assert_eq!(dbs[0].name, DEFAULT_CATALOG);
    assert_eq!(dbs[0].oid, 16384);
    assert_eq!(FIRST_NON_STATIC_OID, 16500);
}

#[test]
fn builtin_table_matches_and_schema() {
    let tables = BuiltinTable::builtins();
    assert_eq!(tables.len(), 14);
    let views_table = &tables[4];
    assert_eq!(views_table.name, "views");
    assert_eq!(views_table.oid, 16406);
    assert!(views_table.matches(INTERNAL_SCHEMA, "views"));
    assert!(!views_table.matches("public", "views"));
    assert!(!views_table.matches(INTERNAL_SCHEMA, "tables"));

    let functions = tables.iter().find(|t| t.name == "functions").unwrap();
    let fields = functions.arrow_schema();
    assert_eq!(fields.len(), 12);
    assert_eq!(fields[0].name, "oid");
    assert!(matches!(fields[0].data_type, ArrowType::UInt32));
    assert!(!fields[0].nullable);
    assert_eq!(fields[4].name, "parameters");
    match &fields[4].data_type {
        ArrowType::List(item) => {
            assert_eq!(item.name, "item");
            assert!(matches!(item.data_type, ArrowType::Utf8));
            assert!(item.nullable);
        }
        other => panic!("unexpected type {:?}", other),
    }
    assert!(matches!(functions.columns[4].kind, ColumnKind::Utf8List));

    let glare_tables = tables.iter().find(|t| t.name == "tables").unwrap();
    let reltuples = glare_tables.columns.last().unwrap();
    assert_eq!(reltuples.name, "reltuples");
    assert!(matches!(reltuples.kind, ColumnKind::Float64));
    assert!(reltuples.nullable);
}

#[test]
fn builtin_views_cover_pg_catalog() {
    let views = BuiltinView::builtins();
    assert_eq!(views.len(), 68);
    assert_eq!(views[0].name, "external_datasources");
    assert_eq!(views[0].schema, INTERNAL_SCHEMA);
    let pg_type = views.iter().find(|v| v.name == "pg_type").unwrap();
    assert_eq!(pg_type.schema, POSTGRES_SCHEMA);
    assert!(views.iter().any(|v| v.schema == "information_schema" && v.name == "columns"));
    assert!(views[0].sql.contains("FROM glare_catalog.databases"));
}
