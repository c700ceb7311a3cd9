use glaredb_pg::arrow::{ArrowType, TimeUnit};
use glaredb_pg::pg_functions::{
    CurrentSchemas, CurrentUser, FormatType, FunctionNamespace, HasSchemaPrivilege, PgArrayToString,
    PgBackendPid, PgEncodingToChar, PgGetExpr, PgGetUserById, PgGetViewdef, PgPostmasterStartTime,
    PgRelationSize, PgTableIsVisible, PgTypeIsVisible, PgTypeOidByName, PgVersion, ScalarValue,
    TypeSignature, User, Volatility,
};

fn utf8(v: &ScalarValue) -> Option<String> {
    match v {
        ScalarValue::Utf8(s) => s.clone(),
        other => panic!("not a text: {:?}", other),
    }
}

#[test]
fn pg_get_userbyid_values() {
    let f = PgGetUserById;
    assert_eq!(f.name(), "pg_get_userbyid");
    assert_eq!(utf8(&f.evaluate(&ScalarValue::Int64(Some(10)))), Some("glaredb".to_string()));
    assert_eq!(utf8(&f.evaluate(&ScalarValue::Int32(Some(10)))), Some("glaredb".to_string()));
    assert_eq!(utf8(&f.evaluate(&ScalarValue::Int32(Some(11)))), Some("unknown".to_string()));
    assert_eq!(utf8(&f.evaluate(&ScalarValue::Int64(None))), None);
    assert_eq!(utf8(&f.evaluate(&ScalarValue::Null)), None);
    match f.signature().unwrap().type_signature {
        TypeSignature::OneOf(lists) => {
            assert_eq!(lists.len(), 2);
            assert!(matches!(lists[0][0], ArrowType::Int32));
            assert!(matches!(lists[1][0], ArrowType::Int64));
        }
        other => panic!("unexpected {:?}", other),
    }
    assert!(matches!(f.namespace(), FunctionNamespace::Optional("pg_catalog")));
}

#[test]
fn pg_table_is_visible_values() {
    let f = PgTableIsVisible;
    assert!(matches!(f.evaluate(&ScalarValue::Int64(Some(5))), ScalarValue::Boolean(Some(true))));
    assert!(matches!(f.evaluate(&ScalarValue::Int32(Some(5))), ScalarValue::Boolean(None)));
}

#[test]
fn pg_encoding_to_char_values() {
    let f = PgEncodingToChar;
    assert_eq!(utf8(&f.evaluate(&ScalarValue::Int64(Some(6)))), Some("UTF8".to_string()));
    assert_eq!(utf8(&f.evaluate(&ScalarValue::Int64(Some(0)))), Some(String::new()));
    assert_eq!(utf8(&f.evaluate(&ScalarValue::Utf8(None))), None);
}

#[test]
fn pg_type_oid_by_name_values() {
    let f = PgTypeOidByName;
    assert!(matches!(
        f.evaluate(&ScalarValue::Utf8(Some("Int32".to_string()))),
        ScalarValue::Int32(Some(23))
    ));
    assert!(matches!(
        f.evaluate(&ScalarValue::Utf8(Some("Decimal128(10, 2)".to_string()))),
        ScalarValue::Int32(Some(1700))
    ));
    assert!(matches!(f.evaluate(&ScalarValue::Null), ScalarValue::Int32(Some(25))));
}

#[test]
fn constant_functions() {
    assert!(matches!(HasSchemaPrivilege.value(), ScalarValue::Boolean(Some(true))));
    assert!(matches!(PgBackendPid.value(), ScalarValue::Int32(Some(0))));
    assert!(matches!(PgRelationSize.value(), ScalarValue::Int64(Some(0))));
    assert!(matches!(PgTypeIsVisible.value(), ScalarValue::Boolean(Some(true))));
    assert_eq!(utf8(&PgGetViewdef.value()), Some(String::new()));
    assert!(matches!(FormatType.value(), ScalarValue::Null));
    match PgPostmasterStartTime.value() {
        ScalarValue::TimestampMicrosecond(Some(0), Some(tz)) => assert_eq!(tz, "UTC"),
        other => panic!("unexpected {:?}", other),
    }
    assert!(matches!(
        PgPostmasterStartTime.return_type(),
        ArrowType::Timestamp(TimeUnit::Microsecond, Some(ref z)) if z == "UTC"
    ));
}

#[test]
fn session_variable_functions() {
    assert_eq!(CurrentUser.variable(), "current_user");
    assert!(matches!(CurrentUser.namespace(), FunctionNamespace::Unqualified));
    assert_eq!(User.variable(), "current_user");
    assert_eq!(User.alias(), "user");
    assert_eq!(CurrentSchemas.variable(true), "current_schemas_include_implicit");
    assert_eq!(CurrentSchemas.variable(false), "current_schemas");
}

#[test]
fn other_functions() {
    assert!(PgArrayToString.check_arity(2).is_ok());
    assert!(PgArrayToString.check_arity(3).is_ok());
    assert_eq!(
        PgArrayToString.check_arity(1).unwrap_err(),
        "array_to_string() takes exactly two or three arguments"
    );
    assert!(PgArrayToString.signature().is_none());
    assert!(matches!(PgVersion.namespace(), FunctionNamespace::Required("pg_catalog")));
    assert_eq!(PgVersion.name(), "version");
    let first = PgGetExpr.evaluate(vec![ScalarValue::Utf8(Some("a + 1".to_string())), ScalarValue::Int64(Some(3))]);
    assert_eq!(utf8(&first), Some("a + 1".to_string()));
    assert!(matches!(PgGetExpr.evaluate(vec![]), ScalarValue::Null));
    let sig = PgGetExpr.signature().unwrap();
    assert_eq!(sig.volatility, Volatility::Immutable);
}
