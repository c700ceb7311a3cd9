use glaredb_pg::format::Format;
use glaredb_pg::messages::{
    classify_sqlstate, BackendMessage, DescribeObjectType, ErrorResponse, ErrorSeverity, FieldDescriptionBuilder,
    FrontendMessage, SrvError,
};
use glaredb_pg::notice::{Notice, NoticeSeverity, SqlState};
use tokio_postgres::types::Type;

#[test]
fn classify_common_errors() {
    assert_eq!(
        classify_sqlstate("Cast error: Cannot cast string 'x' to value of Date32"),
        SqlState::InvalidTextRepresentation
    );
    assert_eq!(classify_sqlstate("Error: table not found: foo"), SqlState::UndefinedTable);
    assert_eq!(classify_sqlstate("Relation \"x\" Does Not Exist"), SqlState::UndefinedTable);
    assert_eq!(classify_sqlstate("Schema error: No field named y"), SqlState::UndefinedColumn);
    assert_eq!(classify_sqlstate("query canceled by user"), SqlState::QueryCanceled);
    assert_eq!(
        classify_sqlstate("Execution error: LIKE does not support escape_char"),
        SqlState::FeatureNotSupported
    );
    assert_eq!(classify_sqlstate("object already exists"), SqlState::DuplicateTable);
    assert_eq!(classify_sqlstate("something odd happened"), SqlState::InternalError);
}

#[test]
fn error_response_constructors() {
    let e = ErrorResponse::fatal_internal("boom".to_string());
    assert_eq!(e.severity, ErrorSeverity::Fatal);
    assert_eq!(e.code, SqlState::InternalError);
    assert_eq!(e.severity.as_str(), "FATAL");
    let f = ErrorResponse::feature_not_supported("nope".to_string());
    assert_eq!(f.code, SqlState::FeatureNotSupported);
    let m = ErrorResponse::from_message("Column not found: a".to_string());
    assert_eq!(m.code, SqlState::UndefinedColumn);
    assert_eq!(m.message, "Column not found: a");
}

#[test]
fn describe_object_type_bytes() {
    assert_eq!(DescribeObjectType::try_from_byte(b'S').unwrap(), DescribeObjectType::Statement);
    assert_eq!(DescribeObjectType::try_from_byte(b'P').unwrap(), DescribeObjectType::Portal);
    assert_eq!(
        DescribeObjectType::try_from_byte(b'X').unwrap_err(),
        SrvError::UnexpectedDescribeObjectType(b'X')
    );
    assert_eq!(DescribeObjectType::Statement.as_byte(), b'S');
    assert_eq!(DescribeObjectType::Portal.display_name(), "Portal");
}

#[test]
fn frontend_message_names() {
    assert_eq!(FrontendMessage::Query { sql: "select 1".to_string() }.name(), "query");
    assert_eq!(FrontendMessage::Sync.name(), "sync");
    assert!(FrontendMessage::PasswordMessage { password: "x".to_string() }.is_auth_message());
    assert!(!FrontendMessage::Terminate.is_auth_message());
}

#[test]
fn field_description_builder() {
    let int4 = Type::INT4;
    let d = FieldDescriptionBuilder::new("n".to_string())
        .with_type(&int4)
        .with_format(Format::Binary)
        .build()
        .unwrap();
    assert_eq!(d.name, "n");
    assert_eq!(d.type_oid, 23);
    assert_eq!(d.format, 1);
    assert_eq!(d.table_id, 0);
    let err = FieldDescriptionBuilder::new("m".to_string()).build().unwrap_err();
    assert_eq!(
        err,
        SrvError::Internal("type cannot be `None` in field description".to_string())
    );
    let t = FieldDescriptionBuilder::new("t".to_string())
        .with_type(&int4)
        .build()
        .unwrap();
    assert_eq!(t.format, 0);
    // Any wire type of the client library can be described, by its OID.
    let d = FieldDescriptionBuilder::new("j".to_string()).with_type(&Type::JSONB).build().unwrap();
    assert_eq!(d.type_oid, 3802);
}

#[test]
fn backend_message_from_error_and_notice() {
    let m: BackendMessage<()> = ErrorResponse::error_internal("boom".to_string()).into();
    match m {
        BackendMessage::ErrorResponse(e) => {
            assert_eq!(e.message, "boom");
            assert_eq!(e.code, SqlState::InternalError);
        }
        _ => panic!("expected an error response"),
    }
    let m: BackendMessage<()> = Notice::warning("careful".to_string()).into();
    match m {
        BackendMessage::NoticeResponse(n) => {
            assert_eq!(n.message, "careful");
            assert_eq!(n.severity, NoticeSeverity::Warning);
        }
        _ => panic!("expected a notice response"),
    }
}

#[test]
fn describe_object_type_try_from() {
    assert_eq!(DescribeObjectType::try_from(b'S'), Ok(DescribeObjectType::Statement));
    assert_eq!(DescribeObjectType::try_from(b'P'), Ok(DescribeObjectType::Portal));
    assert_eq!(
        DescribeObjectType::try_from(b'X'),
        Err(SrvError::UnexpectedDescribeObjectType(b'X'))
    );
}
