use std::collections::HashMap;

use glaredb_pg::format::Format;
use glaredb_pg::handler::check_param_type;
use glaredb_pg::handler::{
    after_error, after_result, all_text_formats, check_param_values, check_single_statement,
    command_tag, ends_failed_transaction, extend_formats, failed_transaction_error,
    is_postgres_noop, param_key, pid_from_bytes, rand_i32, rejects_statement, secret_from_nanos,
    ssl_reply, startup_action, uuid_to_pg_pid, CancelEntry, CancelRegistry, ClientSession,
    ExecuteDecision, ProtocolHandler, ProtocolHandlerConfig, ResultKind, StartupAction,
    StatementBook,
};
use glaredb_pg::messages::{
    DescribeObjectType, ErrorSeverity, FrontendMessage, StartupMessage, TransactionStatus,
};
use glaredb_pg::notice::SqlState;
use glaredb_pg::startup::{
    auth_failure, auth_opening, password_step, peek_step, session_failure, session_identity,
    AuthExpectation, BeginAction, BeginEvent, BeginFlow, BeginStage, PasswordMode, PasswordStep,
    PeekStep,
};
use uuid::Uuid;

#[test]
fn noop_single_statements() {
    assert_eq!(is_postgres_noop("RESET ALL"), Some("RESET"));
    assert_eq!(is_postgres_noop("  discard all ; "), Some("DISCARD ALL"));
    assert_eq!(is_postgres_noop("DISCARD TEMPORARY"), Some("DISCARD TEMP"));
    assert_eq!(is_postgres_noop("discard temp"), Some("DISCARD TEMP"));
    assert_eq!(is_postgres_noop("DISCARD PLANS"), Some("DISCARD PLANS"));
    assert_eq!(is_postgres_noop("DISCARD SEQUENCES"), Some("DISCARD SEQUENCES"));
    assert_eq!(is_postgres_noop("DEALLOCATE ALL"), Some("DEALLOCATE ALL"));
    assert_eq!(is_postgres_noop("UNLISTEN *"), Some("UNLISTEN"));
    assert_eq!(is_postgres_noop("CLOSE ALL"), Some("CLOSE CURSOR ALL"));
}

#[test]
fn noop_asyncpg_reset_sequence() {
    assert_eq!(
        is_postgres_noop("SELECT pg_advisory_unlock_all();\nCLOSE ALL;\nUNLISTEN *;\nRESET ALL;"),
        Some("RESET")
    );
}

#[test]
fn noop_refusals() {
    assert_eq!(is_postgres_noop(""), None);
    assert_eq!(is_postgres_noop(" ; ;"), None);
    assert_eq!(is_postgres_noop("SELECT 1"), None);
    assert_eq!(is_postgres_noop("RESET ALL; SELECT 1"), None);
    assert_eq!(is_postgres_noop("SELECT 1; RESET ALL"), None);
    assert_eq!(is_postgres_noop("RESET ALL -- 'x'"), None);
    assert_eq!(is_postgres_noop("\"reset all\""), None);
    assert_eq!(is_postgres_noop("RESET  ALL"), None);
}

#[test]
fn failed_transaction_keywords() {
    assert!(ends_failed_transaction("ROLLBACK"));
    assert!(ends_failed_transaction("  commit"));
    // The first word runs up to white space, so a trailing `;` stays in it.
    assert!(!ends_failed_transaction("commit;"));
    assert!(ends_failed_transaction(";;End"));
    assert!(ends_failed_transaction("abort work"));
    assert!(ends_failed_transaction("\n RELEASE SAVEPOINT s"));
    assert!(!ends_failed_transaction("SELECT 1"));
    assert!(!ends_failed_transaction(""));
    assert!(!ends_failed_transaction("rollbacks"));
    assert!(ends_failed_transaction("; ROLLBACK"));
}

#[test]
fn formats_extend() {
    assert_eq!(extend_formats(vec![], 3).unwrap(), vec![Format::Text; 3]);
    assert_eq!(extend_formats(vec![Format::Binary], 2).unwrap(), vec![Format::Binary; 2]);
    assert_eq!(
        extend_formats(vec![Format::Binary, Format::Text], 2).unwrap(),
        vec![Format::Binary, Format::Text]
    );
    let err = extend_formats(vec![Format::Binary, Format::Text], 3).unwrap_err();
    assert_eq!(err.code, SqlState::InternalError);
    assert_eq!(err.severity, ErrorSeverity::Error);
    assert_eq!(err.message, "invalid number for format specifiers, got: 2, expected: 3");
    assert_eq!(all_text_formats(4), vec![Format::Text; 4]);
    assert_eq!(all_text_formats(0), vec![]);
}

#[test]
fn param_value_checks() {
    assert_eq!(check_param_values(vec![], 0, 0).unwrap(), vec![]);
    assert_eq!(check_param_values(vec![], 1, 1).unwrap(), vec![Format::Text]);
    let err = check_param_values(vec![], 1, 0).unwrap_err();
    assert_eq!(err.message, "Invalid number of values provided. Expected: 0, got: 1");
    let err = check_param_values(vec![], 0, 1).unwrap_err();
    assert_eq!(err.message, "Invalid number of values provided. Expected: 1, got: 0");
    let err = check_param_values(vec![Format::Text, Format::Text], 3, 3).unwrap_err();
    assert_eq!(err.message, "invalid number for format specifiers, got: 2, expected: 3");
    assert_eq!(param_key(0), "$1");
    assert_eq!(param_key(41), "$42");
}

#[test]
fn pids_are_stable_and_positive() {
    let bytes: Vec<u8> = (0u8..16).collect();
    assert_eq!(pid_from_bytes(&bytes), 184667105);
    assert_eq!(pid_from_bytes(&[]), 1339080641);
    let mut arr = [0u8; 16];
    arr.copy_from_slice(&bytes);
    let id = Uuid::from_bytes(arr);
    assert_eq!(uuid_to_pg_pid(&id), 184667105);
    assert_eq!(uuid_to_pg_pid(&id), uuid_to_pg_pid(&id));
    assert_eq!(secret_from_nanos(12345), 99843529);
    assert!(rand_i32() >= 1);
}

#[test]
fn cancel_registry_routes_requests() {
    let mut reg = CancelRegistry::new();
    reg.register(7, CancelEntry { secret_key: 42, cancelled: false });
    reg.register(8, CancelEntry { secret_key: 1, cancelled: false });
    assert!(!reg.fire(7, 41));
    assert!(!reg.is_cancelled(7));
    assert!(reg.fire(7, 42));
    assert!(reg.is_cancelled(7));
    assert!(!reg.is_cancelled(8));
    reg.deregister(7);
    assert!(!reg.fire(7, 42));
    assert!(!reg.is_cancelled(7));
    assert!(!reg.fire(9, 1));
}

#[test]
fn transaction_status_transitions() {
    let s = after_result(TransactionStatus::Idle, &ResultKind::Begin);
    assert_eq!(s, TransactionStatus::InBlock);
    let s = after_error(s);
    assert_eq!(s, TransactionStatus::Failed);
    assert!(rejects_statement(s, "SELECT 1"));
    assert!(!rejects_statement(s, "ROLLBACK"));
    assert!(!rejects_statement(TransactionStatus::InBlock, "SELECT 1"));
    assert_eq!(after_result(s, &ResultKind::Rollback), TransactionStatus::Idle);
    assert_eq!(after_result(s, &ResultKind::Commit), TransactionStatus::Idle);
    assert_eq!(after_error(TransactionStatus::Idle), TransactionStatus::Idle);
    assert_eq!(after_result(TransactionStatus::InBlock, &ResultKind::Query { num_rows: 1 }), TransactionStatus::InBlock);
    let e = failed_transaction_error();
    assert_eq!(e.code, SqlState::InFailedTransaction);
    assert_eq!(
        e.message,
        "current transaction is aborted, commands ignored until end of transaction block"
    );
}

#[test]
fn command_tags() {
    assert_eq!(command_tag(&ResultKind::Query { num_rows: 3 }).unwrap(), "SELECT 3");
    assert_eq!(command_tag(&ResultKind::InsertSuccess { rows_inserted: 5 }).unwrap(), "INSERT 0 5");
    assert_eq!(command_tag(&ResultKind::DeleteSuccess { deleted_rows: 0 }).unwrap(), "DELETE 0");
    assert_eq!(command_tag(&ResultKind::UpdateSuccess { updated_rows: 12 }).unwrap(), "UPDATE 12");
    assert_eq!(command_tag(&ResultKind::Begin).unwrap(), "BEGIN");
    assert_eq!(command_tag(&ResultKind::SetVariable).unwrap(), "SET");
    assert_eq!(command_tag(&ResultKind::DropTables).unwrap(), "DROP TABLE");
    assert_eq!(
        command_tag(&ResultKind::CreateCredentials).unwrap(),
        "CREATE CREDENTIALS\nDEPRECATION WARNING.USE `CREATE CREDENTIAL`."
    );
    assert!(command_tag(&ResultKind::EmptyQuery).is_none());
}

#[test]
fn startup_actions() {
    assert_eq!(
        startup_action(&StartupMessage::StartupRequest { version: 196608, params: HashMap::new() }, true),
        StartupAction::Begin
    );
    assert_eq!(startup_action(&StartupMessage::SSLRequest { version: 80877103 }, true), StartupAction::AcceptSsl);
    assert_eq!(startup_action(&StartupMessage::SSLRequest { version: 80877103 }, false), StartupAction::RejectSsl);
    assert_eq!(
        startup_action(
            &StartupMessage::CancelRequest { version: 80877102, process_id: 3, secret_key: 4 },
            false
        ),
        StartupAction::Cancel { process_id: 3, secret_key: 4 }
    );
    assert_eq!(ssl_reply(true), b'S');
    assert_eq!(ssl_reply(false), b'N');
}

#[test]
fn statement_book_extended_protocol() {
    let mut book = StatementBook::new();
    book.record_parse("s1", "RESET ALL", Some("RESET"));
    book.record_parse("s2", "ROLLBACK", None);
    book.record_parse("s3", "SELECT 1", None);
    book.record_bind("p1", "s1");
    book.record_bind("p2", "s2");
    book.record_bind("p3", "s3");
    assert!(matches!(
        book.execute_decision("p1", TransactionStatus::Failed),
        ExecuteDecision::Complete(ref t) if t == "RESET"
    ));
    assert!(matches!(book.execute_decision("p2", TransactionStatus::Failed), ExecuteDecision::Run));
    assert!(matches!(book.execute_decision("p3", TransactionStatus::Failed), ExecuteDecision::Refuse));
    assert!(matches!(book.execute_decision("p3", TransactionStatus::InBlock), ExecuteDecision::Run));
    assert!(matches!(book.execute_decision("unknown", TransactionStatus::Failed), ExecuteDecision::Refuse));
    book.record_close(DescribeObjectType::Portal, "p1");
    assert!(matches!(book.execute_decision("p1", TransactionStatus::Idle), ExecuteDecision::Run));
    book.record_close(DescribeObjectType::Statement, "s2");
    assert!(matches!(book.execute_decision("p2", TransactionStatus::Failed), ExecuteDecision::Refuse));
}

#[test]
fn authentication_phase_steps() {
    assert_eq!(auth_opening(PasswordMode::RequireCleartext), (true, AuthExpectation::Password));
    assert_eq!(
        auth_opening(PasswordMode::NoPassword { drop_auth_messages: true }),
        (true, AuthExpectation::DroppableAuthMessage)
    );
    assert_eq!(
        auth_opening(PasswordMode::NoPassword { drop_auth_messages: false }),
        (false, AuthExpectation::Nothing)
    );
    let pw = FrontendMessage::PasswordMessage { password: "secret".to_string() };
    assert_eq!(password_step(Some(&pw)), PasswordStep::Check("secret".to_string()));
    assert_eq!(password_step(Some(&FrontendMessage::Sync)), PasswordStep::Unexpected);
    assert_eq!(password_step(None), PasswordStep::Closed);
    assert_eq!(peek_step(Some(&pw)), PeekStep::Drop);
    assert_eq!(peek_step(Some(&FrontendMessage::Query { sql: "select 1".to_string() })), PeekStep::Keep);
    assert_eq!(peek_step(None), PeekStep::Closed);
    let e = auth_failure("bad password");
    assert_eq!(e.message, "Failed to authenticate: bad password");
    assert_eq!(e.severity, ErrorSeverity::Fatal);
    assert_eq!(session_failure("no storage").message, "failed to open session: no storage");
}

#[test]
fn parse_takes_one_statement() {
    assert!(check_single_statement(0).is_ok());
    assert!(check_single_statement(1).is_ok());
    assert_eq!(check_single_statement(2).unwrap_err().message, "cannot parse multiple statements");
}

#[test]
fn protocol_handler_configuration() {
    let conf = ProtocolHandlerConfig { authenticator: "none", ssl_conf: Some(1u8), integration_testing: true };
    let mut h = ProtocolHandler::new((), conf);
    assert!(h.is_integration_testing_enabled());
    assert!(h.ssl_available(false));
    assert!(!h.ssl_available(true));
    assert!(!h.cancel_registry.fire(1, 1));
    h.cancel_registry.register(1, CancelEntry { secret_key: 1, cancelled: false });
    assert!(h.cancel_registry.fire(1, 1));
    let plain: ProtocolHandler<(), &str, u8> =
        ProtocolHandler::new((), ProtocolHandlerConfig { authenticator: "none", ssl_conf: None, integration_testing: false });
    assert!(!plain.ssl_available(false));
    assert!(!plain.is_integration_testing_enabled());
}

#[test]
fn client_session_tracks_transaction() {
    let mut cs = ClientSession::new("session", "conn");
    assert_eq!(cs.tx_status, TransactionStatus::Idle);
    cs.note_error();
    assert_eq!(cs.tx_status, TransactionStatus::Idle);
    cs.note_result(&ResultKind::Begin);
    assert_eq!(cs.tx_status, TransactionStatus::InBlock);
    cs.note_error();
    assert_eq!(cs.tx_status, TransactionStatus::Failed);
    assert!(matches!(cs.book.execute_decision("", TransactionStatus::Failed), ExecuteDecision::Refuse));
    cs.note_result(&ResultKind::Rollback);
    assert_eq!(cs.tx_status, TransactionStatus::Idle);
}

#[test]
fn session_identity_from_startup_params() {
    let nil = Uuid::nil();
    let id = session_identity(Some("alice"), None, nil, false);
    assert_eq!(id.user_name, "alice");
    assert_eq!(id.database_name, "");
    assert_eq!(id.database_id, nil);
    assert!(!id.is_cloud_instance);

    let text = "550e8400-e29b-41d4-a716-446655440000";
    let parsed: Uuid = text.parse().unwrap();
    let id = session_identity(None, Some(text), nil, true);
    assert_eq!(id.database_id, parsed);
    assert!(!id.is_cloud_instance);
    // Outside integration testing the database name is not read as an id.
    let id = session_identity(None, Some(text), nil, false);
    assert_eq!(id.database_id, nil);

    let id = session_identity(Some("bob"), Some("db"), parsed, true);
    assert_eq!(id.database_id, parsed);
    assert_eq!(id.database_name, "db");
    assert!(id.is_cloud_instance);
}

#[test]
fn begin_flow_with_password() {
    let (f, a) = BeginFlow::start(PasswordMode::RequireCleartext, 42, 7);
    assert!(matches!(a.as_slice(), [BeginAction::AskPassword]));
    let (f, a) = f.step(BeginEvent::Reply(Some(FrontendMessage::PasswordMessage {
        password: "pw".to_string(),
    })));
    assert!(matches!(a.as_slice(), [BeginAction::CheckPassword(p)] if p == "pw"));
    let (f, a) = f.step(BeginEvent::Checked(Ok(())));
    assert!(matches!(a.as_slice(), [BeginAction::AuthenticationOk, BeginAction::OpenSession]));
    let (f, a) = f.step(BeginEvent::Opened(Ok(())));
    assert!(matches!(
        a.as_slice(),
        [
            BeginAction::SendParameters,
            BeginAction::RegisterCancel { process_id: 42, secret_key: 7 },
            BeginAction::SendKeyData { process_id: 42, secret_key: 7 },
            BeginAction::RunSession,
        ]
    ));
    let (f, a) = f.step(BeginEvent::SessionEnded(true));
    assert!(matches!(a.as_slice(), [BeginAction::DeregisterCancel { process_id: 42 }]));
    assert_eq!(f.stage, BeginStage::Ended { ok: true });
}

#[test]
fn begin_flow_failures() {
    // A wrong password ends the connection with a fatal error.
    let (f, _) = BeginFlow::start(PasswordMode::RequireCleartext, 1, 2);
    let (f, _) = f.step(BeginEvent::Reply(Some(FrontendMessage::PasswordMessage {
        password: "x".to_string(),
    })));
    let (f, a) = f.step(BeginEvent::Checked(Err("bad password".to_string())));
    match a.as_slice() {
        [BeginAction::SendError(e)] => {
            assert_eq!(e.severity, ErrorSeverity::Fatal);
            assert_eq!(e.message, "Failed to authenticate: bad password");
        }
        other => panic!("unexpected {other:?}"),
    }
    assert_eq!(f.stage, BeginStage::Ended { ok: false });

    // Another message in place of the password is an error; a closed
    // connection is not.
    let (f, _) = BeginFlow::start(PasswordMode::RequireCleartext, 1, 2);
    let (g, a) = f.step(BeginEvent::Reply(Some(FrontendMessage::Sync)));
    assert!(a.is_empty());
    assert_eq!(g.stage, BeginStage::Ended { ok: false });
    let (g, _) = f.step(BeginEvent::Reply(None));
    assert_eq!(g.stage, BeginStage::Ended { ok: true });

    // Without a password, an authentication message is dropped.
    let (f, a) = BeginFlow::start(PasswordMode::NoPassword { drop_auth_messages: true }, 1, 2);
    assert!(matches!(a.as_slice(), [BeginAction::AskPassword]));
    let (f, a) = f.step(BeginEvent::Reply(Some(FrontendMessage::PasswordMessage {
        password: "x".to_string(),
    })));
    assert!(matches!(
        a.as_slice(),
        [BeginAction::DropMessage, BeginAction::AuthenticationOk, BeginAction::OpenSession]
    ));
    let (f, a) = f.step(BeginEvent::Opened(Err("no engine".to_string())));
    match a.as_slice() {
        [BeginAction::SendError(e)] => assert_eq!(e.message, "failed to open session: no engine"),
        other => panic!("unexpected {other:?}"),
    }
    assert_eq!(f.stage, BeginStage::Ended { ok: false });

    let (f, a) = BeginFlow::start(PasswordMode::NoPassword { drop_auth_messages: false }, 1, 2);
    assert!(matches!(a.as_slice(), [BeginAction::AuthenticationOk, BeginAction::OpenSession]));
    assert_eq!(f.stage, BeginStage::Opening);
}

#[test]
fn decode_params_fail() {
    // Every case fails the count check made before any value is decoded.
    struct TestCase {
        values: Vec<Option<Vec<u8>>>,
        types: Vec<(&'static str, Option<(tokio_postgres::types::Type, glaredb_pg::arrow::ArrowType)>)>,
    }

    let test_cases = vec![
        // Params provided, none expected.
        TestCase { values: vec![Some(vec![49])], types: Vec::new() },
        // No params provided, one expected.
        TestCase {
            values: Vec::new(),
            types: vec![(
                "$1",
                Some((tokio_postgres::types::Type::INT8, glaredb_pg::arrow::ArrowType::Int64)),
            )],
        },
    ];

    for test_case in test_cases {
        let types: HashMap<_, _> =
            test_case.types.into_iter().map(|(k, v)| (k.to_string(), v)).collect();
        check_param_values(Vec::new(), test_case.values.len(), types.len()).unwrap_err();
    }
}

#[test]
fn param_type_checks() {
    let typed: Option<u32> = Some(23);
    assert_eq!(*check_param_type(0, Some(&typed), "{}").unwrap(), 23);
    let err = check_param_type::<u32>(2, None, "{\"$1\": None}").unwrap_err();
    assert_eq!(err.message, "Missing type for param value at index 2, input types: {\"$1\": None}");
    assert_eq!(err.code, SqlState::InternalError);
    assert_eq!(err.severity, ErrorSeverity::Error);
    let untyped: Option<u32> = None;
    let err = check_param_type(0, Some(&untyped), "T").unwrap_err();
    assert_eq!(err.message, "Unknown type at index 0, input types: T");
    let err = check_param_values(vec![Format::Text, Format::Text], 3, 3).unwrap_err();
    assert_eq!(err.severity, ErrorSeverity::Error);
}

#[test]
fn client_session_send_error() {
    let mut cs = ClientSession::new(1u8, 2u8);
    cs.note_result(&ResultKind::Begin);
    let m: glaredb_pg::messages::BackendMessage<()> =
        cs.send_error(glaredb_pg::messages::ErrorResponse::error_internal("x".to_string()));
    assert!(matches!(m, glaredb_pg::messages::BackendMessage::ErrorResponse(ref e) if e.message == "x"));
    assert_eq!(cs.tx_status, TransactionStatus::Failed);
    assert_eq!((cs.conn, cs.session), (2, 1));
}
