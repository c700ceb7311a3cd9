use glaredb_pg::handler::ResultKind;
use glaredb_pg::messages::{DescribeObjectType, ErrorResponse, FrontendMessage, TransactionStatus};
use glaredb_pg::notice::SqlState;
use glaredb_pg::query_flow::{
    describe_replies, session_step, stream_error, DescribeReply, ParseOutcome, QueryAction, QueryEvent, QueryFlow, QueryStage,
    SessionStep,
};

fn ready(a: &[QueryAction]) -> Vec<TransactionStatus> {
    a.iter()
        .filter_map(|x| match x {
            QueryAction::ReadyForQuery(s) => Some(*s),
            _ => None,
        })
        .collect()
}

#[test]
fn simple_query_two_statements() {
    let f = QueryFlow::start(TransactionStatus::Idle);
    let (f, a) = f.step(QueryEvent::Parsed(ParseOutcome::Statements(2)));
    assert!(a.is_empty());
    let (f, a) = f.step(QueryEvent::Statement("BEGIN".to_string()));
    assert!(matches!(a.as_slice(), [QueryAction::Run]));
    let (f, a) = f.step(QueryEvent::Executed(ResultKind::Begin));
    assert!(matches!(a.as_slice(), [QueryAction::SendResult(ResultKind::Begin)]));
    assert_eq!(f.status, TransactionStatus::InBlock);
    let (f, a) = f.step(QueryEvent::Sent);
    assert!(a.is_empty());
    assert_eq!(f.stage, QueryStage::Admitting { left: 1 });
    let (f, _) = f.step(QueryEvent::Statement("SELECT 1".to_string()));
    let (f, _) = f.step(QueryEvent::Executed(ResultKind::Query { num_rows: 1 }));
    let (f, a) = f.step(QueryEvent::Sent);
    assert_eq!(ready(&a), vec![TransactionStatus::InBlock]);
    assert_eq!(f.stage, QueryStage::Done);
    // A finished flow takes nothing more.
    let (g, a) = f.step(QueryEvent::Sent);
    assert!(a.is_empty());
    assert_eq!(g, f);
}

#[test]
fn simple_query_failed_transaction_gate() {
    let f = QueryFlow::start(TransactionStatus::Failed);
    let (f, _) = f.step(QueryEvent::Parsed(ParseOutcome::Statements(2)));
    let (f, a) = f.step(QueryEvent::Statement("SELECT 1".to_string()));
    match a.as_slice() {
        [QueryAction::SendError(e), QueryAction::ReadyForQuery(TransactionStatus::Failed)] => {
            assert_eq!(e.code, SqlState::InFailedTransaction);
            assert_eq!(
                e.message,
                "current transaction is aborted, commands ignored until end of transaction block"
            );
        }
        other => panic!("unexpected replies {other:?}"),
    }
    assert_eq!(f.stage, QueryStage::Done);

    // A ROLLBACK is admitted and the session is idle afterwards.
    let f = QueryFlow::start(TransactionStatus::Failed);
    let (f, _) = f.step(QueryEvent::Parsed(ParseOutcome::Statements(1)));
    let (f, a) = f.step(QueryEvent::Statement("rollback".to_string()));
    assert!(matches!(a.as_slice(), [QueryAction::Run]));
    let (f, _) = f.step(QueryEvent::Executed(ResultKind::Rollback));
    let (_, a) = f.step(QueryEvent::Sent);
    assert_eq!(ready(&a), vec![TransactionStatus::Idle]);
}

#[test]
fn simple_query_errors_noop_and_empty() {
    // An error inside a block fails the transaction.
    let f = QueryFlow::start(TransactionStatus::InBlock);
    let (f, _) = f.step(QueryEvent::Parsed(ParseOutcome::Statements(1)));
    let (f, _) = f.step(QueryEvent::Statement("SELECT x".to_string()));
    let (f, a) = f.step(QueryEvent::Failed(ErrorResponse::error_internal("boom".to_string())));
    assert_eq!(ready(&a), vec![TransactionStatus::Failed]);
    assert_eq!(f.status, TransactionStatus::Failed);

    // A parse error outside a block keeps the state.
    let f = QueryFlow::start(TransactionStatus::Idle);
    let (_, a) = f.step(QueryEvent::Parsed(ParseOutcome::Failed(ErrorResponse::error(
        SqlState::SyntaxError,
        "bad".to_string(),
    ))));
    assert!(matches!(&a[0], QueryAction::SendError(e) if e.code == SqlState::SyntaxError));
    assert_eq!(ready(&a), vec![TransactionStatus::Idle]);

    let f = QueryFlow::start(TransactionStatus::Idle);
    let (_, a) = f.step(QueryEvent::Parsed(ParseOutcome::Noop("RESET".to_string())));
    assert!(matches!(&a[0], QueryAction::CommandComplete(t) if t == "RESET"));
    assert_eq!(a.len(), 2);

    let f = QueryFlow::start(TransactionStatus::Idle);
    let (_, a) = f.step(QueryEvent::Parsed(ParseOutcome::Statements(0)));
    assert!(matches!(a.as_slice(), [QueryAction::EmptyQueryResponse, QueryAction::ReadyForQuery(TransactionStatus::Idle)]));
}

#[test]
fn session_steps_and_stream_errors() {
    assert_eq!(session_step(&FrontendMessage::Sync), SessionStep::Sync);
    assert_eq!(session_step(&FrontendMessage::Terminate), SessionStep::Terminate);
    assert_eq!(
        session_step(&FrontendMessage::Query { sql: "select 1".to_string() }),
        SessionStep::Query
    );
    assert_eq!(
        session_step(&FrontendMessage::PasswordMessage { password: "x".to_string() }),
        SessionStep::Unsupported
    );
    let e = stream_error("Cast error: Cannot cast string 'x' to value of Date32".to_string());
    assert_eq!(e.code, SqlState::InvalidTextRepresentation);
    assert_eq!(e.message, "Cast error: Cannot cast string 'x' to value of Date32");
}

#[test]
fn describe_replies_by_object() {
    assert_eq!(
        describe_replies(DescribeObjectType::Statement, true),
        vec![DescribeReply::ParameterDescription, DescribeReply::RowDescription]
    );
    assert_eq!(
        describe_replies(DescribeObjectType::Statement, false),
        vec![DescribeReply::ParameterDescription, DescribeReply::NoData]
    );
    assert_eq!(describe_replies(DescribeObjectType::Portal, true), vec![DescribeReply::RowDescription]);
    assert_eq!(describe_replies(DescribeObjectType::Portal, false), vec![DescribeReply::NoData]);
}

#[test]
fn error_result_ends_connection_without_reply() {
    let f = QueryFlow::start(TransactionStatus::InBlock);
    let (f, _) = f.step(QueryEvent::Parsed(ParseOutcome::Statements(2)));
    let (f, _) = f.step(QueryEvent::Statement("SELECT 1".to_string()));
    let (f, a) = f.step(QueryEvent::ResultFailed("execution failed".to_string()));
    assert!(matches!(a.as_slice(), [QueryAction::ReturnError(m)] if m == "execution failed"));
    assert_eq!(f.stage, QueryStage::Aborted);
    assert_eq!(f.status, TransactionStatus::InBlock);
    let (g, a) = f.step(QueryEvent::Sent);
    assert!(a.is_empty());
    assert_eq!(g, f);
}

#[test]
fn stream_failure_goes_on_with_next_statement() {
    let f = QueryFlow::start(TransactionStatus::InBlock);
    let (f, _) = f.step(QueryEvent::Parsed(ParseOutcome::Statements(2)));
    let (f, _) = f.step(QueryEvent::Statement("SELECT x".to_string()));
    let (f, _) = f.step(QueryEvent::Executed(ResultKind::Query { num_rows: 0 }));
    let (f, a) = f.step(QueryEvent::StreamFailed("Cast error: bad value".to_string()));
    match a.as_slice() {
        [QueryAction::SendError(e)] => {
            assert_eq!(e.code, SqlState::InvalidTextRepresentation);
            assert_eq!(e.severity, glaredb_pg::messages::ErrorSeverity::Error);
            assert_eq!(e.message, "Cast error: bad value");
        }
        other => panic!("unexpected replies {other:?}"),
    }
    assert_eq!(f.status, TransactionStatus::InBlock);
    assert_eq!(f.stage, QueryStage::Admitting { left: 1 });
    let (f, _) = f.step(QueryEvent::Statement("SELECT 1".to_string()));
    let (f, _) = f.step(QueryEvent::Executed(ResultKind::Query { num_rows: 1 }));
    let (_, a) = f.step(QueryEvent::StreamFailed("boom".to_string()));
    assert_eq!(a.len(), 2);
    assert_eq!(ready(&a), vec![TransactionStatus::InBlock]);
}
