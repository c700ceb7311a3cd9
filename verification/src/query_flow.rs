//! The decisions of a session's message loop: which handler a message goes
//! to, and the simple-query flow as a machine from events to replies.
use vstd::prelude::*;

use crate::handler::{
    after_error, after_result, ends_transaction, failed_transaction_message, rejects_statement,
    status_after_error, status_after_result, failed_transaction_error, ResultKind,
};
use crate::messages::{
    classify, classify_sqlstate, DescribeObjectType, ErrorResponse, ErrorSeverity, FrontendMessage,
    TransactionStatus,
};
use crate::notice::SqlState;
use crate::text::lower_seq;

verus! {

/// The handler that a frontend message goes to in an established session.
#[derive(Debug, Clone, Copy, PartialEq, Eq, Structural)]
pub enum SessionStep {
    Query,
    Parse,
    Bind,
    Describe,
    Execute,
    Close,
    Sync,
    Flush,
    /// End the session.
    Terminate,
    /// Answer `feature not supported` and report ready for the next query.
    Unsupported,
}

/// The handler for a message: each protocol message has its own; a password
/// message outside authentication is not supported.
pub fn session_step(msg: &FrontendMessage) -> (r: SessionStep)
    ensures
        r == match *msg {
            FrontendMessage::Query { .. } => SessionStep::Query,
            FrontendMessage::Parse { .. } => SessionStep::Parse,
            FrontendMessage::Bind { .. } => SessionStep::Bind,
            FrontendMessage::Describe { .. } => SessionStep::Describe,
            FrontendMessage::Execute { .. } => SessionStep::Execute,
            FrontendMessage::Close { .. } => SessionStep::Close,
            FrontendMessage::Sync => SessionStep::Sync,
            FrontendMessage::Flush => SessionStep::Flush,
            FrontendMessage::Terminate => SessionStep::Terminate,
            FrontendMessage::PasswordMessage { .. } => SessionStep::Unsupported,
        },
{
    match msg {
        FrontendMessage::Query { .. } => SessionStep::Query,
        FrontendMessage::Parse { .. } => SessionStep::Parse,
        FrontendMessage::Bind { .. } => SessionStep::Bind,
        FrontendMessage::Describe { .. } => SessionStep::Describe,
        FrontendMessage::Execute { .. } => SessionStep::Execute,
        FrontendMessage::Close { .. } => SessionStep::Close,
        FrontendMessage::Sync => SessionStep::Sync,
        FrontendMessage::Flush => SessionStep::Flush,
        FrontendMessage::Terminate => SessionStep::Terminate,
        FrontendMessage::PasswordMessage { .. } => SessionStep::Unsupported,
    }
}

/// The error sent when rows fail while they stream out: the message, with
/// the code it is classified under.
pub fn stream_error(msg: String) -> (e: ErrorResponse)
    ensures
        e.severity == ErrorSeverity::Error,
        e.code == classify(crate::text::lower_seq(msg@)),
        e.message@ == msg@,
{
    let code = classify_sqlstate(msg.as_str());
    ErrorResponse::error(code, msg)
}

/// A message answering a `Describe`.
#[derive(Debug, Clone, Copy, PartialEq, Eq, Structural)]
pub enum DescribeReply {
    /// The parameter types of a statement (sent empty: parameters are not
    /// described).
    ParameterDescription,
    RowDescription,
    NoData,
}

/// The replies to a `Describe` of a statement or portal that was found: a
/// statement first gets its parameter description; then either the row
/// description of its output fields or `NoData` when it has none.
pub fn describe_replies(object_type: DescribeObjectType, has_fields: bool) -> (r: Vec<DescribeReply>)
    ensures
        r@ == (if object_type == DescribeObjectType::Statement {
            seq![DescribeReply::ParameterDescription]
        } else {
            Seq::empty()
        }) + seq![
            if has_fields {
                DescribeReply::RowDescription
            } else {
                DescribeReply::NoData
            },
        ],
{
    let mut v: Vec<DescribeReply> = Vec::new();
    match object_type {
        DescribeObjectType::Statement => v.push(DescribeReply::ParameterDescription),
        DescribeObjectType::Portal => {},
    }
    if has_fields {
        v.push(DescribeReply::RowDescription);
    } else {
        v.push(DescribeReply::NoData);
    }
    proof {
        let first = if object_type == DescribeObjectType::Statement {
            seq![DescribeReply::ParameterDescription]
        } else {
            Seq::<DescribeReply>::empty()
        };
        assert(v@ =~= first + seq![
            if has_fields {
                DescribeReply::RowDescription
            } else {
                DescribeReply::NoData
            },
        ]);
    }
    v
}

/// How the text of a simple query was read.
#[derive(Debug)]
pub enum ParseOutcome {
    /// The text is not valid; the error to send.
    Failed(ErrorResponse),
    /// A connection-housekeeping command, answered with this tag alone.
    Noop(String),
    /// This many statements, to run in order.
    Statements(usize),
}

/// What happens next in a simple query.
#[derive(Debug)]
pub enum QueryEvent {
    /// The text was read.
    Parsed(ParseOutcome),
    /// The next statement, by its text, before it is run.
    Statement(String),
    /// Preparing, binding, executing or looking up the statement failed.
    Failed(ErrorResponse),
    /// The statement ran and gave this result.
    Executed(ResultKind),
    /// The statement ran and its result is itself an error, with this text.
    ResultFailed(String),
    /// The rows of a query result failed while they streamed out, with this
    /// message; the reply for the result is over.
    StreamFailed(String),
    /// The reply for the result went out.
    Sent,
}

/// What the session sends or does in reply.
#[derive(Debug)]
pub enum QueryAction {
    SendError(ErrorResponse),
    CommandComplete(String),
    EmptyQueryResponse,
    /// Prepare, bind and execute the admitted statement.
    Run,
    /// Send the reply for a result: for a query its row description and
    /// rows, then the result's tag (or an empty-query response).
    SendResult(ResultKind),
    ReadyForQuery(TransactionStatus),
    /// End the connection with this error, sending nothing more.
    ReturnError(String),
}

/// Where a simple query stands.
#[derive(Debug, Clone, Copy, PartialEq, Eq, Structural)]
pub enum QueryStage {
    /// The text has not been read.
    Parsing,
    /// Waiting for the next statement; `left` statements remain.
    Admitting { left: usize },
    /// A statement was admitted and runs.
    Running { left: usize },
    /// The reply for a result is going out.
    Replying { left: usize },
    /// Ready for query was sent; the flow is over.
    Done,
    /// The connection ends with an error; nothing more is sent.
    Aborted,
}

/// A simple query in progress: the transaction state and the stage.
#[derive(Debug, Clone, Copy, PartialEq, Eq, Structural)]
pub struct QueryFlow {
    pub status: TransactionStatus,
    pub stage: QueryStage,
}

/// The abstract form of a reply, for contracts.
pub enum ActionView {
    SendError(ErrorSeverity, SqlState, Seq<char>),
    CommandComplete(Seq<char>),
    EmptyQueryResponse,
    Run,
    SendResult(ResultKind),
    ReadyForQuery(TransactionStatus),
    ReturnError(Seq<char>),
}

impl QueryAction {
    pub open spec fn view_of(&self) -> ActionView {
        match self {
            QueryAction::SendError(e) => ActionView::SendError(e.severity, e.code, e.message@),
            QueryAction::CommandComplete(t) => ActionView::CommandComplete(t@),
            QueryAction::EmptyQueryResponse => ActionView::EmptyQueryResponse,
            QueryAction::Run => ActionView::Run,
            QueryAction::SendResult(k) => ActionView::SendResult(*k),
            QueryAction::ReadyForQuery(s) => ActionView::ReadyForQuery(*s),
            QueryAction::ReturnError(m) => ActionView::ReturnError(m@),
        }
    }
}

/// The replies as abstract values, in order.
pub open spec fn action_views(a: Seq<QueryAction>) -> Seq<ActionView> {
    a.map_values(|x: QueryAction| x.view_of())
}

/// An error reply carries the error as it is: its severity, code and
/// message.
pub open spec fn error_view(e: ErrorResponse) -> ActionView {
    ActionView::SendError(e.severity, e.code, e.message@)
}

/// The reply to rows that failed while they streamed out: an error with the
/// message and the code it is classified under.
pub open spec fn stream_error_view(msg: Seq<char>) -> ActionView {
    ActionView::SendError(ErrorSeverity::Error, classify(lower_seq(msg)), msg)
}

/// The flow once the reply for a result is over: the next statement, or
/// ready for query after the last one.
pub open spec fn after_reply(f: QueryFlow, left: usize) -> (QueryFlow, Seq<ActionView>) {
    if left > 1 {
        (QueryFlow { status: f.status, stage: QueryStage::Admitting { left: (left - 1) as usize } }, seq![])
    } else {
        (
            QueryFlow { status: f.status, stage: QueryStage::Done },
            seq![ActionView::ReadyForQuery(f.status)],
        )
    }
}

/// The flow after an error: the error, then ready for query with the
/// transaction failed if it was in a block.
pub open spec fn fail_with(f: QueryFlow, e: ActionView) -> (QueryFlow, Seq<ActionView>) {
    let s = status_after_error(f.status);
    (QueryFlow { status: s, stage: QueryStage::Done }, seq![e, ActionView::ReadyForQuery(s)])
}

/// The next flow and the replies for an event; an event that does not fit
/// the stage changes nothing and sends nothing.
pub open spec fn query_step(f: QueryFlow, e: QueryEvent) -> (QueryFlow, Seq<ActionView>) {
    match (f.stage, e) {
        (QueryStage::Parsing, QueryEvent::Parsed(ParseOutcome::Failed(err))) => fail_with(
            f,
            error_view(err),
        ),
        (QueryStage::Parsing, QueryEvent::Parsed(ParseOutcome::Noop(tag))) => (
            QueryFlow { status: f.status, stage: QueryStage::Done },
            seq![ActionView::CommandComplete(tag@), ActionView::ReadyForQuery(f.status)],
        ),
        (QueryStage::Parsing, QueryEvent::Parsed(ParseOutcome::Statements(n))) => if n == 0 {
            (
                QueryFlow { status: f.status, stage: QueryStage::Done },
                seq![ActionView::EmptyQueryResponse, ActionView::ReadyForQuery(f.status)],
            )
        } else {
            (QueryFlow { status: f.status, stage: QueryStage::Admitting { left: n } }, seq![])
        },
        (QueryStage::Admitting { left }, QueryEvent::Statement(sql)) => if f.status
            == TransactionStatus::Failed && !ends_transaction(sql@) {
            fail_with(
                f,
                ActionView::SendError(
                    ErrorSeverity::Error,
                    SqlState::InFailedTransaction,
                    failed_transaction_message(),
                ),
            )
        } else {
            (QueryFlow { status: f.status, stage: QueryStage::Running { left } }, seq![ActionView::Run])
        },
        (QueryStage::Running { .. }, QueryEvent::Failed(err)) => fail_with(f, error_view(err)),
        (QueryStage::Replying { .. }, QueryEvent::Failed(err)) => fail_with(f, error_view(err)),
        (QueryStage::Running { left }, QueryEvent::Executed(k)) => (
            QueryFlow { status: status_after_result(f.status, k), stage: QueryStage::Replying { left } },
            seq![ActionView::SendResult(k)],
        ),
        (QueryStage::Running { .. }, QueryEvent::ResultFailed(msg)) => (
            QueryFlow { status: f.status, stage: QueryStage::Aborted },
            seq![ActionView::ReturnError(msg@)],
        ),
        (QueryStage::Replying { left }, QueryEvent::StreamFailed(msg)) => {
            let (g, a) = after_reply(f, left);
            (g, seq![stream_error_view(msg@)] + a)
        },
        (QueryStage::Replying { left }, QueryEvent::Sent) => after_reply(f, left),
        _ => (f, seq![]),
    }
}

impl QueryFlow {
    /// A simple query about to be read, in the given transaction state.
    pub fn start(status: TransactionStatus) -> (f: QueryFlow)
        ensures
            f.status == status,
            f.stage == QueryStage::Parsing,
    {
        QueryFlow { status, stage: QueryStage::Parsing }
    }

    /// The flow after an error: the error and ready-for-query.
    fn fail(self, err: ErrorResponse) -> (r: (QueryFlow, Vec<QueryAction>))
        ensures
            (r.0, action_views(r.1@)) == fail_with(self, error_view(err)),
    {
        let s = after_error(self.status);
        let mut v: Vec<QueryAction> = Vec::new();
        v.push(QueryAction::SendError(err));
        v.push(QueryAction::ReadyForQuery(s));
        assert(action_views(v@) =~= fail_with(self, error_view(err)).1);
        (QueryFlow { status: s, stage: QueryStage::Done }, v)
    }

    /// Once the reply for a result is over: the next flow, with its replies
    /// appended.
    fn reply_over(self, left: usize, v: &mut Vec<QueryAction>) -> (g: QueryFlow)
        ensures
            g == after_reply(self, left).0,
            action_views(final(v)@) == action_views(old(v)@) + after_reply(self, left).1,
    {
        if left > 1 {
            assert(action_views(v@) =~= action_views(v@) + after_reply(self, left).1);
            QueryFlow { status: self.status, stage: QueryStage::Admitting { left: left - 1 } }
        } else {
            let ghost before = v@;
            v.push(QueryAction::ReadyForQuery(self.status));
            assert(action_views(v@) =~= action_views(before) + after_reply(self, left).1);
            QueryFlow { status: self.status, stage: QueryStage::Done }
        }
    }

    /// Takes one event: the next flow, and the replies to send in order.
    pub fn step(self, event: QueryEvent) -> (r: (QueryFlow, Vec<QueryAction>))
        ensures
            (r.0, action_views(r.1@)) == query_step(self, event),
    {
        let ghost e0 = event;
        match (self.stage, event) {
            (QueryStage::Parsing, QueryEvent::Parsed(ParseOutcome::Failed(err))) => self.fail(err),
            (QueryStage::Parsing, QueryEvent::Parsed(ParseOutcome::Noop(tag))) => {
                let mut v: Vec<QueryAction> = Vec::new();
                v.push(QueryAction::CommandComplete(tag));
                v.push(QueryAction::ReadyForQuery(self.status));
                let r = (QueryFlow { status: self.status, stage: QueryStage::Done }, v);
                assert(action_views(r.1@) =~= query_step(self, e0).1);
                r
            },
            (QueryStage::Parsing, QueryEvent::Parsed(ParseOutcome::Statements(n))) => {
                if n == 0 {
                    let mut v: Vec<QueryAction> = Vec::new();
                    v.push(QueryAction::EmptyQueryResponse);
                    v.push(QueryAction::ReadyForQuery(self.status));
                    let r = (QueryFlow { status: self.status, stage: QueryStage::Done }, v);
                    assert(action_views(r.1@) =~= query_step(self, e0).1);
                    r
                } else {
                    let v: Vec<QueryAction> = Vec::new();
                    let r = (QueryFlow { status: self.status, stage: QueryStage::Admitting { left: n } }, v);
                    assert(action_views(r.1@) =~= query_step(self, e0).1);
                    r
                }
            },
            (QueryStage::Admitting { left }, QueryEvent::Statement(sql)) => {
                if rejects_statement(self.status, sql.as_str()) {
                    let e = failed_transaction_error();
                    self.fail(e)
                } else {
                    let mut v: Vec<QueryAction> = Vec::new();
                    v.push(QueryAction::Run);
                    let r = (QueryFlow { status: self.status, stage: QueryStage::Running { left } }, v);
                    assert(action_views(r.1@) =~= query_step(self, e0).1);
                    r
                }
            },
            (QueryStage::Running { .. }, QueryEvent::Failed(err)) => self.fail(err),
            (QueryStage::Replying { .. }, QueryEvent::Failed(err)) => self.fail(err),
            (QueryStage::Running { left }, QueryEvent::Executed(k)) => {
                let s = after_result(self.status, &k);
                let mut v: Vec<QueryAction> = Vec::new();
                v.push(QueryAction::SendResult(k));
                let r = (QueryFlow { status: s, stage: QueryStage::Replying { left } }, v);
                assert(action_views(r.1@) =~= query_step(self, e0).1);
                r
            },
            (QueryStage::Running { .. }, QueryEvent::ResultFailed(msg)) => {
                let mut v: Vec<QueryAction> = Vec::new();
                v.push(QueryAction::ReturnError(msg));
                let r = (QueryFlow { status: self.status, stage: QueryStage::Aborted }, v);
                assert(action_views(r.1@) =~= query_step(self, e0).1);
                r
            },
            (QueryStage::Replying { left }, QueryEvent::StreamFailed(msg)) => {
                let mut v: Vec<QueryAction> = Vec::new();
                v.push(QueryAction::SendError(stream_error(msg)));
                let g = self.reply_over(left, &mut v);
                assert(action_views(v@) =~= query_step(self, e0).1);
                (g, v)
            },
            (QueryStage::Replying { left }, QueryEvent::Sent) => {
                let mut v: Vec<QueryAction> = Vec::new();
                let g = self.reply_over(left, &mut v);
                assert(action_views(v@) =~= query_step(self, e0).1);
                (g, v)
            },
            _ => {
                let v: Vec<QueryAction> = Vec::new();
                let r = (self, v);
                assert(action_views(r.1@) =~= query_step(self, e0).1);
                r
            },
        }
    }
}

/// Whether a reply is a ready-for-query.
pub open spec fn is_ready(a: ActionView) -> bool {
    a is ReadyForQuery
}

/// A simple query reports ready for query at most once, as its last reply:
/// a step that ends the flow normally sends it last and only then, any other
/// step (one that aborts the connection among them) never sends it, and a
/// finished or aborted flow takes no event.
pub proof fn lemma_ready_for_query_once(f: QueryFlow, e: QueryEvent)
    ensures
        ({
            let (g, a) = query_step(f, e);
            &&& (f.stage == QueryStage::Done || f.stage == QueryStage::Aborted) ==> g == f && a.len()
                == 0
            &&& (f.stage != QueryStage::Done && g.stage == QueryStage::Done) ==> a.len() >= 1
                && a.last() == ActionView::ReadyForQuery(g.status) && forall|i: int|
                0 <= i < a.len() - 1 ==> !is_ready(#[trigger] a[i])
            &&& g.stage != QueryStage::Done ==> forall|i: int| 0 <= i < a.len() ==> !is_ready(#[trigger] a[i])
        }),
{
}

/// In a failed transaction a statement that does not end it is refused:
/// the client gets the `in failed transaction` error and ready for query
/// with the transaction still failed.
pub proof fn lemma_failed_transaction_refuses(left: usize, sql: String)
    requires
        !ends_transaction(sql@),
    ensures
        query_step(
            QueryFlow { status: TransactionStatus::Failed, stage: QueryStage::Admitting { left } },
            QueryEvent::Statement(sql),
        ) == (
            QueryFlow { status: TransactionStatus::Failed, stage: QueryStage::Done },
            seq![
                ActionView::SendError(
                    ErrorSeverity::Error,
                    SqlState::InFailedTransaction,
                    failed_transaction_message(),
                ),
                ActionView::ReadyForQuery(TransactionStatus::Failed),
            ],
        ),
{
}

/// An error while a statement of a transaction block runs fails the
/// transaction: ready for query then reports the failed state.
pub proof fn lemma_error_in_block_fails(stage: QueryStage, err: ErrorResponse)
    requires
        stage is Running || stage is Replying,
    ensures
        query_step(QueryFlow { status: TransactionStatus::InBlock, stage }, QueryEvent::Failed(err))
            == (
            QueryFlow { status: TransactionStatus::Failed, stage: QueryStage::Done },
            seq![error_view(err), ActionView::ReadyForQuery(TransactionStatus::Failed)],
        ),
{
}

/// `BEGIN` as the last statement leaves the session in a transaction block,
/// which ready for query reports; `COMMIT` and `ROLLBACK` report idle.
pub proof fn lemma_ready_reports_transaction(s: TransactionStatus, k: ResultKind)
    requires
        k == ResultKind::Begin || k == ResultKind::Commit || k == ResultKind::Rollback,
    ensures
        ({
            let (g, a) = query_step(QueryFlow { status: s, stage: QueryStage::Running { left: 1 } }, QueryEvent::Executed(k));
            let (h, b) = query_step(g, QueryEvent::Sent);
            &&& a == seq![ActionView::SendResult(k)]
            &&& h.stage == QueryStage::Done
            &&& b == seq![ActionView::ReadyForQuery(
                if k == ResultKind::Begin { TransactionStatus::InBlock } else { TransactionStatus::Idle },
            )]
        }),
{
}

/// A result that is itself an error ends the connection with that error:
/// nothing is sent, no error response and no ready for query, and the
/// transaction state is kept.
pub proof fn lemma_error_result_aborts(f: QueryFlow, left: usize, msg: String)
    requires
        f.stage == (QueryStage::Running { left }),
    ensures
        query_step(f, QueryEvent::ResultFailed(msg)) == (
            QueryFlow { status: f.status, stage: QueryStage::Aborted },
            seq![ActionView::ReturnError(msg@)],
        ),
{
}

/// Rows that fail while they stream out are answered with the classified
/// error, the transaction state is kept, and the query goes on with its next
/// statement (or ends with ready for query after the last).
pub proof fn lemma_stream_failure_goes_on(f: QueryFlow, left: usize, msg: String)
    requires
        f.stage == (QueryStage::Replying { left }),
    ensures
        ({
            let (g, a) = query_step(f, QueryEvent::StreamFailed(msg));
            let (h, b) = query_step(f, QueryEvent::Sent);
            &&& g == h
            &&& g.status == f.status
            &&& a == seq![stream_error_view(msg@)] + b
        }),
{
}

} // verus!
