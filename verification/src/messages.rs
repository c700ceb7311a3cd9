//! Messages of the Postgres frontend/backend protocol and error classification.
use std::collections::HashMap;

use tokio_postgres::types::Type;
use vstd::prelude::*;

use crate::format::Format;
use crate::notice::{Notice, SqlState};
use crate::types::{type_oid, wire_type_oid};
use crate::text::{chars_of, contains_chars, lower_chars, lower_seq, seq_contains};

verus! {

/// Version number (v3.0) used during normal frontend startup.
pub const VERSION_V3: i32 = 196608;

/// Version number used to request a cancellation: `(1234 << 16) ^ 5678`.
pub const VERSION_CANCEL: i32 = 80877102;

/// Version number used to request an SSL connection: `(1234 << 16) ^ 5679`.
pub const VERSION_SSL: i32 = 80877103;

/// Errors of the protocol server.
#[derive(Debug, Clone, PartialEq, Eq)]
pub enum SrvError {
    /// A `Describe` or `Close` named an object type other than 'S' or 'P'.
    UnexpectedDescribeObjectType(u8),
    /// An internal invariant did not hold; the message says which.
    Internal(String),
}

/// Messages sent by the frontend during connection startup.
#[derive(Debug)]
pub enum StartupMessage {
    SSLRequest { version: i32 },
    /// Cancel request carrying the key pair sent in `BackendKeyData`.
    CancelRequest { version: i32, process_id: i32, secret_key: i32 },
    StartupRequest { version: i32, params: HashMap<String, String> },
}

/// The kind of object a `Describe` or `Close` refers to.
#[derive(Debug, Clone, Copy, PartialEq, Eq, Structural)]
pub enum DescribeObjectType {
    Statement,
    Portal,
}

impl DescribeObjectType {
    /// The byte that names this kind on the wire.
    pub open spec fn spec_byte(self) -> u8 {
        match self {
            DescribeObjectType::Statement => 83,
            DescribeObjectType::Portal => 80,
        }
    }

    pub fn as_byte(self) -> (r: u8)
        ensures
            r == self.spec_byte(),
    {
        match self {
            DescribeObjectType::Statement => 83,
            DescribeObjectType::Portal => 80,
        }
    }

    /// Reads the kind from its wire byte ('S' or 'P').
    pub fn try_from_byte(value: u8) -> (r: Result<DescribeObjectType, SrvError>)
        ensures
            value == 83 ==> r == Ok::<DescribeObjectType, SrvError>(DescribeObjectType::Statement),
            value == 80 ==> r == Ok::<DescribeObjectType, SrvError>(DescribeObjectType::Portal),
            value != 83 && value != 80 ==> r == Err::<DescribeObjectType, SrvError>(
                SrvError::UnexpectedDescribeObjectType(value),
            ),
    {
        if value == 83u8 {
            Ok(DescribeObjectType::Statement)
        } else if value == 80u8 {
            Ok(DescribeObjectType::Portal)
        } else {
            Err(SrvError::UnexpectedDescribeObjectType(value))
        }
    }

    /// The name used when the kind is displayed.
    pub fn display_name(self) -> (r: &'static str)
        ensures
            self == DescribeObjectType::Statement ==> r@ == "Statement"@,
            self == DescribeObjectType::Portal ==> r@ == "Portal"@,
    {
        match self {
            DescribeObjectType::Statement => "Statement",
            DescribeObjectType::Portal => "Portal",
        }
    }
}

impl TryFrom<u8> for DescribeObjectType {
    type Error = SrvError;

    fn try_from(value: u8) -> (r: Result<DescribeObjectType, SrvError>) {
        DescribeObjectType::try_from_byte(value)
    }
}

impl vstd::std_specs::convert::TryFromSpecImpl<u8> for DescribeObjectType {
    open spec fn obeys_try_from_spec() -> bool {
        true
    }

    open spec fn try_from_spec(v: u8) -> Result<DescribeObjectType, SrvError> {
        if v == 83 {
            Ok(DescribeObjectType::Statement)
        } else if v == 80 {
            Ok(DescribeObjectType::Portal)
        } else {
            Err(SrvError::UnexpectedDescribeObjectType(v))
        }
    }
}

/// Messages sent by the frontend.
#[derive(Debug, Clone)]
pub enum FrontendMessage {
    Query { sql: String },
    PasswordMessage { password: String },
    Parse { name: String, sql: String, param_types: Vec<i32> },
    Bind {
        portal: String,
        statement: String,
        param_formats: Vec<Format>,
        param_values: Vec<Option<Vec<u8>>>,
        result_formats: Vec<Format>,
    },
    Describe { object_type: DescribeObjectType, name: String },
    Execute { portal: String, max_rows: i32 },
    Close { object_type: DescribeObjectType, name: String },
    Sync,
    Flush,
    Terminate,
}

impl FrontendMessage {
    /// The short name of the message kind.
    pub open spec fn spec_name(&self) -> Seq<char> {
        match self {
            FrontendMessage::Query { .. } => "query"@,
            FrontendMessage::PasswordMessage { .. } => "password"@,
            FrontendMessage::Parse { .. } => "parse"@,
            FrontendMessage::Bind { .. } => "bind"@,
            FrontendMessage::Describe { .. } => "describe"@,
            FrontendMessage::Execute { .. } => "execute"@,
            FrontendMessage::Close { .. } => "close"@,
            FrontendMessage::Flush => "flush"@,
            FrontendMessage::Sync => "sync"@,
            FrontendMessage::Terminate => "terminate"@,
        }
    }

    pub fn name(&self) -> (r: &'static str)
        ensures
            r@ == self.spec_name(),
    {
        match self {
            FrontendMessage::Query { .. } => "query",
            FrontendMessage::PasswordMessage { .. } => "password",
            FrontendMessage::Parse { .. } => "parse",
            FrontendMessage::Bind { .. } => "bind",
            FrontendMessage::Describe { .. } => "describe",
            FrontendMessage::Execute { .. } => "execute",
            FrontendMessage::Close { .. } => "close",
            FrontendMessage::Flush => "flush",
            FrontendMessage::Sync => "sync",
            FrontendMessage::Terminate => "terminate",
        }
    }

    pub fn is_auth_message(&self) -> (r: bool)
        ensures
            r == (self is PasswordMessage),
    {
        match self {
            FrontendMessage::PasswordMessage { .. } => true,
            _ => false,
        }
    }
}

/// Transaction state reported in every `ReadyForQuery`.
#[derive(Debug, Clone, Copy, PartialEq, Eq, Structural)]
pub enum TransactionStatus {
    Idle,
    InBlock,
    Failed,
}

#[derive(Debug, Clone, Copy, PartialEq, Eq, Structural)]
pub enum ErrorSeverity {
    Error,
    Fatal,
    Panic,
}

impl ErrorSeverity {
    pub open spec fn spec_name(self) -> Seq<char> {
        match self {
            ErrorSeverity::Error => "ERROR"@,
            ErrorSeverity::Fatal => "FATAL"@,
            ErrorSeverity::Panic => "PANIC"@,
        }
    }

    pub fn as_str(&self) -> (r: &'static str)
        ensures
            r@ == self.spec_name(),
    {
        match self {
            ErrorSeverity::Error => "ERROR",
            ErrorSeverity::Fatal => "FATAL",
            ErrorSeverity::Panic => "PANIC",
        }
    }
}

#[derive(Debug)]
pub struct ErrorResponse {
    pub severity: ErrorSeverity,
    pub code: SqlState,
    pub message: String,
}

impl ErrorResponse {
    pub fn error(code: SqlState, msg: String) -> (r: ErrorResponse)
        ensures
            r.severity == ErrorSeverity::Error,
            r.code == code,
            r.message@ == msg@,
    {
        ErrorResponse { severity: ErrorSeverity::Error, code, message: msg }
    }

    pub fn feature_not_supported(msg: String) -> (r: ErrorResponse)
        ensures
            r.severity == ErrorSeverity::Error,
            r.code == SqlState::FeatureNotSupported,
            r.message@ == msg@,
    {
        Self::error(SqlState::FeatureNotSupported, msg)
    }

    pub fn error_internal(msg: String) -> (r: ErrorResponse)
        ensures
            r.severity == ErrorSeverity::Error,
            r.code == SqlState::InternalError,
            r.message@ == msg@,
    {
        Self::error(SqlState::InternalError, msg)
    }

    pub fn fatal_internal(msg: String) -> (r: ErrorResponse)
        ensures
            r.severity == ErrorSeverity::Fatal,
            r.code == SqlState::InternalError,
            r.message@ == msg@,
    {
        ErrorResponse { severity: ErrorSeverity::Fatal, code: SqlState::InternalError, message: msg }
    }

    /// An error response for an error message, with the code picked by
    /// [`classify_sqlstate`].
    pub fn from_message(msg: String) -> (r: ErrorResponse)
        ensures
            r.severity == ErrorSeverity::Error,
            r.code == classify(lower_seq(msg@)),
            r.message@ == msg@,
    {
        let code = classify_sqlstate(msg.as_str());
        Self::error(code, msg)
    }
}

/// Whether the lower-cased message `l` holds the text `p`.
pub open spec fn has(l: Seq<char>, p: &str) -> bool {
    seq_contains(l, p@)
}

/// The SQLSTATE picked for a lower-cased error message: the first rule that
/// matches wins, and `InternalError` is kept when none does.
pub open spec fn classify(l: Seq<char>) -> SqlState {
    if has(l, "cast error") || (has(l, "cannot cast") && has(l, " to ")) {
        SqlState::InvalidTextRepresentation
    } else if has(l, "table not found") || has(l, "relation not found") || has(
        l,
        "table or view not found",
    ) || (has(l, "does not exist") && (has(l, "table") || has(l, "relation") || has(l, "view")))
        || has(l, "no table named") || has(l, "missing builtin table") || has(
        l,
        "unable to fetch table provider",
    ) {
        SqlState::UndefinedTable
    } else if has(l, "column not found") || has(l, "no field named") || has(l, "no column") || (
    has(l, "does not exist") && has(l, "column")) {
        SqlState::UndefinedColumn
    } else if has(l, "function not found") || (has(l, "does not exist") && has(l, "function"))
        || has(l, "invalid function") {
        SqlState::UndefinedFunction
    } else if has(l, "database not found") || (has(l, "does not exist") && has(l, "database")) {
        SqlState::DatabaseDoesNotExist
    } else if has(l, "schema not found") || (has(l, "does not exist") && has(l, "schema")) || has(
        l,
        "missing schema",
    ) {
        SqlState::SchemaDoesNotExist
    } else if has(l, "invalid password") || has(l, "authentication failed") {
        SqlState::InvalidPassword
    } else if has(l, "not authorized") || has(l, "authorization") {
        SqlState::InvalidAuth
    } else if has(l, "permission denied") || has(l, "insufficient privilege") {
        SqlState::InsufficientPrivilege
    } else if has(l, "invalid input syntax") || has(l, "could not parse") || has(l, "parse error")
        || has(l, "invalid value for") {
        SqlState::InvalidTextRepresentation
    } else if has(l, "invalid parameter value") {
        SqlState::InvalidParameterValue
    } else if has(l, "query canceled") || has(l, "statement timeout") || has(
        l,
        "execution canceled",
    ) {
        SqlState::QueryCanceled
    } else if has(l, "too many connections") || has(l, "connection limit") {
        SqlState::TooManyConnections
    } else if has(l, "not supported") || has(l, "does not support") || has(l, "unsupported")
        || has(l, "not yet implemented") {
        SqlState::FeatureNotSupported
    } else if has(l, "syntax error") || (has(l, "expected") && has(l, "found")) {
        SqlState::SyntaxError
    } else if has(l, "already exists") || (has(l, "catalog error") && has(l, "failed to create")
        && (has(l, "schema") || has(l, "table"))) {
        SqlState::DuplicateTable
    } else {
        SqlState::InternalError
    }
}

/// How many wording rules pick a SQLSTATE.
pub open spec fn rule_count() -> int {
    16
}

/// Whether wording rule `i` matches the lower-cased message `l`. The rules,
/// in order of priority: a failed cast; a missing table, column, function,
/// database or schema; a bad password; a failed authorization; a missing
/// privilege; input that does not parse; a bad parameter value; a canceled
/// query; too many connections; an unsupported feature; a syntax error; an
/// object that already exists.
pub open spec fn rule_matches(l: Seq<char>, i: int) -> bool {
    if i == 0 {
        has(l, "cast error") || (has(l, "cannot cast") && has(l, " to "))
    } else if i == 1 {
        has(l, "table not found") || has(l, "relation not found") || has(l, "table or view not found")
            || (has(l, "does not exist") && (has(l, "table") || has(l, "relation") || has(l, "view")))
            || has(l, "no table named") || has(l, "missing builtin table")
            || has(l, "unable to fetch table provider")
    } else if i == 2 {
        has(l, "column not found") || has(l, "no field named") || has(l, "no column")
            || (has(l, "does not exist") && has(l, "column"))
    } else if i == 3 {
        has(l, "function not found") || (has(l, "does not exist") && has(l, "function"))
            || has(l, "invalid function")
    } else if i == 4 {
        has(l, "database not found") || (has(l, "does not exist") && has(l, "database"))
    } else if i == 5 {
        has(l, "schema not found") || (has(l, "does not exist") && has(l, "schema"))
            || has(l, "missing schema")
    } else if i == 6 {
        has(l, "invalid password") || has(l, "authentication failed")
    } else if i == 7 {
        has(l, "not authorized") || has(l, "authorization")
    } else if i == 8 {
        has(l, "permission denied") || has(l, "insufficient privilege")
    } else if i == 9 {
        has(l, "invalid input syntax") || has(l, "could not parse") || has(l, "parse error")
            || has(l, "invalid value for")
    } else if i == 10 {
        has(l, "invalid parameter value")
    } else if i == 11 {
        has(l, "query canceled") || has(l, "statement timeout") || has(l, "execution canceled")
    } else if i == 12 {
        has(l, "too many connections") || has(l, "connection limit")
    } else if i == 13 {
        has(l, "not supported") || has(l, "does not support") || has(l, "unsupported")
            || has(l, "not yet implemented")
    } else if i == 14 {
        has(l, "syntax error") || (has(l, "expected") && has(l, "found"))
    } else if i == 15 {
        has(l, "already exists") || (has(l, "catalog error") && has(l, "failed to create") && (has(
            l,
            "schema",
        ) || has(l, "table")))
    } else {
        false
    }
}

/// The SQLSTATE that wording rule `i` stands for.
pub open spec fn rule_code(i: int) -> SqlState {
    if i == 0 {
        SqlState::InvalidTextRepresentation
    } else if i == 1 {
        SqlState::UndefinedTable
    } else if i == 2 {
        SqlState::UndefinedColumn
    } else if i == 3 {
        SqlState::UndefinedFunction
    } else if i == 4 {
        SqlState::DatabaseDoesNotExist
    } else if i == 5 {
        SqlState::SchemaDoesNotExist
    } else if i == 6 {
        SqlState::InvalidPassword
    } else if i == 7 {
        SqlState::InvalidAuth
    } else if i == 8 {
        SqlState::InsufficientPrivilege
    } else if i == 9 {
        SqlState::InvalidTextRepresentation
    } else if i == 10 {
        SqlState::InvalidParameterValue
    } else if i == 11 {
        SqlState::QueryCanceled
    } else if i == 12 {
        SqlState::TooManyConnections
    } else if i == 13 {
        SqlState::FeatureNotSupported
    } else if i == 14 {
        SqlState::SyntaxError
    } else if i == 15 {
        SqlState::DuplicateTable
    } else {
        SqlState::InternalError
    }
}

/// The first wording rule that a message matches decides its SQLSTATE: a
/// rule that matches, with no earlier rule matching, gives its own code,
/// whatever later rules would say.
pub proof fn lemma_first_matching_rule_decides(l: Seq<char>, i: int)
    requires
        0 <= i < rule_count(),
        rule_matches(l, i),
        forall|j: int| 0 <= j < i ==> !rule_matches(l, j),
    ensures
        classify(l) == rule_code(i),
{
    if i > 0 {
        assert(!rule_matches(l, 0));
    }
    if i > 1 {
        assert(!rule_matches(l, 1));
    }
    if i > 2 {
        assert(!rule_matches(l, 2));
    }
    if i > 3 {
        assert(!rule_matches(l, 3));
    }
    if i > 4 {
        assert(!rule_matches(l, 4));
    }
    if i > 5 {
        assert(!rule_matches(l, 5));
    }
    if i > 6 {
        assert(!rule_matches(l, 6));
    }
    if i > 7 {
        assert(!rule_matches(l, 7));
    }
    if i > 8 {
        assert(!rule_matches(l, 8));
    }
    if i > 9 {
        assert(!rule_matches(l, 9));
    }
    if i > 10 {
        assert(!rule_matches(l, 10));
    }
    if i > 11 {
        assert(!rule_matches(l, 11));
    }
    if i > 12 {
        assert(!rule_matches(l, 12));
    }
    if i > 13 {
        assert(!rule_matches(l, 13));
    }
    if i > 14 {
        assert(!rule_matches(l, 14));
    }
}

/// A message that matches none of the wording rules is an internal error.
pub proof fn lemma_unmatched_message_is_internal(l: Seq<char>)
    requires
        forall|j: int| 0 <= j < rule_count() ==> !rule_matches(l, j),
    ensures
        classify(l) == SqlState::InternalError,
{
    assert(!rule_matches(l, 0));
    assert(!rule_matches(l, 1));
    assert(!rule_matches(l, 2));
    assert(!rule_matches(l, 3));
    assert(!rule_matches(l, 4));
    assert(!rule_matches(l, 5));
    assert(!rule_matches(l, 6));
    assert(!rule_matches(l, 7));
    assert(!rule_matches(l, 8));
    assert(!rule_matches(l, 9));
    assert(!rule_matches(l, 10));
    assert(!rule_matches(l, 11));
    assert(!rule_matches(l, 12));
    assert(!rule_matches(l, 13));
    assert(!rule_matches(l, 14));
    assert(!rule_matches(l, 15));
}

/// A message that mentions a syntax error, and none of the wordings of the
/// earlier rules, is classified as a syntax error.
pub proof fn lemma_syntax_error_wording(l: Seq<char>)
    requires
        has(l, "syntax error"),
        forall|j: int| 0 <= j < 14 ==> !rule_matches(l, j),
    ensures
        classify(l) == SqlState::SyntaxError,
{
    lemma_first_matching_rule_decides(l, 14);
}

fn holds(l: &[char], p: &str) -> (r: bool)
    ensures
        r == has(l@, p),
{
    let pat = chars_of(p);
    contains_chars(l, pat.as_slice())
}

/// Picks the best-matching SQLSTATE for an error message, matching its
/// ASCII-lower-cased text against known wordings.
pub fn classify_sqlstate(msg: &str) -> (r: SqlState)
    ensures
        r == classify(lower_seq(msg@)),
{
    let raw = chars_of(msg);
    let lv = lower_chars(raw.as_slice());
    let l = lv.as_slice();
    if holds(l, "cast error") || (holds(l, "cannot cast") && holds(l, " to ")) {
        return SqlState::InvalidTextRepresentation;
    }
    if holds(l, "table not found") || holds(l, "relation not found") || holds(
        l,
        "table or view not found",
    ) || (holds(l, "does not exist") && (holds(l, "table") || holds(l, "relation") || holds(
        l,
        "view",
    ))) || holds(l, "no table named") || holds(l, "missing builtin table") || holds(
        l,
        "unable to fetch table provider",
    ) {
        return SqlState::UndefinedTable;
    }
    if holds(l, "column not found") || holds(l, "no field named") || holds(l, "no column") || (
    holds(l, "does not exist") && holds(l, "column")) {
        return SqlState::UndefinedColumn;
    }
    if holds(l, "function not found") || (holds(l, "does not exist") && holds(l, "function"))
        || holds(l, "invalid function") {
        return SqlState::UndefinedFunction;
    }
    if holds(l, "database not found") || (holds(l, "does not exist") && holds(l, "database")) {
        return SqlState::DatabaseDoesNotExist;
    }
    if holds(l, "schema not found") || (holds(l, "does not exist") && holds(l, "schema")) || holds(
        l,
        "missing schema",
    ) {
        return SqlState::SchemaDoesNotExist;
    }
    if holds(l, "invalid password") || holds(l, "authentication failed") {
        return SqlState::InvalidPassword;
    }
    if holds(l, "not authorized") || holds(l, "authorization") {
        return SqlState::InvalidAuth;
    }
    if holds(l, "permission denied") || holds(l, "insufficient privilege") {
        return SqlState::InsufficientPrivilege;
    }
    if holds(l, "invalid input syntax") || holds(l, "could not parse") || holds(l, "parse error")
        || holds(l, "invalid value for") {
        return SqlState::InvalidTextRepresentation;
    }
    if holds(l, "invalid parameter value") {
        return SqlState::InvalidParameterValue;
    }
    if holds(l, "query canceled") || holds(l, "statement timeout") || holds(
        l,
        "execution canceled",
    ) {
        return SqlState::QueryCanceled;
    }
    if holds(l, "too many connections") || holds(l, "connection limit") {
        return SqlState::TooManyConnections;
    }
    if holds(l, "not supported") || holds(l, "does not support") || holds(l, "unsupported")
        || holds(l, "not yet implemented") {
        return SqlState::FeatureNotSupported;
    }
    if holds(l, "syntax error") || (holds(l, "expected") && holds(l, "found")) {
        return SqlState::SyntaxError;
    }
    if holds(l, "already exists") || (holds(l, "catalog error") && holds(l, "failed to create") && (
    holds(l, "schema") || holds(l, "table"))) {
        return SqlState::DuplicateTable;
    }
    SqlState::InternalError
}

/// Description of one result column, as sent in `RowDescription`.
#[derive(Debug)]
pub struct FieldDescription {
    pub name: String,
    pub table_id: i32,
    pub col_id: i16,
    pub type_oid: i32,
    pub type_size: i16,
    pub type_mod: i32,
    pub format: i16,
}

/// Builder of a [`FieldDescription`]: a name, a wire type that must be
/// given, and a format that defaults to text.
#[derive(Debug)]
pub struct FieldDescriptionBuilder<'a> {
    name: String,
    pg_type: Option<&'a Type>,
    format: Format,
}

impl<'a> FieldDescriptionBuilder<'a> {
    pub closed spec fn spec_name(&self) -> Seq<char> {
        self.name@
    }

    pub closed spec fn spec_type(&self) -> Option<Type> {
        match self.pg_type {
            Some(t) => Some(*t),
            None => None,
        }
    }

    pub closed spec fn spec_format(&self) -> Format {
        self.format
    }

    /// A builder for a column with this name, no type yet, in text format.
    pub fn new(name: String) -> (b: FieldDescriptionBuilder<'a>)
        ensures
            b.spec_name() == name@,
            b.spec_type() is None,
            b.spec_format() == Format::Text,
    {
        FieldDescriptionBuilder { name, pg_type: None, format: Format::Text }
    }

    /// The same builder with the given format.
    pub fn with_format(self, format: Format) -> (b: FieldDescriptionBuilder<'a>)
        ensures
            b.spec_name() == self.spec_name(),
            b.spec_type() == self.spec_type(),
            b.spec_format() == format,
    {
        FieldDescriptionBuilder { name: self.name, pg_type: self.pg_type, format }
    }

    /// The same builder with the given wire type.
    pub fn with_type<'b: 'a>(self, pg_type: &'b Type) -> (b: FieldDescriptionBuilder<'a>)
        ensures
            b.spec_name() == self.spec_name(),
            b.spec_type() == Some(*pg_type),
            b.spec_format() == self.spec_format(),
    {
        FieldDescriptionBuilder { name: self.name, pg_type: Some(pg_type), format: self.format }
    }

    /// The description, with the wire type's OID and the format's code;
    /// table, column, size and modifier are 0. Fails when no type was given.
    pub fn build(self) -> (r: Result<FieldDescription, SrvError>)
        ensures
            match self.spec_type() {
                None => r matches Err(SrvError::Internal(m)) && m@
                    == "type cannot be `None` in field description"@,
                Some(t) => r matches Ok(d) && d.name@ == self.spec_name() && d.table_id == 0
                    && d.col_id == 0 && d.type_oid == wire_type_oid(t) as i32 && d.type_size == 0
                    && d.type_mod == 0 && d.format == self.spec_format().spec_code(),
            },
    {
        match self.pg_type {
            None => Err(SrvError::Internal("type cannot be `None` in field description".to_owned())),
            Some(t) => Ok(
                FieldDescription {
                    name: self.name,
                    table_id: 0,
                    col_id: 0,
                    type_oid: type_oid(t) as i32,
                    type_size: 0,
                    type_mod: 0,
                    format: self.format.code(),
                },
            ),
        }
    }
}

/// Messages the server sends to the client. A data row carries the batch it
/// is read from (of whatever type the execution engine produces) and the
/// index of the row in it.
#[derive(Debug)]
pub enum BackendMessage<B> {
    ErrorResponse(ErrorResponse),
    NoticeResponse(Notice),
    AuthenticationOk,
    AuthenticationCleartextPassword,
    ParameterStatus { key: String, val: String },
    EmptyQueryResponse,
    ReadyForQuery(TransactionStatus),
    CommandComplete { tag: String },
    RowDescription(Vec<FieldDescription>),
    DataRow(B, usize),
    ParseComplete,
    BindComplete,
    CloseComplete,
    NoData,
    ParameterDescription(Vec<i32>),
    /// Sent during startup so the client can later issue a cancel request on
    /// a separate connection: both numbers must come back unchanged.
    BackendKeyData { process_id: i32, secret_key: i32 },
}

impl<B> From<ErrorResponse> for BackendMessage<B> {
    fn from(error: ErrorResponse) -> (r: Self) {
        BackendMessage::ErrorResponse(error)
    }
}

impl<B> vstd::std_specs::convert::FromSpecImpl<ErrorResponse> for BackendMessage<B> {
    open spec fn obeys_from_spec() -> bool {
        true
    }

    open spec fn from_spec(v: ErrorResponse) -> BackendMessage<B> {
        BackendMessage::ErrorResponse(v)
    }
}

impl<B> From<Notice> for BackendMessage<B> {
    fn from(notice: Notice) -> (r: Self) {
        BackendMessage::NoticeResponse(notice)
    }
}

impl<B> vstd::std_specs::convert::FromSpecImpl<Notice> for BackendMessage<B> {
    open spec fn obeys_from_spec() -> bool {
        true
    }

    open spec fn from_spec(v: Notice) -> BackendMessage<B> {
        BackendMessage::NoticeResponse(v)
    }
}

} // verus!
