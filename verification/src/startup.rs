//! Decisions of the authentication phase of a connection: what is asked of
//! the client, and what each reply leads to.
use uuid::Uuid;
use vstd::prelude::*;

use crate::handler::uuid_bytes;
use crate::messages::{ErrorResponse, ErrorSeverity, FrontendMessage};
use crate::notice::SqlState;
use crate::text::{chars_of, string_from_chars};
use crate::vars::{parse_uuid, uuid_parsed};

verus! {

/// How a server authenticates clients.
#[derive(Debug, Clone, Copy, PartialEq, Eq, Structural)]
pub enum PasswordMode {
    /// Ask for a cleartext password and check it.
    RequireCleartext,
    /// Ask for nothing; when `drop_auth_messages` is set, still ask for a
    /// password and throw away an authentication message sent in reply.
    NoPassword { drop_auth_messages: bool },
}

/// What the server expects after it opened the authentication phase.
#[derive(Debug, Clone, Copy, PartialEq, Eq, Structural)]
pub enum AuthExpectation {
    /// A password message, to be checked.
    Password,
    /// Maybe an authentication message, to be dropped if it comes.
    DroppableAuthMessage,
    /// Nothing: the client is accepted at once.
    Nothing,
}

/// How the authentication phase starts: whether a cleartext password is
/// requested, and what is expected next.
pub fn auth_opening(mode: PasswordMode) -> (r: (bool, AuthExpectation))
    ensures
        r == match mode {
            PasswordMode::RequireCleartext => (true, AuthExpectation::Password),
            PasswordMode::NoPassword { drop_auth_messages } => if drop_auth_messages {
                (true, AuthExpectation::DroppableAuthMessage)
            } else {
                (false, AuthExpectation::Nothing)
            },
        },
{
    match mode {
        PasswordMode::RequireCleartext => (true, AuthExpectation::Password),
        PasswordMode::NoPassword { drop_auth_messages } => if drop_auth_messages {
            (true, AuthExpectation::DroppableAuthMessage)
        } else {
            (false, AuthExpectation::Nothing)
        },
    }
}

/// What to do with the reply to a password request.
#[derive(Debug, Clone, PartialEq, Eq)]
pub enum PasswordStep {
    /// Check this password.
    Check(String),
    /// The client sent another message: the connection fails.
    Unexpected,
    /// The client closed the connection: end without error.
    Closed,
}

/// The step for the reply to a password request.
pub fn password_step(msg: Option<&FrontendMessage>) -> (r: PasswordStep)
    ensures
        match msg {
            Some(FrontendMessage::PasswordMessage { password }) => r matches PasswordStep::Check(p) && p@
                == password@,
            Some(_) => r is Unexpected,
            None => r is Closed,
        },
{
    match msg {
        Some(FrontendMessage::PasswordMessage { password }) => PasswordStep::Check(password.clone()),
        Some(_) => PasswordStep::Unexpected,
        None => PasswordStep::Closed,
    }
}

/// What to do with the message seen after a password request that will
/// not be checked.
#[derive(Debug, Clone, Copy, PartialEq, Eq, Structural)]
pub enum PeekStep {
    /// Read the authentication message and throw it away.
    Drop,
    /// Leave the message for the session.
    Keep,
    /// The client closed the connection: end without error.
    Closed,
}

/// The step for the message peeked after a password request that will not
/// be checked: an authentication message is dropped, any other is kept.
pub fn peek_step(msg: Option<&FrontendMessage>) -> (r: PeekStep)
    ensures
        r == match msg {
            Some(m) => if m is PasswordMessage {
                PeekStep::Drop
            } else {
                PeekStep::Keep
            },
            None => PeekStep::Closed,
        },
{
    match msg {
        Some(m) => if m.is_auth_message() {
            PeekStep::Drop
        } else {
            PeekStep::Keep
        },
        None => PeekStep::Closed,
    }
}

/// The fatal error sent when the password check fails.
pub fn auth_failure(reason: &str) -> (e: ErrorResponse)
    ensures
        e.severity == ErrorSeverity::Fatal,
        e.code == SqlState::InternalError,
        e.message@ == "Failed to authenticate: "@ + reason@,
{
    let mut v = chars_of("Failed to authenticate: ");
    let mut r = chars_of(reason);
    v.append(&mut r);
    ErrorResponse::fatal_internal(string_from_chars(v.as_slice()))
}

/// The fatal error sent when no session can be opened.
pub fn session_failure(reason: &str) -> (e: ErrorResponse)
    ensures
        e.severity == ErrorSeverity::Fatal,
        e.code == SqlState::InternalError,
        e.message@ == "failed to open session: "@ + reason@,
{
    let mut v = chars_of("failed to open session: ");
    let mut r = chars_of(reason);
    v.append(&mut r);
    ErrorResponse::fatal_internal(string_from_chars(v.as_slice()))
}

/// Whether a UUID is the nil UUID, all of its bytes zero.
pub open spec fn nil_uuid(u: Uuid) -> bool {
    forall|i: int| 0 <= i < uuid_bytes(u).len() ==> #[trigger] uuid_bytes(u)[i] == 0
}

/// Whether a UUID is nil. Trusted: calls `uuid::Uuid::is_nil`, which holds
/// when all of its bytes are zero.
#[verifier::external_body]
fn is_nil(u: &Uuid) -> (r: bool)
    ensures
        r == nil_uuid(*u),
{
    u.is_nil()
}

/// Who a session is for, read from the startup parameters.
#[derive(Debug)]
pub struct SessionIdentity {
    pub user_name: String,
    pub database_name: String,
    pub database_id: Uuid,
    pub is_cloud_instance: bool,
}

/// The text of an optional startup parameter, empty when it is missing.
pub open spec fn param_text(p: Option<&str>) -> Seq<char> {
    match p {
        Some(v) => v@,
        None => Seq::empty(),
    }
}

/// The identity of a session from its `user` and `database` startup
/// parameters and the database id placed by the proxy. A database id other
/// than nil marks a cloud instance; when integration testing, a database
/// name that reads as a UUID replaces the database id (the cloud flag still
/// follows the proxy's id).
pub fn session_identity(
    user: Option<&str>,
    database: Option<&str>,
    proxy_db_id: Uuid,
    integration_testing: bool,
) -> (r: SessionIdentity)
    ensures
        r.user_name@ == param_text(user),
        r.database_name@ == param_text(database),
        r.is_cloud_instance == !nil_uuid(proxy_db_id),
        r.database_id == if integration_testing {
            match uuid_parsed(param_text(database)) {
                Some(u) => u,
                None => proxy_db_id,
            }
        } else {
            proxy_db_id
        },
{
    let is_cloud_instance = !is_nil(&proxy_db_id);
    let user_name = match user {
        Some(u) => u.to_owned(),
        None => String::new(),
    };
    let database_name = match database {
        Some(d) => d.to_owned(),
        None => String::new(),
    };
    let database_id = if integration_testing {
        match parse_uuid(database_name.as_str()) {
            Some(u) => u,
            None => proxy_db_id,
        }
    } else {
        proxy_db_id
    };
    SessionIdentity { user_name, database_name, database_id, is_cloud_instance }
}

/// Where the opening of a connection stands.
#[derive(Debug, Clone, Copy, PartialEq, Eq, Structural)]
pub enum BeginStage {
    /// Waiting for the reply to the password request: a password to check
    /// when `check`, else maybe an authentication message to drop.
    AwaitingAuth { check: bool },
    /// The password is being checked.
    Checking,
    /// The session is being opened.
    Opening,
    /// The session runs.
    Running,
    /// The connection is over; `ok` when it ended without error.
    Ended { ok: bool },
}

/// The opening of a connection: the stage, and the process id and secret
/// key that the client is given for cancel requests.
#[derive(Debug, Clone, Copy, PartialEq, Eq, Structural)]
pub struct BeginFlow {
    pub stage: BeginStage,
    pub process_id: i32,
    pub secret_key: i32,
}

/// What happened while opening a connection.
#[derive(Debug)]
pub enum BeginEvent {
    /// The client's next message (read when a password is checked, looked at
    /// otherwise); None when the connection closed.
    Reply(Option<FrontendMessage>),
    /// The password check passed, or failed for this reason.
    Checked(Result<(), String>),
    /// The session was opened, or could not be for this reason.
    Opened(Result<(), String>),
    /// The session ended, without error or not.
    SessionEnded(bool),
}

/// What the server does next.
#[derive(Debug)]
pub enum BeginAction {
    /// Send `AuthenticationCleartextPassword`.
    AskPassword,
    /// Check this password for the session's user and database.
    CheckPassword(String),
    /// Read the authentication message that was looked at, and drop it.
    DropMessage,
    /// Send `AuthenticationOk`.
    AuthenticationOk,
    SendError(ErrorResponse),
    /// Build the session variables and open the session.
    OpenSession,
    /// Send a `ParameterStatus` for each startup variable.
    SendParameters,
    /// Register the process id and secret key for cancel requests.
    RegisterCancel { process_id: i32, secret_key: i32 },
    /// Send `BackendKeyData` with the process id and secret key.
    SendKeyData { process_id: i32, secret_key: i32 },
    /// Run the session's message loop.
    RunSession,
    /// Remove the process id from the cancel registry.
    DeregisterCancel { process_id: i32 },
}

/// The abstract form of an action, for contracts.
pub enum BeginActionView {
    AskPassword,
    CheckPassword(Seq<char>),
    DropMessage,
    AuthenticationOk,
    SendError(ErrorSeverity, SqlState, Seq<char>),
    OpenSession,
    SendParameters,
    RegisterCancel(i32, i32),
    SendKeyData(i32, i32),
    RunSession,
    DeregisterCancel(i32),
}

impl BeginAction {
    pub open spec fn view_of(&self) -> BeginActionView {
        match self {
            BeginAction::AskPassword => BeginActionView::AskPassword,
            BeginAction::CheckPassword(p) => BeginActionView::CheckPassword(p@),
            BeginAction::DropMessage => BeginActionView::DropMessage,
            BeginAction::AuthenticationOk => BeginActionView::AuthenticationOk,
            BeginAction::SendError(e) => BeginActionView::SendError(e.severity, e.code, e.message@),
            BeginAction::OpenSession => BeginActionView::OpenSession,
            BeginAction::SendParameters => BeginActionView::SendParameters,
            BeginAction::RegisterCancel { process_id, secret_key } => BeginActionView::RegisterCancel(
                *process_id,
                *secret_key,
            ),
            BeginAction::SendKeyData { process_id, secret_key } => BeginActionView::SendKeyData(
                *process_id,
                *secret_key,
            ),
            BeginAction::RunSession => BeginActionView::RunSession,
            BeginAction::DeregisterCancel { process_id } => BeginActionView::DeregisterCancel(
                *process_id,
            ),
        }
    }
}

/// The actions as abstract values, in order.
pub open spec fn begin_views(a: Seq<BeginAction>) -> Seq<BeginActionView> {
    a.map_values(|x: BeginAction| x.view_of())
}

/// How a connection's opening starts for an authentication mode: a
/// password is asked for unless the mode asks for nothing, in which case the
/// client is accepted and the session opened.
pub open spec fn begin_start(mode: PasswordMode, process_id: i32, secret_key: i32) -> (
    BeginFlow,
    Seq<BeginActionView>,
) {
    let f = |stage: BeginStage| BeginFlow { stage, process_id, secret_key };
    match mode {
        PasswordMode::RequireCleartext => (
            f(BeginStage::AwaitingAuth { check: true }),
            seq![BeginActionView::AskPassword],
        ),
        PasswordMode::NoPassword { drop_auth_messages } => if drop_auth_messages {
            (f(BeginStage::AwaitingAuth { check: false }), seq![BeginActionView::AskPassword])
        } else {
            (
                f(BeginStage::Opening),
                seq![BeginActionView::AuthenticationOk, BeginActionView::OpenSession],
            )
        },
    }
}

/// The next flow and actions for an event; an event that does not fit the
/// stage changes nothing.
pub open spec fn begin_step(f: BeginFlow, e: BeginEvent) -> (BeginFlow, Seq<BeginActionView>) {
    let to = |stage: BeginStage| BeginFlow { stage, ..f };
    let accept = seq![BeginActionView::AuthenticationOk, BeginActionView::OpenSession];
    match (f.stage, e) {
        (BeginStage::AwaitingAuth { check }, BeginEvent::Reply(None)) => (
            to(BeginStage::Ended { ok: true }),
            seq![],
        ),
        (BeginStage::AwaitingAuth { check }, BeginEvent::Reply(Some(m))) => if check {
            match m {
                FrontendMessage::PasswordMessage { password } => (
                    to(BeginStage::Checking),
                    seq![BeginActionView::CheckPassword(password@)],
                ),
                _ => (to(BeginStage::Ended { ok: false }), seq![]),
            }
        } else if m is PasswordMessage {
            (to(BeginStage::Opening), seq![BeginActionView::DropMessage] + accept)
        } else {
            (to(BeginStage::Opening), accept)
        },
        (BeginStage::Checking, BeginEvent::Checked(Ok(()))) => (to(BeginStage::Opening), accept),
        (BeginStage::Checking, BeginEvent::Checked(Err(reason))) => (
            to(BeginStage::Ended { ok: false }),
            seq![
                BeginActionView::SendError(
                    ErrorSeverity::Fatal,
                    SqlState::InternalError,
                    "Failed to authenticate: "@ + reason@,
                ),
            ],
        ),
        (BeginStage::Opening, BeginEvent::Opened(Ok(()))) => (
            to(BeginStage::Running),
            seq![
                BeginActionView::SendParameters,
                BeginActionView::RegisterCancel(f.process_id, f.secret_key),
                BeginActionView::SendKeyData(f.process_id, f.secret_key),
                BeginActionView::RunSession,
            ],
        ),
        (BeginStage::Opening, BeginEvent::Opened(Err(reason))) => (
            to(BeginStage::Ended { ok: false }),
            seq![
                BeginActionView::SendError(
                    ErrorSeverity::Fatal,
                    SqlState::InternalError,
                    "failed to open session: "@ + reason@,
                ),
            ],
        ),
        (BeginStage::Running, BeginEvent::SessionEnded(ok)) => (
            to(BeginStage::Ended { ok }),
            seq![BeginActionView::DeregisterCancel(f.process_id)],
        ),
        _ => (f, seq![]),
    }
}

impl BeginFlow {
    /// Starts opening a connection.
    pub fn start(mode: PasswordMode, process_id: i32, secret_key: i32) -> (r: (BeginFlow, Vec<BeginAction>))
        ensures
            (r.0, begin_views(r.1@)) == begin_start(mode, process_id, secret_key),
    {
        let (ask, expect) = auth_opening(mode);
        let mut v: Vec<BeginAction> = Vec::new();
        let stage = if ask {
            v.push(BeginAction::AskPassword);
            match expect {
                AuthExpectation::Password => BeginStage::AwaitingAuth { check: true },
                _ => BeginStage::AwaitingAuth { check: false },
            }
        } else {
            v.push(BeginAction::AuthenticationOk);
            v.push(BeginAction::OpenSession);
            BeginStage::Opening
        };
        let r = (BeginFlow { stage, process_id, secret_key }, v);
        assert(begin_views(r.1@) =~= begin_start(mode, process_id, secret_key).1);
        r
    }

    /// Takes one event: the next flow and the actions, in order.
    pub fn step(self, e: BeginEvent) -> (r: (BeginFlow, Vec<BeginAction>))
        ensures
            (r.0, begin_views(r.1@)) == begin_step(self, e),
    {
        let ghost e0 = e;
        let mut v: Vec<BeginAction> = Vec::new();
        let stage = match (self.stage, e) {
            (BeginStage::AwaitingAuth { check }, BeginEvent::Reply(m)) => {
                if check {
                    match password_step(m.as_ref()) {
                        PasswordStep::Check(p) => {
                            v.push(BeginAction::CheckPassword(p));
                            BeginStage::Checking
                        },
                        PasswordStep::Unexpected => BeginStage::Ended { ok: false },
                        PasswordStep::Closed => BeginStage::Ended { ok: true },
                    }
                } else {
                    match peek_step(m.as_ref()) {
                        PeekStep::Drop => {
                            v.push(BeginAction::DropMessage);
                            v.push(BeginAction::AuthenticationOk);
                            v.push(BeginAction::OpenSession);
                            BeginStage::Opening
                        },
                        PeekStep::Keep => {
                            v.push(BeginAction::AuthenticationOk);
                            v.push(BeginAction::OpenSession);
                            BeginStage::Opening
                        },
                        PeekStep::Closed => BeginStage::Ended { ok: true },
                    }
                }
            },
            (BeginStage::Checking, BeginEvent::Checked(res)) => match res {
                Ok(()) => {
                    v.push(BeginAction::AuthenticationOk);
                    v.push(BeginAction::OpenSession);
                    BeginStage::Opening
                },
                Err(reason) => {
                    v.push(BeginAction::SendError(auth_failure(reason.as_str())));
                    BeginStage::Ended { ok: false }
                },
            },
            (BeginStage::Opening, BeginEvent::Opened(res)) => match res {
                Ok(()) => {
                    v.push(BeginAction::SendParameters);
                    v.push(
                        BeginAction::RegisterCancel {
                            process_id: self.process_id,
                            secret_key: self.secret_key,
                        },
                    );
                    v.push(
                        BeginAction::SendKeyData {
                            process_id: self.process_id,
                            secret_key: self.secret_key,
                        },
                    );
                    v.push(BeginAction::RunSession);
                    BeginStage::Running
                },
                Err(reason) => {
                    v.push(BeginAction::SendError(session_failure(reason.as_str())));
                    BeginStage::Ended { ok: false }
                },
            },
            (BeginStage::Running, BeginEvent::SessionEnded(ok)) => {
                v.push(BeginAction::DeregisterCancel { process_id: self.process_id });
                BeginStage::Ended { ok }
            },
            _ => self.stage,
        };
        let r = (BeginFlow { stage, ..self }, v);
        assert(begin_views(r.1@) =~= begin_step(self, e0).1);
        r
    }
}

/// A client that opened a session is given the process id and secret key
/// it was registered under for cancel requests, before the session runs,
/// and the registration is removed when the session ends.
pub proof fn lemma_cancel_key_announced(f: BeginFlow, ok: bool)
    requires
        f.stage == BeginStage::Opening,
    ensures
        ({
            let (g, a) = begin_step(f, BeginEvent::Opened(Ok(())));
            let (h, b) = begin_step(g, BeginEvent::SessionEnded(ok));
            &&& a == seq![
                BeginActionView::SendParameters,
                BeginActionView::RegisterCancel(f.process_id, f.secret_key),
                BeginActionView::SendKeyData(f.process_id, f.secret_key),
                BeginActionView::RunSession,
            ]
            &&& b == seq![BeginActionView::DeregisterCancel(f.process_id)]
            &&& h.stage == BeginStage::Ended { ok }
        }),
{
}

/// With a required password, the session is opened only after the password
/// check passed: a failed check ends the connection with a fatal error.
pub proof fn lemma_password_required(pid: i32, secret: i32, password: String, reason: String)
    ensures
        ({
            let (f, _) = begin_start(PasswordMode::RequireCleartext, pid, secret);
            let (g, a) = begin_step(f, BeginEvent::Reply(Some(FrontendMessage::PasswordMessage { password })));
            let (h, b) = begin_step(g, BeginEvent::Checked(Err(reason)));
            &&& a == seq![BeginActionView::CheckPassword(password@)]
            &&& h.stage == BeginStage::Ended { ok: false }
            &&& b.len() == 1 && b[0] is SendError
        }),
{
}

} // verus!
