//! Requests to the control plane: what their answers mean, and when the session that they
//! were made with is over.
use vstd::pervasive::unreached;
use vstd::prelude::*;

use crate::error::{AppError, AppResult};
use crate::model::WorkspaceAuthUser;
use crate::services::effects::{ask, done, Step, Turn};
use crate::text::Text;

verus! {

/// The body of a refusal.
#[derive(PartialEq, Eq)]
pub struct OAuthErrorResponse {
    pub error: Option<String>,
    pub error_description: Option<String>,
    pub message: Option<String>,
}

/// What became of a request whose answer is a `T`.
#[derive(PartialEq, Eq)]
pub enum Exchange<T> {
    /// The request could not be made.
    NotMade(AppError),
    /// The control plane was not reached, as the printed error says.
    NotReached(String),
    /// The control plane refused, with this status code and this status as it is printed.
    /// Its body may be unreadable, as the printed error says.
    Refused { code: u16, status: String, body: Result<OAuthErrorResponse, String> },
    /// The control plane agreed, and its answer could not be read, as the printed error
    /// says.
    Unreadable(String),
    /// The control plane agreed, and this is its answer.
    Answered(T),
}

/// Whether a status code means that the control plane agreed.
pub fn is_success(code: u16) -> (r: bool)
    ensures
        r == (200 <= code < 300),
{
    200 <= code && code < 300
}

/// The status code of a session that is over.
pub const UNAUTHORIZED: u16 = 401;

/// The status code of a route that is not there.
pub const NOT_FOUND: u16 = 404;

/// The error of a request that failed on its way.
pub open spec fn failed(action: &'static str, printed: String) -> AppError {
    AppError::Network(Text::Then(action, " failed: ", printed))
}

/// The error of a request that failed on its way.
pub fn request_error(action: &'static str, printed: String) -> (r: AppError)
    ensures
        r == failed(action, printed),
{
    AppError::Network(Text::Then(action, " failed: ", printed))
}

/// What a refusal says to people, if it says anything.
pub open spec fn detail(body: OAuthErrorResponse) -> Option<String> {
    match body.error_description {
        Some(description) => Some(description),
        None => body.message,
    }
}

fn take_detail(body: OAuthErrorResponse) -> (r: Option<String>)
    ensures
        r == detail(body),
{
    match body.error_description {
        Some(description) => Some(description),
        None => body.message,
    }
}

/// The error that reports a refusal.
pub open spec fn refused(status: String, body: Result<OAuthErrorResponse, String>) -> AppError {
    match body {
        Ok(body) => match detail(body) {
            Some(detail) => AppError::Network(
                Text::TwoTexts("workspace authentication returned ", status, ": ", detail),
            ),
            None => AppError::Network(
                Text::WithText(
                    "workspace authentication returned ",
                    status,
                    ": the control plane rejected the request",
                ),
            ),
        },
        Err(_) => AppError::Network(
            Text::WithText(
                "workspace authentication returned ",
                status,
                ": the control plane rejected the request",
            ),
        ),
    }
}

/// The error that reports a refusal.
pub fn oauth_error(status: String, body: Result<OAuthErrorResponse, String>) -> (r: AppError)
    ensures
        r == refused(status, body),
{
    let said = match body {
        Ok(body) => take_detail(body),
        Err(_) => None,
    };
    match said {
        Some(detail) => AppError::Network(
            Text::TwoTexts("workspace authentication returned ", status, ": ", detail),
        ),
        None => AppError::Network(
            Text::WithText(
                "workspace authentication returned ",
                status,
                ": the control plane rejected the request",
            ),
        ),
    }
}

/// The answer, or the error that reports its absence.
pub open spec fn answer<T>(
    exchange: Exchange<T>,
    sending: &'static str,
    reading: &'static str,
) -> Result<T, AppError> {
    match exchange {
        Exchange::NotMade(error) => Err(error),
        Exchange::NotReached(printed) => Err(failed(sending, printed)),
        Exchange::Refused { status, body, .. } => Err(refused(status, body)),
        Exchange::Unreadable(printed) => Err(failed(reading, printed)),
        Exchange::Answered(value) => Ok(value),
    }
}

/// Computes [`answer`].
pub fn take_answer<T>(
    exchange: Exchange<T>,
    sending: &'static str,
    reading: &'static str,
) -> (r: AppResult<T>)
    ensures
        r == answer(exchange, sending, reading),
{
    match exchange {
        Exchange::NotMade(error) => Err(error),
        Exchange::NotReached(printed) => Err(request_error(sending, printed)),
        Exchange::Refused { status, body, .. } => Err(oauth_error(status, body)),
        Exchange::Unreadable(printed) => Err(request_error(reading, printed)),
        Exchange::Answered(value) => Ok(value),
    }
}

/// Whether an answer is a refusal with this status code.
pub open spec fn refused_with<T>(exchange: Exchange<T>, expected: u16) -> bool {
    exchange matches Exchange::Refused { code, .. } && code == expected
}

fn is_refused_with<T>(exchange: &Exchange<T>, expected: u16) -> (r: bool)
    ensures
        r == refused_with(*exchange, expected),
{
    match exchange {
        Exchange::Refused { code, .. } => *code == expected,
        _ => false,
    }
}

/// Whose session a token stands for.
pub open spec fn session_owner(exchange: Exchange<WorkspaceAuthUser>) -> Result<
    Option<WorkspaceAuthUser>,
    AppError,
> {
    if refused_with(exchange, UNAUTHORIZED) {
        Ok(None)
    } else {
        match answer(exchange, "checking workspace session", "reading workspace session") {
            Ok(user) => Ok(Some(user)),
            Err(error) => Err(error),
        }
    }
}

/// Whose session a token stands for: nobody's, where the control plane no longer accepts
/// the token.
pub fn session_for_token(exchange: Exchange<WorkspaceAuthUser>) -> (r: AppResult<
    Option<WorkspaceAuthUser>,
>)
    ensures
        r == session_owner(exchange),
{
    if is_refused_with(&exchange, UNAUTHORIZED) {
        return Ok(None);
    }
    match take_answer(exchange, "checking workspace session", "reading workspace session") {
        Ok(user) => Ok(Some(user)),
        Err(error) => Err(error),
    }
}

/// Who is signed in, going by the stored session.
#[derive(PartialEq, Eq)]
pub struct WorkspaceAuthState {
    pub authenticated: bool,
    pub user: Option<WorkspaceAuthUser>,
}

/// Where the validation of the stored session stands.
#[derive(PartialEq, Eq)]
pub enum SessionCheck {
    Token,
    Session,
    Deleted,
}

/// What the validation of the stored session asks of the outside world.
#[derive(PartialEq, Eq)]
pub enum SessionCheckRequest {
    /// Whether a token is stored.
    FetchToken,
    /// Ask the control plane whose session it is.
    LoadSession,
    /// Forget the token.
    DeleteToken,
}

/// What the outside world answers.
#[derive(PartialEq, Eq)]
pub enum SessionCheckReply {
    Token(Result<bool, AppError>),
    Session(Exchange<WorkspaceAuthUser>),
    Deleted(Result<(), AppError>),
}

/// How the validation of the stored session ends.
pub type SessionCheckEnd = Result<WorkspaceAuthState, AppError>;

/// A step of the validation.
pub type SessionCheckStep = Step<SessionCheck, SessionCheckRequest, SessionCheckEnd>;

/// What follows an answer during the validation.
pub type SessionCheckTurn = Turn<SessionCheck, SessionCheckRequest, SessionCheckEnd>;

/// Nobody is signed in.
pub open spec fn signed_out() -> WorkspaceAuthState {
    WorkspaceAuthState { authenticated: false, user: None }
}

impl SessionCheck {
    /// Whether `reply` answers what is awaited.
    pub open spec fn awaits(self, reply: SessionCheckReply) -> bool {
        match self {
            SessionCheck::Token => reply is Token,
            SessionCheck::Session => reply is Session,
            SessionCheck::Deleted => reply is Deleted,
        }
    }

    /// The turn that follows `reply`. A token that is no longer accepted is forgotten.
    pub open spec fn after(self, reply: SessionCheckReply) -> SessionCheckTurn {
        match self {
            SessionCheck::Token => match reply->Token_0 {
                Err(error) => Turn::Done(Err(error)),
                Ok(false) => Turn::Done(Ok(signed_out())),
                Ok(true) => Turn::Ask {
                    state: SessionCheck::Session,
                    request: SessionCheckRequest::LoadSession,
                },
            },
            SessionCheck::Session => match session_owner(reply->Session_0) {
                Err(error) => Turn::Done(Err(error)),
                Ok(Some(user)) => Turn::Done(
                    Ok(WorkspaceAuthState { authenticated: true, user: Some(user) }),
                ),
                Ok(None) => Turn::Ask {
                    state: SessionCheck::Deleted,
                    request: SessionCheckRequest::DeleteToken,
                },
            },
            SessionCheck::Deleted => match reply->Deleted_0 {
                Err(error) => Turn::Done(Err(error)),
                Ok(_) => Turn::Done(Ok(signed_out())),
            },
        }
    }

    /// Begins to validate the stored session.
    pub fn auth_state() -> (r: SessionCheckStep)
        ensures
            r.says(
                (
                    Seq::empty(),
                    Turn::Ask {
                        state: SessionCheck::Token,
                        request: SessionCheckRequest::FetchToken,
                    },
                ),
            ),
    {
        ask(SessionCheck::Token, SessionCheckRequest::FetchToken)
    }

    /// Takes the answer to the last question.
    pub fn advance(self, reply: SessionCheckReply) -> (r: SessionCheckStep)
        requires
            self.awaits(reply),
        ensures
            r.says((Seq::empty(), self.after(reply))),
    {
        match (self, reply) {
            (SessionCheck::Token, SessionCheckReply::Token(reply)) => match reply {
                Err(error) => done(Err(error)),
                Ok(false) => done(Ok(WorkspaceAuthState { authenticated: false, user: None })),
                Ok(true) => ask(SessionCheck::Session, SessionCheckRequest::LoadSession),
            },
            (SessionCheck::Session, SessionCheckReply::Session(exchange)) =>
            match session_for_token(exchange) {
                Err(error) => done(Err(error)),
                Ok(Some(user)) => done(
                    Ok(WorkspaceAuthState { authenticated: true, user: Some(user) }),
                ),
                Ok(None) => ask(SessionCheck::Deleted, SessionCheckRequest::DeleteToken),
            },
            (SessionCheck::Deleted, SessionCheckReply::Deleted(reply)) => match reply {
                Err(error) => done(Err(error)),
                Ok(_) => done(Ok(WorkspaceAuthState { authenticated: false, user: None })),
            },
            _ => unreached(),
        }
    }
}

/// Where ending the stored session stands.
#[derive(PartialEq, Eq)]
pub enum SessionEnd {
    Token,
    Revoked,
    Deleted,
}

/// What ending the stored session asks of the outside world.
#[derive(PartialEq, Eq)]
pub enum SessionEndRequest {
    /// Whether a token is stored.
    FetchToken,
    /// Ask the control plane to revoke the session.
    Revoke,
    /// Forget the token.
    DeleteToken,
}

/// What the outside world answers.
#[derive(PartialEq, Eq)]
pub enum SessionEndReply {
    Token(Result<bool, AppError>),
    Revoked(Exchange<()>),
    Deleted(Result<(), AppError>),
}

/// A step of ending the stored session.
pub type SessionEndStep = Step<SessionEnd, SessionEndRequest, Result<(), AppError>>;

/// What follows an answer while the stored session is ended.
pub type SessionEndTurn = Turn<SessionEnd, SessionEndRequest, Result<(), AppError>>;

impl SessionEnd {
    /// Whether `reply` answers what is awaited.
    pub open spec fn awaits(self, reply: SessionEndReply) -> bool {
        match self {
            SessionEnd::Token => reply is Token,
            SessionEnd::Revoked => reply is Revoked,
            SessionEnd::Deleted => reply is Deleted,
        }
    }

    /// The turn that follows `reply`. The token is forgotten whether or not the control
    /// plane could be told.
    pub open spec fn after(self, reply: SessionEndReply) -> SessionEndTurn {
        match self {
            SessionEnd::Token => match reply->Token_0 {
                Err(error) => Turn::Done(Err(error)),
                Ok(true) => Turn::Ask {
                    state: SessionEnd::Revoked,
                    request: SessionEndRequest::Revoke,
                },
                Ok(false) => Turn::Ask {
                    state: SessionEnd::Deleted,
                    request: SessionEndRequest::DeleteToken,
                },
            },
            SessionEnd::Revoked => Turn::Ask {
                state: SessionEnd::Deleted,
                request: SessionEndRequest::DeleteToken,
            },
            SessionEnd::Deleted => Turn::Done(reply->Deleted_0),
        }
    }

    /// Begins to end the stored session.
    pub fn sign_out() -> (r: SessionEndStep)
        ensures
            r.says(
                (
                    Seq::empty(),
                    Turn::Ask { state: SessionEnd::Token, request: SessionEndRequest::FetchToken },
                ),
            ),
    {
        ask(SessionEnd::Token, SessionEndRequest::FetchToken)
    }

    /// Takes the answer to the last question.
    pub fn advance(self, reply: SessionEndReply) -> (r: SessionEndStep)
        requires
            self.awaits(reply),
        ensures
            r.says((Seq::empty(), self.after(reply))),
    {
        match (self, reply) {
            (SessionEnd::Token, SessionEndReply::Token(reply)) => match reply {
                Err(error) => done(Err(error)),
                Ok(true) => ask(SessionEnd::Revoked, SessionEndRequest::Revoke),
                Ok(false) => ask(SessionEnd::Deleted, SessionEndRequest::DeleteToken),
            },
            (SessionEnd::Revoked, SessionEndReply::Revoked(_)) => ask(
                SessionEnd::Deleted,
                SessionEndRequest::DeleteToken,
            ),
            (SessionEnd::Deleted, SessionEndReply::Deleted(reply)) => done(reply),
            _ => unreached(),
        }
    }
}

/// Whether a revocation went through: a session that the control plane no longer knows is
/// as good as revoked.
pub fn revocation(exchange: Exchange<()>) -> (r: AppResult<()>)
    ensures
        refused_with(exchange, UNAUTHORIZED) ==> r is Ok,
        !refused_with(exchange, UNAUTHORIZED) ==> r == answer(
            exchange,
            "revoking workspace session",
            "revoking workspace session",
        ),
{
    if is_refused_with(&exchange, UNAUTHORIZED) {
        Ok(())
    } else {
        take_answer(exchange, "revoking workspace session", "revoking workspace session")
    }
}

/// How one of the requests that need a session goes about it.
#[derive(PartialEq, Eq)]
pub struct CallRules {
    /// What is said where there is no session.
    pub missing: &'static str,
    /// What the request does.
    pub sending: &'static str,
    /// What reading its answer is.
    pub reading: &'static str,
    /// Whether a refused session is forgotten.
    pub forgets: bool,
    /// What is said where the session is refused, in place of the refusal.
    pub over: Option<&'static str>,
    /// Whether a missing route means that there is no answer, rather than an error.
    pub may_be_absent: bool,
}

/// The rules for loading the memberships.
pub open spec fn workspaces_rules() -> CallRules {
    CallRules {
        missing: "workspace memberships require an authenticated session",
        sending: "loading workspace memberships",
        reading: "reading workspace memberships",
        forgets: true,
        over: Some("workspace session is no longer active"),
        may_be_absent: false,
    }
}

/// The rules for loading the shared connections.
pub open spec fn connections_rules() -> CallRules {
    CallRules {
        missing: "shared connections require an authenticated session",
        sending: "loading shared connections",
        reading: "reading shared connections",
        forgets: true,
        over: None,
        may_be_absent: true,
    }
}

/// The rules for sharing a connection.
pub open spec fn sharing_rules() -> CallRules {
    CallRules {
        missing: "sharing a connection requires an authenticated session",
        sending: "sharing connection",
        reading: "reading shared connection",
        forgets: false,
        over: None,
        may_be_absent: false,
    }
}

/// The rules for having an action on a shared connection authorized.
pub open spec fn authorization_rules() -> CallRules {
    CallRules {
        missing: "shared connection access requires an authenticated session",
        sending: "authorizing shared connection",
        reading: "authorizing shared connection",
        forgets: true,
        over: None,
        may_be_absent: false,
    }
}

/// Where a request that needs a session stands.
#[derive(PartialEq, Eq)]
pub enum SessionCall {
    Token { rules: CallRules },
    Exchanged { rules: CallRules },
    /// The token is being forgotten; then this error is the answer.
    Forgotten { error: AppError },
}

/// What a request that needs a session asks of the outside world.
#[derive(PartialEq, Eq)]
pub enum SessionCallRequest {
    /// Whether a token is stored.
    FetchToken,
    /// Make the request with the token.
    Exchange,
    /// Forget the token.
    DeleteToken,
}

/// What the outside world answers.
#[derive(PartialEq, Eq)]
pub enum SessionCallReply<T> {
    Token(Result<bool, AppError>),
    Exchanged(Exchange<T>),
    Forgotten(Result<(), AppError>),
}

/// How a request that needs a session ends. There may be no answer where the rules say so.
pub type SessionCallEnd<T> = Result<Option<T>, AppError>;

/// A step of a request that needs a session.
pub type SessionCallStep<T> = Step<SessionCall, SessionCallRequest, SessionCallEnd<T>>;

/// What follows an answer during a request that needs a session.
pub type SessionCallTurn<T> = Turn<SessionCall, SessionCallRequest, SessionCallEnd<T>>;

/// What follows the exchange.
pub open spec fn after_exchange<T>(rules: CallRules, exchange: Exchange<T>) -> SessionCallTurn<T> {
    if rules.may_be_absent && refused_with(exchange, NOT_FOUND) {
        Turn::Done(Ok(None))
    } else {
        match answer(exchange, rules.sending, rules.reading) {
            Ok(value) => Turn::Done(Ok(Some(value))),
            Err(error) => if rules.forgets && refused_with(exchange, UNAUTHORIZED) {
                Turn::Ask {
                    state: SessionCall::Forgotten {
                        error: match rules.over {
                            Some(wording) => AppError::Network(Text::Plain(wording)),
                            None => error,
                        },
                    },
                    request: SessionCallRequest::DeleteToken,
                }
            } else {
                Turn::Done(Err(error))
            },
        }
    }
}

fn take_exchange<T>(rules: CallRules, exchange: Exchange<T>) -> (r: SessionCallStep<T>)
    ensures
        r.says((Seq::empty(), after_exchange(rules, exchange))),
{
    if rules.may_be_absent && is_refused_with(&exchange, NOT_FOUND) {
        return done(Ok(None));
    }
    let over = is_refused_with(&exchange, UNAUTHORIZED);
    match take_answer(exchange, rules.sending, rules.reading) {
        Ok(value) => done(Ok(Some(value))),
        Err(error) => {
            if rules.forgets && over {
                let error = match rules.over {
                    Some(wording) => AppError::Network(Text::Plain(wording)),
                    None => error,
                };
                ask(SessionCall::Forgotten { error }, SessionCallRequest::DeleteToken)
            } else {
                done(Err(error))
            }
        },
    }
}

impl SessionCall {
    /// Whether `reply` answers what is awaited.
    pub open spec fn awaits<T>(self, reply: SessionCallReply<T>) -> bool {
        match self {
            SessionCall::Token { .. } => reply is Token,
            SessionCall::Exchanged { .. } => reply is Exchanged,
            SessionCall::Forgotten { .. } => reply is Forgotten,
        }
    }

    /// The turn that follows `reply`.
    pub open spec fn after<T>(self, reply: SessionCallReply<T>) -> SessionCallTurn<T> {
        match self {
            SessionCall::Token { rules } => match reply->Token_0 {
                Err(error) => Turn::Done(Err(error)),
                Ok(false) => Turn::Done(Err(AppError::Config(Text::Plain(rules.missing)))),
                Ok(true) => Turn::Ask {
                    state: SessionCall::Exchanged { rules },
                    request: SessionCallRequest::Exchange,
                },
            },
            SessionCall::Exchanged { rules } => after_exchange(rules, reply->Exchanged_0),
            SessionCall::Forgotten { error } => match reply->Forgotten_0 {
                Err(failure) => Turn::Done(Err(failure)),
                Ok(_) => Turn::Done(Err(error)),
            },
        }
    }

    fn begin<T>(rules: CallRules) -> (r: SessionCallStep<T>)
        ensures
            r.says(
                (
                    Seq::empty(),
                    Turn::Ask {
                        state: SessionCall::Token { rules },
                        request: SessionCallRequest::FetchToken,
                    },
                ),
            ),
    {
        ask(SessionCall::Token { rules }, SessionCallRequest::FetchToken)
    }

    /// Begins to load the memberships.
    pub fn remote_workspaces<T>() -> (r: SessionCallStep<T>)
        ensures
            r.says(
                (
                    Seq::empty(),
                    Turn::Ask {
                        state: SessionCall::Token { rules: workspaces_rules() },
                        request: SessionCallRequest::FetchToken,
                    },
                ),
            ),
    {
        Self::begin(
            CallRules {
                missing: "workspace memberships require an authenticated session",
                sending: "loading workspace memberships",
                reading: "reading workspace memberships",
                forgets: true,
                over: Some("workspace session is no longer active"),
                may_be_absent: false,
            },
        )
    }

    /// Begins to load the shared connections.
    pub fn remote_connections<T>() -> (r: SessionCallStep<T>)
        ensures
            r.says(
                (
                    Seq::empty(),
                    Turn::Ask {
                        state: SessionCall::Token { rules: connections_rules() },
                        request: SessionCallRequest::FetchToken,
                    },
                ),
            ),
    {
        Self::begin(
            CallRules {
                missing: "shared connections require an authenticated session",
                sending: "loading shared connections",
                reading: "reading shared connections",
                forgets: true,
                over: None,
                may_be_absent: true,
            },
        )
    }

    /// Begins to share a connection.
    pub fn share_connection<T>() -> (r: SessionCallStep<T>)
        ensures
            r.says(
                (
                    Seq::empty(),
                    Turn::Ask {
                        state: SessionCall::Token { rules: sharing_rules() },
                        request: SessionCallRequest::FetchToken,
                    },
                ),
            ),
    {
        Self::begin(
            CallRules {
                missing: "sharing a connection requires an authenticated session",
                sending: "sharing connection",
                reading: "reading shared connection",
                forgets: false,
                over: None,
                may_be_absent: false,
            },
        )
    }

    /// Begins to have an action on a shared connection authorized.
    pub fn authorize_connection<T>() -> (r: SessionCallStep<T>)
        ensures
            r.says(
                (
                    Seq::empty(),
                    Turn::Ask {
                        state: SessionCall::Token { rules: authorization_rules() },
                        request: SessionCallRequest::FetchToken,
                    },
                ),
            ),
    {
        Self::begin(
            CallRules {
                missing: "shared connection access requires an authenticated session",
                sending: "authorizing shared connection",
                reading: "authorizing shared connection",
                forgets: true,
                over: None,
                may_be_absent: false,
            },
        )
    }

    /// Takes the answer to the last question.
    pub fn advance<T>(self, reply: SessionCallReply<T>) -> (r: SessionCallStep<T>)
        requires
            self.awaits(reply),
        ensures
            r.says((Seq::empty(), self.after(reply))),
    {
        match (self, reply) {
            (SessionCall::Token { rules }, SessionCallReply::Token(reply)) => match reply {
                Err(error) => done(Err(error)),
                Ok(false) => done(Err(AppError::Config(Text::Plain(rules.missing)))),
                Ok(true) => ask(SessionCall::Exchanged { rules }, SessionCallRequest::Exchange),
            },
            (SessionCall::Exchanged { rules }, SessionCallReply::Exchanged(exchange)) =>
            take_exchange(rules, exchange),
            (SessionCall::Forgotten { error }, SessionCallReply::Forgotten(reply)) => match reply {
                Err(failure) => done(Err(failure)),
                Ok(_) => done(Err(error)),
            },
            _ => unreached(),
        }
    }
}

/// Signing out always forgets the token if it is asked to, whatever the control plane says.
pub proof fn signing_out_forgets_the_token(revoked: Exchange<()>)
    ensures
        SessionEnd::Revoked.after(SessionEndReply::Revoked(revoked)) == (SessionEndTurn::Ask {
            state: SessionEnd::Deleted,
            request: SessionEndRequest::DeleteToken,
        }),
        SessionEnd::Token.after(SessionEndReply::Token(Ok(false))) == (SessionEndTurn::Ask {
            state: SessionEnd::Deleted,
            request: SessionEndRequest::DeleteToken,
        }),
{
}

} // verus!
