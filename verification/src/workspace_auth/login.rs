//! Signing in with a device code.
use vstd::pervasive::unreached;
use vstd::prelude::*;
use vstd::string::*;

use crate::error::{AppError, AppResult};
use crate::model::WorkspaceAuthUser;
use crate::services::effects::{ask, done, Step, Turn};
use crate::services::workspace::accounts::{WorkspaceLoginPoll, WorkspaceLoginPollStatus};
use crate::text::{
    begins_with, byte_count, byte_len, char_is_white_space, holds_text, is_text, is_white_space,
    starts_with, Text,
};
use crate::workspace_auth::exchange::{
    answer, detail, failed, request_error, session_for_token, session_owner, take_answer,
    Exchange, OAuthErrorResponse,
};

verus! {

/// The client that the desktop signs in as.
pub const DESKTOP_CLIENT_ID: &'static str = "dopedb-desktop";

/// The grant that a device code is exchanged under.
pub const DEVICE_GRANT: &'static str = "urn:ietf:params:oauth:grant-type:device_code";

/// Whether a character is an ASCII letter or digit.
pub open spec fn is_alphanumeric(c: char) -> bool {
    'a' <= c <= 'z' || 'A' <= c <= 'Z' || '0' <= c <= '9'
}

/// Whether a text is 40 bytes of ASCII letters and digits.
pub open spec fn is_device_code(code: Seq<char>) -> bool {
    byte_count(code) == 40 && forall|i: int| 0 <= i < code.len() ==> is_alphanumeric(
        #[trigger] code[i],
    )
}

/// Computes [`is_device_code`].
pub fn valid_device_code(device_code: &str) -> (r: bool)
    ensures
        r == is_device_code(device_code@),
{
    if byte_len(device_code) != 40 {
        return false;
    }
    let count: usize = device_code.unicode_len();
    let mut i: usize = 0;
    while i < count
        invariant
            i <= count,
            count == device_code@.len(),
            forall|j: int| 0 <= j < i ==> is_alphanumeric(#[trigger] device_code@[j]),
        decreases count - i,
    {
        let c = device_code.get_char(i);
        if !(('a' <= c && c <= 'z') || ('A' <= c && c <= 'Z') || ('0' <= c && c <= '9')) {
            assert(!is_alphanumeric(device_code@[i as int]));
            return false;
        }
        i = i + 1;
    }
    true
}

/// The control plane's answer to the start of a login.
#[derive(PartialEq, Eq)]
pub struct DeviceCodeResponse {
    pub device_code: String,
    pub user_code: String,
    pub verification_uri_complete: String,
    pub expires_in: u64,
    pub interval: u64,
}

/// A login that was started.
#[derive(PartialEq, Eq)]
pub struct WorkspaceDeviceAuthorization {
    pub device_code: String,
    pub user_code: String,
    pub verification_uri_complete: String,
    pub expires_in: u64,
    pub interval: u64,
}

/// Whether the answer to the start of a login is fit to be used: the code is well formed,
/// the page to be opened is on the control plane itself, and the times are sensible.
pub open spec fn is_fit(value: DeviceCodeResponse, origin: Seq<char>) -> bool {
    &&& is_device_code(value.device_code@)
    &&& begins_with(value.verification_uri_complete@, origin + "/auth/device?user_code="@)
    &&& 1 <= value.interval <= 60
    &&& 1 <= value.expires_in <= 3600
}

/// Starts a login, going by the control plane's answer.
pub fn begin_login(origin: &str, exchange: Exchange<DeviceCodeResponse>) -> (r: AppResult<
    WorkspaceDeviceAuthorization,
>)
    ensures
        match answer(exchange, "starting workspace login", "reading workspace login response") {
            Err(error) => r == Err::<WorkspaceDeviceAuthorization, AppError>(error),
            Ok(value) => r == if is_fit(value, origin@) {
                Ok::<WorkspaceDeviceAuthorization, AppError>(
                    WorkspaceDeviceAuthorization {
                        device_code: value.device_code,
                        user_code: value.user_code,
                        verification_uri_complete: value.verification_uri_complete,
                        expires_in: value.expires_in,
                        interval: value.interval,
                    },
                )
            } else {
                Err(
                    AppError::Network(
                        Text::Plain(
                            "workspace login returned an invalid device authorization response",
                        ),
                    ),
                )
            },
        },
{
    let value = match take_answer(
        exchange,
        "starting workspace login",
        "reading workspace login response",
    ) {
        Ok(value) => value,
        Err(error) => {
            return Err(error);
        },
    };
    let mut prefix = origin.to_owned();
    prefix.append("/auth/device?user_code=");
    if !valid_device_code(value.device_code.as_str()) || !starts_with(
        value.verification_uri_complete.as_str(),
        prefix.as_str(),
    ) || !(1 <= value.interval && value.interval <= 60) || !(1 <= value.expires_in
        && value.expires_in <= 3600) {
        return Err(
            AppError::Network(
                Text::Plain("workspace login returned an invalid device authorization response"),
            ),
        );
    }
    Ok(
        WorkspaceDeviceAuthorization {
            device_code: value.device_code,
            user_code: value.user_code,
            verification_uri_complete: value.verification_uri_complete,
            expires_in: value.expires_in,
            interval: value.interval,
        },
    )
}

/// Whether a text can be a session token: of a sensible length, and without white space.
pub open spec fn is_token(token: Seq<char>) -> bool {
    20 <= byte_count(token) <= 4096 && forall|i: int|
        0 <= i < token.len() ==> !is_white_space(#[trigger] token[i])
}

/// Computes [`is_token`].
fn valid_token(token: &str) -> (r: bool)
    ensures
        r == is_token(token@),
{
    let size: usize = byte_len(token);
    if size < 20 || size > 4096 {
        return false;
    }
    let count: usize = token.unicode_len();
    let mut i: usize = 0;
    while i < count
        invariant
            i <= count,
            count == token@.len(),
            forall|j: int| 0 <= j < i ==> !is_white_space(#[trigger] token@[j]),
        decreases count - i,
    {
        if char_is_white_space(token.get_char(i)) {
            assert(is_white_space(token@[i as int]));
            return false;
        }
        i = i + 1;
    }
    true
}

/// How far a login has come, by the error code that the control plane gives.
pub open spec fn status_for(error: Option<String>) -> Option<WorkspaceLoginPollStatus> {
    if is_text(error, "authorization_pending"@) {
        Some(WorkspaceLoginPollStatus::Pending)
    } else if is_text(error, "slow_down"@) {
        Some(WorkspaceLoginPollStatus::SlowDown)
    } else if is_text(error, "access_denied"@) {
        Some(WorkspaceLoginPollStatus::Denied)
    } else if is_text(error, "expired_token"@) || is_text(error, "invalid_grant"@) {
        Some(WorkspaceLoginPollStatus::Expired)
    } else {
        None
    }
}

/// Computes [`status_for`].
fn read_status(error: &Option<String>) -> (r: Option<WorkspaceLoginPollStatus>)
    ensures
        r == status_for(*error),
{
    if holds_text(error, "authorization_pending") {
        Some(WorkspaceLoginPollStatus::Pending)
    } else if holds_text(error, "slow_down") {
        Some(WorkspaceLoginPollStatus::SlowDown)
    } else if holds_text(error, "access_denied") {
        Some(WorkspaceLoginPollStatus::Denied)
    } else if holds_text(error, "expired_token") || holds_text(error, "invalid_grant") {
        Some(WorkspaceLoginPollStatus::Expired)
    } else {
        None
    }
}

/// What a refused poll comes to.
pub open spec fn refused_poll(
    status: String,
    body: Result<OAuthErrorResponse, String>,
) -> Result<WorkspaceLoginPoll, AppError> {
    match body {
        Err(printed) => Err(failed("reading workspace login status", printed)),
        Ok(body) => match status_for(body.error) {
            Some(status) => Ok(WorkspaceLoginPoll { status, user: None }),
            None => Err(
                AppError::Network(
                    match detail(body) {
                        Some(detail) => Text::TwoTexts(
                            "workspace login returned ",
                            status,
                            ": ",
                            detail,
                        ),
                        None => Text::WithText(
                            "workspace login returned ",
                            status,
                            ": the control plane rejected the request",
                        ),
                    },
                ),
            ),
        },
    }
}

fn read_refused_poll(status: String, body: Result<OAuthErrorResponse, String>) -> (r: AppResult<
    WorkspaceLoginPoll,
>)
    ensures
        r == refused_poll(status, body),
{
    let body = match body {
        Err(printed) => {
            return Err(request_error("reading workspace login status", printed));
        },
        Ok(body) => body,
    };
    match read_status(&body.error) {
        Some(status) => Ok(WorkspaceLoginPoll { status, user: None }),
        None => {
            let said = match body.error_description {
                Some(description) => Some(description),
                None => body.message,
            };
            Err(
                AppError::Network(
                    match said {
                        Some(detail) => Text::TwoTexts(
                            "workspace login returned ",
                            status,
                            ": ",
                            detail,
                        ),
                        None => Text::WithText(
                            "workspace login returned ",
                            status,
                            ": the control plane rejected the request",
                        ),
                    },
                ),
            )
        },
    }
}

/// Where a poll of a login stands.
#[derive(PartialEq, Eq)]
pub enum LoginPoll {
    Exchanged,
    Session { token: String },
    Stored { user: WorkspaceAuthUser },
}

/// What a poll of a login asks of the outside world.
#[derive(PartialEq, Eq)]
pub enum LoginPollRequest {
    /// Exchange the device code for a token.
    Exchange { device_code: String },
    /// Ask the control plane whose session the token of the state is.
    LoadSession,
    /// Keep the token.
    StoreToken { token: String },
}

/// What the outside world answers.
#[derive(PartialEq, Eq)]
pub enum LoginPollReply {
    Exchanged(Exchange<String>),
    Session(Exchange<WorkspaceAuthUser>),
    Stored(Result<(), AppError>),
}

/// How a poll of a login ends.
pub type LoginPollEnd = Result<WorkspaceLoginPoll, AppError>;

/// A step of a poll of a login.
pub type LoginPollStep = Step<LoginPoll, LoginPollRequest, LoginPollEnd>;

/// What follows an answer during a poll of a login.
pub type LoginPollTurn = Turn<LoginPoll, LoginPollRequest, LoginPollEnd>;

/// What follows the exchange of the device code.
pub open spec fn after_exchanged(exchange: Exchange<String>) -> LoginPollTurn {
    match exchange {
        Exchange::Refused { status, body, .. } => Turn::Done(refused_poll(status, body)),
        _ => match answer(
            exchange,
            "polling workspace login",
            "reading workspace session token",
        ) {
            Err(error) => Turn::Done(Err(error)),
            Ok(token) => if is_token(token@) {
                Turn::Ask {
                    state: LoginPoll::Session { token },
                    request: LoginPollRequest::LoadSession,
                }
            } else {
                Turn::Done(
                    Err(
                        AppError::Network(
                            Text::Plain("workspace login returned an invalid session token"),
                        ),
                    ),
                )
            },
        },
    }
}

fn take_exchanged(exchange: Exchange<String>) -> (r: LoginPollStep)
    ensures
        r.says((Seq::empty(), after_exchanged(exchange))),
{
    match exchange {
        Exchange::Refused { status, body, .. } => done(read_refused_poll(status, body)),
        other => match take_answer(
            other,
            "polling workspace login",
            "reading workspace session token",
        ) {
            Err(error) => done(Err(error)),
            Ok(token) => {
                if valid_token(token.as_str()) {
                    ask(LoginPoll::Session { token }, LoginPollRequest::LoadSession)
                } else {
                    done(
                        Err(
                            AppError::Network(
                                Text::Plain("workspace login returned an invalid session token"),
                            ),
                        ),
                    )
                }
            },
        },
    }
}

impl LoginPoll {
    /// Whether `reply` answers what is awaited.
    pub open spec fn awaits(self, reply: LoginPollReply) -> bool {
        match self {
            LoginPoll::Exchanged => reply is Exchanged,
            LoginPoll::Session { .. } => reply is Session,
            LoginPoll::Stored { .. } => reply is Stored,
        }
    }

    /// The turn that follows `reply`. Nobody counts as signed in before the control plane
    /// has confirmed the token and the token is kept.
    pub open spec fn after(self, reply: LoginPollReply) -> LoginPollTurn {
        match self {
            LoginPoll::Exchanged => after_exchanged(reply->Exchanged_0),
            LoginPoll::Session { token } => match session_owner(reply->Session_0) {
                Err(error) => Turn::Done(Err(error)),
                Ok(None) => Turn::Done(
                    Err(
                        AppError::Network(
                            Text::Plain("workspace login returned an inactive session"),
                        ),
                    ),
                ),
                Ok(Some(user)) => Turn::Ask {
                    state: LoginPoll::Stored { user },
                    request: LoginPollRequest::StoreToken { token },
                },
            },
            LoginPoll::Stored { user } => match reply->Stored_0 {
                Err(error) => Turn::Done(Err(error)),
                Ok(_) => Turn::Done(
                    Ok(
                        WorkspaceLoginPoll {
                            status: WorkspaceLoginPollStatus::SignedIn,
                            user: Some(user),
                        },
                    ),
                ),
            },
        }
    }

    /// Begins to poll a login. A code that is not well formed is never sent.
    pub fn poll_login(device_code: String) -> (r: LoginPollStep)
        ensures
            r.says(
                (
                    Seq::empty(),
                    if is_device_code(device_code@) {
                        Turn::Ask {
                            state: LoginPoll::Exchanged,
                            request: LoginPollRequest::Exchange { device_code },
                        }
                    } else {
                        Turn::Done(
                            Err(AppError::Config(Text::Plain("invalid workspace device code"))),
                        )
                    },
                ),
            ),
    {
        if valid_device_code(device_code.as_str()) {
            ask(LoginPoll::Exchanged, LoginPollRequest::Exchange { device_code })
        } else {
            done(Err(AppError::Config(Text::Plain("invalid workspace device code"))))
        }
    }

    /// Takes the answer to the last question.
    pub fn advance(self, reply: LoginPollReply) -> (r: LoginPollStep)
        requires
            self.awaits(reply),
        ensures
            r.says((Seq::empty(), self.after(reply))),
    {
        match (self, reply) {
            (LoginPoll::Exchanged, LoginPollReply::Exchanged(exchange)) => take_exchanged(exchange),
            (LoginPoll::Session { token }, LoginPollReply::Session(exchange)) =>
            match session_for_token(exchange) {
                Err(error) => done(Err(error)),
                Ok(None) => done(
                    Err(
                        AppError::Network(
                            Text::Plain("workspace login returned an inactive session"),
                        ),
                    ),
                ),
                Ok(Some(user)) => ask(
                    LoginPoll::Stored { user },
                    LoginPollRequest::StoreToken { token },
                ),
            },
            (LoginPoll::Stored { user }, LoginPollReply::Stored(reply)) => match reply {
                Err(error) => done(Err(error)),
                Ok(_) => done(
                    Ok(
                        WorkspaceLoginPoll {
                            status: WorkspaceLoginPollStatus::SignedIn,
                            user: Some(user),
                        },
                    ),
                ),
            },
            _ => unreached(),
        }
    }
}

/// A poll reports someone as signed in only after the token was kept, and the token that is
/// kept is fit.
pub proof fn signed_in_means_token_kept(state: LoginPoll, reply: LoginPollReply)
    requires
        state.awaits(reply),
    ensures
        state.after(reply) matches Turn::Done(Ok(poll)) && poll.status
            == WorkspaceLoginPollStatus::SignedIn ==> state is Stored && reply->Stored_0 is Ok,
        state is Exchanged ==> (state.after(reply) matches Turn::Ask { state: next, .. } ==> (
        next matches LoginPoll::Session { token } && is_token(token@))),
{
}

} // verus!
