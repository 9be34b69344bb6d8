//! What signing in and asking the control plane comes to, in every run.
use vstd::prelude::*;

use crate::error::{AppError, AppResult};
use crate::ids::hyphenated;
use crate::model::WorkspaceAuthUser;
use crate::services::effects::Turn;
use crate::services::workspace::accounts::WorkspaceLoginPollStatus;
use crate::text::{begins_with, byte_count, is_white_space, Text};
use crate::workspace_auth::exchange::{
    answer, is_success, revocation, session_for_token, Exchange, OAuthErrorResponse, SessionCall,
    SessionCallReply, SessionCallRequest, SessionCallStep, SessionCallTurn, SessionCheck,
    SessionCheckReply, SessionCheckRequest, SessionCheckStep, SessionEnd, SessionEndReply,
    SessionEndRequest, SessionEndStep,
};
use crate::workspace_auth::login::{
    begin_login, is_device_code, is_token, DESKTOP_CLIENT_ID, DEVICE_GRANT, DeviceCodeResponse,
    LoginPoll, LoginPollReply, LoginPollRequest, LoginPollStep, LoginPollTurn,
    WorkspaceDeviceAuthorization,
};
use crate::workspace_auth::origin::{
    console_url, is_origin, origin_verdict, parsed_url, raw_origin, without_slashes,
    workspace_fragment, workspace_query, UrlTexts,
};

verus! {

/// A device code is forty bytes of ASCII letters and digits, and a token is between twenty
/// and four thousand and ninety-six bytes without white space.
pub proof fn codes_and_tokens_are_well_formed(text: Seq<char>)
    ensures
        is_device_code(text) <==> byte_count(text) == 40 && forall|i: int|
            0 <= i < text.len() ==> {
                let c = #[trigger] text[i];
                ('a' <= c && c <= 'z') || ('A' <= c && c <= 'Z') || ('0' <= c && c <= '9')
            },
        is_token(text) <==> 20 <= byte_count(text) && byte_count(text) <= 4096 && forall|i: int|
            0 <= i < text.len() ==> !is_white_space(#[trigger] text[i]),
{
    assert(is_device_code(text) ==> forall|i: int|
        0 <= i < text.len() ==> {
            let c = #[trigger] text[i];
            ('a' <= c && c <= 'z') || ('A' <= c && c <= 'Z') || ('0' <= c && c <= '9')
        });
}

/// A login is started with what the control plane answered, unless the code is not well
/// formed, the page is not on the control plane's own origin, or one of the times is out of
/// bounds: a pause of one to sixty seconds, and a lifetime of at most an hour.
pub proof fn logins_start_with_what_was_answered(origin: &str, value: DeviceCodeResponse)
    ensures
        forall|r: AppResult<WorkspaceDeviceAuthorization>| #[trigger]
            call_ensures(begin_login, (origin, Exchange::Answered(value)), r) ==> {
                let page = origin@ + "/auth/device?user_code="@;
                &&& r is Ok <==> is_device_code(value.device_code@) && page.is_prefix_of(
                    value.verification_uri_complete@,
                ) && 1 <= value.interval <= 60 && 1 <= value.expires_in <= 3600
                &&& r matches Ok(told) ==> {
                    &&& told.device_code == value.device_code
                    &&& told.user_code == value.user_code
                    &&& told.verification_uri_complete == value.verification_uri_complete
                    &&& told.expires_in == value.expires_in
                    &&& told.interval == value.interval
                }
                &&& r matches Err(error) ==> error == AppError::Network(
                    Text::Plain("workspace login returned an invalid device authorization response"),
                )
            },
{
    let page = origin@ + "/auth/device?user_code="@;
    let given = value.verification_uri_complete@;
    assert(page.is_prefix_of(given) <==> begins_with(given, page)) by {
        if page.len() <= given.len() {
            assert(given.subrange(0, page.len() as int) =~= page <==> page.is_prefix_of(given));
        }
    }
}

/// A poll of a login from its beginning, told by what was given and answered. Only a well
/// formed code is sent, and it is the one that was given. A refusal tells how far the login
/// has come, by its error; a token is put to the control plane, and what is kept is that
/// token, once somebody's session is behind it; and that somebody is who is signed in.
#[verifier::spinoff_prover]
#[verifier::rlimit(40)]
pub proof fn polls_keep_the_token_that_was_answered(
    device_code: String,
    begun: LoginPollStep,
    code: u16,
    status: String,
    body: OAuthErrorResponse,
    printed: String,
    token: String,
    user: WorkspaceAuthUser,
    error: AppError,
)
    requires
        call_ensures(LoginPoll::poll_login, (device_code,), begun),
    ensures
        begun.effects@.len() == 0,
        if !is_device_code(device_code@) {
            begun.turn matches Turn::Done(Err(AppError::Config(text))) && text == Text::Plain(
                "invalid workspace device code",
            )
        } else {
            let refused = begun.turn->state.after(
                LoginPollReply::Exchanged(Exchange::Refused { code, status, body: Ok(body) }),
            );
            let checking = begun.turn->state.after(
                LoginPollReply::Exchanged(Exchange::Answered(token)),
            );
            let keeping = checking->state.after(LoginPollReply::Session(Exchange::Answered(user)));
            &&& begun.turn matches Turn::Ask {
                request: LoginPollRequest::Exchange { device_code: sent },
                ..
            } && sent == device_code
            &&& (match body.error {
                Some(name) => {
                    &&& name@ == "authorization_pending"@ ==> told_status(
                        refused,
                        WorkspaceLoginPollStatus::Pending,
                    )
                    &&& name@ == "slow_down"@ ==> told_status(
                        refused,
                        WorkspaceLoginPollStatus::SlowDown,
                    )
                    &&& name@ == "access_denied"@ ==> told_status(
                        refused,
                        WorkspaceLoginPollStatus::Denied,
                    )
                    &&& name@ == "expired_token"@ || name@ == "invalid_grant"@ ==> told_status(
                        refused,
                        WorkspaceLoginPollStatus::Expired,
                    )
                    &&& name@ != "authorization_pending"@ && name@ != "slow_down"@ && name@
                        != "access_denied"@ && name@ != "expired_token"@ && name@
                        != "invalid_grant"@ ==> refused matches Turn::Done(Err(AppError::Network(_)))
                },
                None => refused matches Turn::Done(Err(AppError::Network(_))),
            })
            &&& begun.turn->state.after(
                LoginPollReply::Exchanged(Exchange::NotReached(printed)),
            ) matches Turn::Done(Err(AppError::Network(text))) && text@
                == "polling workspace login"@ + " failed: "@ + printed@
            &&& if !is_token(token@) {
                checking matches Turn::Done(Err(AppError::Network(text))) && text == Text::Plain(
                    "workspace login returned an invalid session token",
                )
            } else {
                &&& checking matches Turn::Ask { request: LoginPollRequest::LoadSession, .. }
                &&& checking->state.after(
                    LoginPollReply::Session(
                        Exchange::Refused { code: 401, status, body: Ok(body) },
                    ),
                ) matches Turn::Done(Err(AppError::Network(text))) && text == Text::Plain(
                    "workspace login returned an inactive session",
                )
                &&& keeping matches Turn::Ask {
                    request: LoginPollRequest::StoreToken { token: kept },
                    ..
                } && kept == token
                &&& keeping->state.after(LoginPollReply::Stored(Err(error))) matches Turn::Done(
                    Err(told),
                ) && told == error
                &&& keeping->state.after(LoginPollReply::Stored(Ok(()))) matches Turn::Done(Ok(poll))
                    && poll.status == WorkspaceLoginPollStatus::SignedIn && poll.user == Some(user)
            }
        },
{
    reveal_strlit("authorization_pending");
    reveal_strlit("slow_down");
    reveal_strlit("access_denied");
    reveal_strlit("expired_token");
    reveal_strlit("invalid_grant");
    assert("access_denied"@[0] == 'a' && "expired_token"@[0] == 'e' && "invalid_grant"@[0] == 'i');
    assert("authorization_pending"@.len() == 21 && "slow_down"@.len() == 9);
    assert("access_denied"@.len() == 13 && "expired_token"@.len() == 13);
}

/// Whether a poll ends with this status and nobody signed in.
pub open spec fn told_status(
    turn: LoginPollTurn,
    status: WorkspaceLoginPollStatus,
) -> bool {
    turn matches Turn::Done(Ok(poll)) && poll.status == status && poll.user is None
}

/// What an exchange comes to: the answer, or an error that tells what failed. A refusal is
/// told with its status and with what it says to people, the description before the
/// message; and codes from two hundred up to but not at three hundred are no refusals.
pub proof fn exchanges_are_told_as_they_went<T>(
    error: AppError,
    printed: String,
    code: u16,
    status: String,
    body: OAuthErrorResponse,
    value: T,
    sending: &'static str,
    reading: &'static str,
)
    ensures
        answer(Exchange::<T>::NotMade(error), sending, reading) == Err::<T, AppError>(error),
        answer(Exchange::<T>::NotReached(printed), sending, reading) matches Err(
            AppError::Network(text),
        ) && text@ == sending@ + " failed: "@ + printed@,
        answer(Exchange::<T>::Unreadable(printed), sending, reading) matches Err(
            AppError::Network(text),
        ) && text@ == reading@ + " failed: "@ + printed@,
        answer(Exchange::Answered(value), sending, reading) == Ok::<T, AppError>(value),
        answer(
            Exchange::<T>::Refused { code, status, body: Err(printed) },
            sending,
            reading,
        ) matches Err(AppError::Network(text)) && text@ == "workspace authentication returned "@
            + status@ + ": the control plane rejected the request"@,
        answer(
            Exchange::<T>::Refused { code, status, body: Ok(body) },
            sending,
            reading,
        ) matches Err(AppError::Network(text)) && text@ == "workspace authentication returned "@
            + status@ + match (body.error_description, body.message) {
            (Some(description), _) => ": "@ + description@,
            (None, Some(message)) => ": "@ + message@,
            (None, None) => ": the control plane rejected the request"@,
        },
        forall|r: bool| #[trigger]
            call_ensures(is_success, (code,), r) ==> (r <==> 200 <= code && code < 300),
{
    let before = "workspace authentication returned "@;
    let between = ": "@;
    match (body.error_description, body.message) {
        (Some(text), _) => {
            assert(before + status@ + between + text@ =~= before + status@ + (between + text@));
        },
        (None, Some(text)) => {
            assert(before + status@ + between + text@ =~= before + status@ + (between + text@));
        },
        _ => {},
    }
}

/// A token that the control plane refuses as unauthorized stands for nobody's session, and
/// its session is as good as revoked; any other refusal is an error.
pub proof fn unauthorized_sessions_are_over(
    status: String,
    body: Result<OAuthErrorResponse, String>,
    code: u16,
    user: WorkspaceAuthUser,
)
    ensures
        forall|r: AppResult<Option<WorkspaceAuthUser>>| #[trigger]
            call_ensures(session_for_token, (Exchange::Refused { code, status, body },), r) ==> (if code
                == 401 {
                r == Ok::<Option<WorkspaceAuthUser>, AppError>(None)
            } else {
                r is Err
            }),
        forall|r: AppResult<Option<WorkspaceAuthUser>>| #[trigger]
            call_ensures(session_for_token, (Exchange::Answered(user),), r) ==> r == Ok::<
                _,
                AppError,
            >(Some(user)),
        forall|r: AppResult<()>| #[trigger]
            call_ensures(revocation, (Exchange::Refused { code, status, body },), r) ==> (r is Ok
                <==> code == 401),
        forall|r: AppResult<()>| #[trigger]
            call_ensures(revocation, (Exchange::Answered(()),), r) ==> r is Ok,
{
}

/// The stored session is validated by the control plane: whoever it names is signed in, and
/// a token that it refuses as unauthorized is forgotten, whereupon nobody is.
pub proof fn the_stored_session_is_validated(
    begun: SessionCheckStep,
    user: WorkspaceAuthUser,
    status: String,
    body: Result<OAuthErrorResponse, String>,
    error: AppError,
)
    requires
        call_ensures(SessionCheck::auth_state, (), begun),
    ensures
        ({
            let asking = begun.turn->state.after(SessionCheckReply::Token(Ok(true)));
            let over = asking->state.after(
                SessionCheckReply::Session(Exchange::Refused { code: 401, status, body }),
            );
            &&& begun.effects@.len() == 0
            &&& begun.turn matches Turn::Ask { request: SessionCheckRequest::FetchToken, .. }
            &&& begun.turn->state.after(SessionCheckReply::Token(Err(error))) matches Turn::Done(
                Err(told),
            ) && told == error
            &&& begun.turn->state.after(SessionCheckReply::Token(Ok(false))) matches Turn::Done(
                Ok(told),
            ) && !told.authenticated && told.user is None
            &&& asking matches Turn::Ask { request: SessionCheckRequest::LoadSession, .. }
            &&& asking->state.after(
                SessionCheckReply::Session(Exchange::Answered(user)),
            ) matches Turn::Done(Ok(told)) && told.authenticated && told.user == Some(user)
            &&& asking->state.after(
                SessionCheckReply::Session(Exchange::NotMade(error)),
            ) matches Turn::Done(Err(told)) && told == error
            &&& over matches Turn::Ask { request: SessionCheckRequest::DeleteToken, .. }
            &&& over->state.after(SessionCheckReply::Deleted(Err(error))) matches Turn::Done(
                Err(told),
            ) && told == error
            &&& over->state.after(SessionCheckReply::Deleted(Ok(()))) matches Turn::Done(Ok(told))
                && !told.authenticated && told.user is None
        }),
{
}

/// Ending the stored session revokes it where there is one, and forgets the token in any
/// case; how that went is what is told.
pub proof fn the_stored_session_is_ended(
    begun: SessionEndStep,
    revoked: Exchange<()>,
    end: Result<(), AppError>,
    error: AppError,
)
    requires
        call_ensures(SessionEnd::sign_out, (), begun),
    ensures
        ({
            let revoking = begun.turn->state.after(SessionEndReply::Token(Ok(true)));
            let forgetting = revoking->state.after(SessionEndReply::Revoked(revoked));
            &&& begun.effects@.len() == 0
            &&& begun.turn matches Turn::Ask { request: SessionEndRequest::FetchToken, .. }
            &&& begun.turn->state.after(SessionEndReply::Token(Err(error))) matches Turn::Done(
                Err(told),
            ) && told == error
            &&& revoking matches Turn::Ask { request: SessionEndRequest::Revoke, .. }
            &&& forgetting matches Turn::Ask { request: SessionEndRequest::DeleteToken, .. }
            &&& begun.turn->state.after(SessionEndReply::Token(Ok(false))) == forgetting
            &&& forgetting->state.after(SessionEndReply::Deleted(end)) matches Turn::Done(told)
                && told == end
        }),
{
}

/// Whether a request that needs a session goes about it like this: without a token it fails
/// with this wording; an answer is told as it is; a session that is refused as unauthorized
/// is forgotten where it is to be, and then told in this wording or as the refusal; and a
/// missing route is no answer where it may be missing, and else a refusal.
pub open spec fn goes_about_it<T>(
    begun: SessionCallStep<T>,
    missing: &'static str,
    sending: &'static str,
    reading: &'static str,
    forgets: bool,
    over: Option<&'static str>,
    may_be_absent: bool,
) -> bool {
    let asking: SessionCallTurn<T> = begun.turn->state.after(SessionCallReply::Token(Ok(true)));
    &&& begun.effects@.len() == 0
    &&& begun.turn matches Turn::Ask { request: SessionCallRequest::FetchToken, .. }
    &&& begun.turn->state.after::<T>(SessionCallReply::Token(Ok(false))) matches Turn::Done(
        Err(AppError::Config(text)),
    ) && text == Text::Plain(missing)
    &&& asking matches Turn::Ask { request: SessionCallRequest::Exchange, .. }
    &&& forall|exchange: Exchange<T>|
        {
            let told = #[trigger] asking->state.after(SessionCallReply::Exchanged(exchange));
            let unauthorized = exchange matches Exchange::Refused { code, .. } && code == 401;
            let absent = exchange matches Exchange::Refused { code, .. } && code == 404;
            if absent && may_be_absent {
                told == SessionCallTurn::<T>::Done(Ok(None))
            } else if unauthorized && forgets {
                &&& told matches Turn::Ask { state, request: SessionCallRequest::DeleteToken }
                &&& state.after::<T>(SessionCallReply::Forgotten(Ok(()))) == SessionCallTurn::<
                    T,
                >::Done(
                    Err(
                        match over {
                            Some(wording) => AppError::Network(Text::Plain(wording)),
                            None => answer(exchange, sending, reading)->Err_0,
                        },
                    ),
                )
            } else {
                match answer(exchange, sending, reading) {
                    Ok(value) => told == SessionCallTurn::<T>::Done(Ok(Some(value))),
                    Err(error) => told == SessionCallTurn::<T>::Done(Err(error)),
                }
            }
        }
}

/// How the four requests that need a session go about it.
pub proof fn requests_keep_to_their_rules<T>(
    workspaces: SessionCallStep<T>,
    connections: SessionCallStep<T>,
    sharing: SessionCallStep<T>,
    authorizing: SessionCallStep<T>,
)
    requires
        call_ensures(SessionCall::remote_workspaces::<T>, (), workspaces),
        call_ensures(SessionCall::remote_connections::<T>, (), connections),
        call_ensures(SessionCall::share_connection::<T>, (), sharing),
        call_ensures(SessionCall::authorize_connection::<T>, (), authorizing),
    ensures
        goes_about_it(
            workspaces,
            "workspace memberships require an authenticated session",
            "loading workspace memberships",
            "reading workspace memberships",
            true,
            Some("workspace session is no longer active"),
            false,
        ),
        goes_about_it(
            connections,
            "shared connections require an authenticated session",
            "loading shared connections",
            "reading shared connections",
            true,
            None,
            true,
        ),
        goes_about_it(
            sharing,
            "sharing a connection requires an authenticated session",
            "sharing connection",
            "reading shared connection",
            false,
            None,
            false,
        ),
        goes_about_it(
            authorizing,
            "shared connection access requires an authenticated session",
            "authorizing shared connection",
            "authorizing shared connection",
            true,
            None,
            false,
        ),
{
}

/// An origin is taken exactly where it is an HTTPS one with nothing behind the host, or,
/// while debugging, a plain HTTP one to this machine. A text that is no URL and one that is
/// no origin are told apart. The default one is `https://app.dopedb.dev`, and slashes at the
/// end of a configured one do not matter.
pub proof fn origins_are_bare_and_secure(
    url: UrlTexts,
    debug: bool,
    configured: Option<String>,
    workspace_id: Option<u128>,
)
    ensures
        is_origin(url, debug) <==> url.username == ""@ && url.password is None && url.path == "/"@
            && url.query is None && url.fragment is None && (url.scheme == "https"@ || (debug
            && url.scheme == "http"@ && (url.host == Some("localhost"@) || url.host == Some(
            "127.0.0.1"@,
        ) || url.host == Some("[::1]"@)))),
        origin_verdict(Some(url), debug) is None <==> is_origin(url, debug),
        origin_verdict(None, debug) matches Some(reason) && reason@
            == "workspace control-plane origin is invalid"@,
        !is_origin(url, debug) ==> (origin_verdict(Some(url), debug) matches Some(reason) && reason@
            == "workspace control-plane origin must be an HTTPS origin"@),
        configured is None ==> raw_origin(configured) == "https://app.dopedb.dev"@,
        configured matches Some(text) ==> raw_origin(configured) == without_slashes(text@),
        workspace_id is None ==> workspace_query(workspace_id) is None && workspace_fragment(
            workspace_id,
        ) == "workspaces"@,
        workspace_id matches Some(id) ==> workspace_query(workspace_id) == Some(
            "workspace"@ + seq!['='] + hyphenated(id),
        ) && workspace_fragment(workspace_id) == "workspace-"@ + hyphenated(id),
{
    reveal_strlit("https://app.dopedb.dev");
}

/// What is left of a text without the slashes at its end: a part of it from its beginning,
/// behind which there were only slashes, and which ends in none.
pub proof fn only_slashes_are_taken_off(text: Seq<char>)
    ensures
        without_slashes(text).is_prefix_of(text),
        forall|i: int| without_slashes(text).len() <= i < text.len() ==> #[trigger] text[i] == '/',
        without_slashes(text).len() > 0 ==> without_slashes(text).last() != '/',
    decreases text.len(),
{
    if text.len() > 0 && text.last() == '/' {
        only_slashes_are_taken_off(text.drop_last());
        let rest = text.drop_last();
        assert forall|i: int| without_slashes(text).len() <= i < text.len() implies #[trigger] text[i]
            == '/' by {
            if i < rest.len() {
                assert(rest[i] == text[i]);
            }
        }
    }
}

/// The page of the console is on the origin that is configured, or on the default one: its
/// path is the settings', its query and its fragment name the workspace, or there is no
/// query and the fragment names the list.
pub proof fn the_console_is_on_the_origin(
    configured: Option<String>,
    debug: bool,
    workspace_id: Option<u128>,
    page: String,
)
    requires
        call_ensures(
            console_url,
            (configured, debug, workspace_id),
            Ok::<String, AppError>(page),
        ),
    ensures
        ({
            let base = parsed_url(raw_origin(configured));
            let found = parsed_url(page@);
            &&& base is Some && is_origin(base->0, debug)
            &&& found is Some
            &&& found->0.scheme == base->0.scheme && found->0.host == base->0.host
            &&& found->0.username == ""@ && found->0.password is None
            &&& found->0.path == "/settings"@
            &&& match workspace_id {
                Some(id) => found->0.query == Some("workspace"@ + seq!['='] + hyphenated(id))
                    && found->0.fragment == Some("workspace-"@ + hyphenated(id)),
                None => found->0.query is None && found->0.fragment == Some("workspaces"@),
            }
        }),
{
}

/// What a poll, a start and a check of a session say where they fail: what was being done,
/// and what the control plane said of it.
pub proof fn failures_say_what_was_done(
    origin: &str,
    code: u16,
    status: String,
    body: OAuthErrorResponse,
    printed: String,
)
    ensures
        LoginPoll::Exchanged.after(
            LoginPollReply::Exchanged(Exchange::Refused { code, status, body: Err(printed) }),
        ) matches Turn::Done(Err(AppError::Network(text))) && text@
            == "reading workspace login status"@ + " failed: "@ + printed@,
        LoginPoll::Exchanged.after(
            LoginPollReply::Exchanged(Exchange::Unreadable(printed)),
        ) matches Turn::Done(Err(AppError::Network(text))) && text@
            == "reading workspace session token"@ + " failed: "@ + printed@,
        body.error is None ==> (LoginPoll::Exchanged.after(
            LoginPollReply::Exchanged(Exchange::Refused { code, status, body: Ok(body) }),
        ) matches Turn::Done(Err(AppError::Network(text))) && text@ == "workspace login returned "@
            + status@ + match (body.error_description, body.message) {
            (Some(description), _) => ": "@ + description@,
            (None, Some(message)) => ": "@ + message@,
            (None, None) => ": the control plane rejected the request"@,
        }),
        forall|r: AppResult<WorkspaceDeviceAuthorization>| #[trigger]
            call_ensures(begin_login, (origin, Exchange::NotReached(printed)), r) ==> (
            r matches Err(AppError::Network(text)) && text@ == "starting workspace login"@
                + " failed: "@ + printed@),
        forall|r: AppResult<WorkspaceDeviceAuthorization>| #[trigger]
            call_ensures(begin_login, (origin, Exchange::Unreadable(printed)), r) ==> (
            r matches Err(AppError::Network(text)) && text@ == "reading workspace login response"@
                + " failed: "@ + printed@),
        forall|r: AppResult<Option<WorkspaceAuthUser>>| #[trigger]
            call_ensures(session_for_token, (Exchange::NotReached(printed),), r) ==> (
            r matches Err(AppError::Network(text)) && text@ == "checking workspace session"@
                + " failed: "@ + printed@),
        forall|r: AppResult<Option<WorkspaceAuthUser>>| #[trigger]
            call_ensures(session_for_token, (Exchange::Unreadable(printed),), r) ==> (
            r matches Err(AppError::Network(text)) && text@ == "reading workspace session"@
                + " failed: "@ + printed@),
        forall|r: AppResult<()>| #[trigger]
            call_ensures(revocation, (Exchange::NotReached(printed),), r) ==> (r matches Err(
                AppError::Network(text),
            ) && text@ == "revoking workspace session"@ + " failed: "@ + printed@),
{
    let before = "workspace login returned "@;
    let between = ": "@;
    match (body.error_description, body.message) {
        (Some(text), _) => {
            assert(before + status@ + between + text@ =~= before + status@ + (between + text@));
        },
        (None, Some(text)) => {
            assert(before + status@ + between + text@ =~= before + status@ + (between + text@));
        },
        _ => {},
    }
}

/// The desktop signs in under its own name, with the grant for device codes.
pub proof fn the_desktop_signs_in_under_its_name()
    ensures
        DESKTOP_CLIENT_ID@ == "dopedb-desktop"@,
        DEVICE_GRANT@ == "urn:ietf:params:oauth:grant-type:device_code"@,
{
}

} // verus!
