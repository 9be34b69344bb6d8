//! Binding a member's own database credential to a shared connection.
use vstd::pervasive::unreached;
use vstd::prelude::*;
use vstd::string::*;

use crate::error::{AppError, AppResult};
use crate::ids::{parse_id, parsed_id};
use crate::model::{
    ConnectionAccess, ConnectionProfile, WorkspaceConnectionAccess, WorkspaceCredentialMode,
};
use crate::services::effects::{ask, done, Effect, Step, Turn};
use crate::text::{byte_count, byte_len, trim, trimmed, Text};

verus! {

/// The longest credential that is taken, in bytes.
pub const MAX_CONNECTION_CREDENTIAL_BYTES: usize = 65_536;

/// The longest user name that is taken, in bytes.
pub const MAX_USERNAME_BYTES: usize = 320;

/// The control characters of Unicode.
pub open spec fn is_control(c: char) -> bool {
    c <= '\u{1f}' || '\u{7f}' <= c <= '\u{9f}'
}

/// Whether a text holds a control character.
pub open spec fn has_control(text: Seq<char>) -> bool {
    exists|i: int| 0 <= i < text.len() && is_control(#[trigger] text[i])
}

/// Computes [`has_control`].
pub fn contains_control(text: &str) -> (r: bool)
    ensures
        r == has_control(text@),
{
    let n: usize = text.unicode_len();
    let mut i: usize = 0;
    while i < n
        invariant
            n == text@.len(),
            i <= n,
            forall|k: int| 0 <= k < i ==> !is_control(#[trigger] text@[k]),
        decreases n - i,
    {
        let c = text.get_char(i);
        if c <= '\u{1f}' || ('\u{7f}' <= c && c <= '\u{9f}') {
            assert(is_control(text@[i as int]));
            return true;
        }
        i = i + 1;
    }
    false
}

/// Whether a user name and a password may be bound: the trimmed name is short enough and
/// free of control characters, and the password is neither empty nor too long.
pub open spec fn credential_problem(username: Seq<char>, password: Seq<char>) -> Option<AppError> {
    let name = trimmed(username);
    if byte_count(name) > MAX_USERNAME_BYTES || has_control(name) {
        Some(AppError::Config(Text::Plain("username is invalid")))
    } else if password.len() == 0 || byte_count(password) > MAX_CONNECTION_CREDENTIAL_BYTES {
        Some(
            AppError::Config(
                Text::Plain("connection credential is empty or exceeds the size limit"),
            ),
        )
    } else {
        None
    }
}

/// The trimmed user name, if it and the password may be bound.
pub fn check_credential(username: &str, password: &str) -> (r: AppResult<String>)
    ensures
        match credential_problem(username@, password@) {
            Some(error) => r == Err::<String, AppError>(error),
            None => r is Ok && r->Ok_0@ == trimmed(username@),
        },
{
    let name = trim(username);
    if byte_len(name) > MAX_USERNAME_BYTES || contains_control(name) {
        return Err(AppError::Config(Text::Plain("username is invalid")));
    }
    if password.is_empty() || byte_len(password) > MAX_CONNECTION_CREDENTIAL_BYTES {
        return Err(
            AppError::Config(
                Text::Plain("connection credential is empty or exceeds the size limit"),
            ),
        );
    }
    Ok(name.to_owned())
}

/// What is known of a connection that is about to change.
#[derive(PartialEq, Eq)]
pub struct MutationPin {
    pub workspace_access: WorkspaceConnectionAccess,
    pub credential_mode: WorkspaceCredentialMode,
    pub secret_ref: Option<String>,
    pub extra_params: Vec<(String, String)>,
    pub selected_account_id: Option<String>,
}

/// Why a credential may not be bound to a connection, if it may not.
pub open spec fn binding_problem(pin: MutationPin) -> Option<AppError> {
    if pin.workspace_access == WorkspaceConnectionAccess::Local {
        Some(AppError::Config(Text::Plain("connection is not a shared workspace template")))
    } else if pin.credential_mode != WorkspaceCredentialMode::MemberLocal {
        Some(
            AppError::Blocked {
                reason: Text::Plain(
                    "this shared connection uses automatically managed credentials",
                ),
            },
        )
    } else if !pin.workspace_access.spec_can_read() {
        Some(
            AppError::Blocked {
                reason: Text::Plain("your workspace role cannot execute this connection"),
            },
        )
    } else if pin.selected_account_id is None {
        Some(AppError::Config(Text::Plain("no active workspace account")))
    } else if pin.secret_ref is Some && parsed_id(pin.secret_ref->0@) is Err {
        Some(AppError::Config(Text::Plain("connection secret reference is invalid")))
    } else {
        None
    }
}

/// The credential that the connection had before, if it had one.
pub open spec fn previous_credential(pin: MutationPin) -> Option<u128> {
    match pin.secret_ref {
        Some(text) => match parsed_id(text@) {
            Ok(id) => Some(id),
            Err(_) => None,
        },
        None => None,
    }
}

/// Checks that a credential may be bound, and names the account and the credential that
/// it replaces.
pub fn check_binding(pin: &MutationPin) -> (r: AppResult<(String, Option<u128>)>)
    ensures
        match binding_problem(*pin) {
            Some(error) => r == Err::<(String, Option<u128>), AppError>(error),
            None => r == Ok::<(String, Option<u128>), AppError>(
                (pin.selected_account_id->0, previous_credential(*pin)),
            ),
        },
{
    if pin.workspace_access == WorkspaceConnectionAccess::Local {
        return Err(AppError::Config(Text::Plain("connection is not a shared workspace template")));
    }
    if pin.credential_mode != WorkspaceCredentialMode::MemberLocal {
        return Err(
            AppError::Blocked {
                reason: Text::Plain(
                    "this shared connection uses automatically managed credentials",
                ),
            },
        );
    }
    if !pin.workspace_access.can_read() {
        return Err(
            AppError::Blocked {
                reason: Text::Plain("your workspace role cannot execute this connection"),
            },
        );
    }
    let account = match &pin.selected_account_id {
        Some(account) => account.clone(),
        None => {
            return Err(AppError::Config(Text::Plain("no active workspace account")));
        },
    };
    let previous = match &pin.secret_ref {
        Some(text) => match parse_id(text.as_str()) {
            Ok(id) => Some(id),
            Err(_) => {
                return Err(AppError::Config(Text::Plain("connection secret reference is invalid")));
            },
        },
        None => None,
    };
    Ok((account, previous))
}

/// Where a binding stands: what it is waiting to hear.
#[derive(PartialEq, Eq)]
pub enum CredentialBinding {
    Mutation { connection_id: u128, username: String, password: String },
    Stored {
        connection_id: u128,
        username: String,
        account_user_id: String,
        extra_params: Vec<(String, String)>,
        previous: Option<u128>,
        credential_id: u128,
    },
    Bound { connection_id: u128, previous: Option<u128>, credential_id: u128 },
}

/// What a binding asks of the outside world.
#[derive(PartialEq, Eq)]
pub enum CredentialBindingRequest {
    /// Take the connection's mutation guard, and draw a fresh id for the credential.
    BeginMutation { connection_id: u128, access: ConnectionAccess },
    /// Put this secret into the credential store under this id.
    StoreSecret { credential_id: u128, secret: String },
    /// Save the account's binding.
    Bind {
        connection_id: u128,
        account_user_id: String,
        username: String,
        extra_params: Vec<(String, String)>,
        credential_id: u128,
    },
}

/// What the outside world answers.
#[derive(PartialEq, Eq)]
pub enum CredentialBindingReply {
    Mutation { pin: Result<MutationPin, AppError>, fresh_id: u128 },
    Stored(Result<(), AppError>),
    Bound(Result<ConnectionProfile, AppError>),
}

/// How a binding ends.
pub type CredentialBindingEnd = Result<ConnectionProfile, AppError>;

/// A step of a binding.
pub type CredentialBindingStep = Step<
    CredentialBinding,
    CredentialBindingRequest,
    CredentialBindingEnd,
>;

/// What follows an answer in a binding.
pub type CredentialBindingTurn = Turn<
    CredentialBinding,
    CredentialBindingRequest,
    CredentialBindingEnd,
>;

/// What follows once the connection was guarded. The credential is always stored under a
/// fresh id, so a binding never changes what an earlier one refers to.
pub open spec fn after_mutation(
    connection_id: u128,
    username: String,
    password: String,
    pin: Result<MutationPin, AppError>,
    fresh_id: u128,
) -> (Seq<Effect>, CredentialBindingTurn) {
    (
        Seq::empty(),
        match pin {
            Err(error) => Turn::Done(Err(error)),
            Ok(pin) => match binding_problem(pin) {
                Some(error) => Turn::Done(Err(error)),
                None => Turn::Ask {
                    state: CredentialBinding::Stored {
                        connection_id,
                        username,
                        account_user_id: pin.selected_account_id->0,
                        extra_params: pin.extra_params,
                        previous: previous_credential(pin),
                        credential_id: fresh_id,
                    },
                    request: CredentialBindingRequest::StoreSecret {
                        credential_id: fresh_id,
                        secret: password,
                    },
                },
            },
        },
    )
}

fn take_mutation(
    connection_id: u128,
    username: String,
    password: String,
    pin: Result<MutationPin, AppError>,
    fresh_id: u128,
) -> (r: CredentialBindingStep)
    ensures
        r.says(after_mutation(connection_id, username, password, pin, fresh_id)),
{
    match pin {
        Err(error) => done(Err(error)),
        Ok(pin) => match check_binding(&pin) {
            Err(error) => done(Err(error)),
            Ok(checked) => ask(
                CredentialBinding::Stored {
                    connection_id,
                    username,
                    account_user_id: checked.0,
                    extra_params: pin.extra_params,
                    previous: checked.1,
                    credential_id: fresh_id,
                },
                CredentialBindingRequest::StoreSecret { credential_id: fresh_id, secret: password },
            ),
        },
    }
}

/// What follows once the password was stored.
pub open spec fn after_stored(
    connection_id: u128,
    username: String,
    account_user_id: String,
    extra_params: Vec<(String, String)>,
    previous: Option<u128>,
    credential_id: u128,
    reply: Result<(), AppError>,
) -> (Seq<Effect>, CredentialBindingTurn) {
    (
        Seq::empty(),
        match reply {
            Err(error) => Turn::Done(Err(error)),
            Ok(_) => Turn::Ask {
                state: CredentialBinding::Bound { connection_id, previous, credential_id },
                request: CredentialBindingRequest::Bind {
                    connection_id,
                    account_user_id,
                    username,
                    extra_params,
                    credential_id,
                },
            },
        },
    )
}

fn take_stored(
    connection_id: u128,
    username: String,
    account_user_id: String,
    extra_params: Vec<(String, String)>,
    previous: Option<u128>,
    credential_id: u128,
    reply: Result<(), AppError>,
) -> (r: CredentialBindingStep)
    ensures
        r.says(
            after_stored(
                connection_id,
                username,
                account_user_id,
                extra_params,
                previous,
                credential_id,
                reply,
            ),
        ),
{
    match reply {
        Err(error) => done(Err(error)),
        Ok(_) => ask(
            CredentialBinding::Bound { connection_id, previous, credential_id },
            CredentialBindingRequest::Bind {
                connection_id,
                account_user_id,
                username,
                extra_params,
                credential_id,
            },
        ),
    }
}

/// What follows once the binding was saved. Of the old and the new credential exactly one
/// is let go: the one that nothing refers to.
pub open spec fn after_bound(
    connection_id: u128,
    previous: Option<u128>,
    credential_id: u128,
    reply: Result<ConnectionProfile, AppError>,
) -> (Seq<Effect>, CredentialBindingTurn) {
    match reply {
        Ok(profile) => (
            seq![Effect::RetireConnection { connection_id }] + match previous {
                Some(previous) => seq![
                    Effect::DeleteSecret {
                        credential_id: previous,
                        action: "replace_workspace_connection_credentials",
                    },
                ],
                None => Seq::empty(),
            },
            Turn::Done(Ok(profile)),
        ),
        Err(error) => (
            seq![
                Effect::DeleteSecret { credential_id, action: "bind_connection_credentials" },
            ],
            Turn::Done(Err(error)),
        ),
    }
}

fn take_bound(
    connection_id: u128,
    previous: Option<u128>,
    credential_id: u128,
    reply: Result<ConnectionProfile, AppError>,
) -> (r: CredentialBindingStep)
    ensures
        r.says(after_bound(connection_id, previous, credential_id, reply)),
{
    let mut effects: Vec<Effect> = Vec::new();
    match reply {
        Ok(profile) => {
            effects.push(Effect::RetireConnection { connection_id });
            if let Some(previous) = previous {
                effects.push(
                    Effect::DeleteSecret {
                        credential_id: previous,
                        action: "replace_workspace_connection_credentials",
                    },
                );
            }
            assert(effects@ =~= after_bound(connection_id, previous, credential_id, reply).0);
            Step { effects, turn: Turn::Done(Ok(profile)) }
        },
        Err(error) => {
            effects.push(
                Effect::DeleteSecret { credential_id, action: "bind_connection_credentials" },
            );
            assert(effects@ =~= after_bound(connection_id, previous, credential_id, reply).0);
            Step { effects, turn: Turn::Done(Err(error)) }
        },
    }
}

impl CredentialBinding {
    /// Whether `reply` answers what is awaited.
    pub open spec fn awaits(self, reply: CredentialBindingReply) -> bool {
        match self {
            CredentialBinding::Mutation { .. } => reply is Mutation,
            CredentialBinding::Stored { .. } => reply is Stored,
            CredentialBinding::Bound { .. } => reply is Bound,
        }
    }

    /// The effects and the turn that follow `reply`.
    pub open spec fn after(self, reply: CredentialBindingReply) -> (
        Seq<Effect>,
        CredentialBindingTurn,
    ) {
        match self {
            CredentialBinding::Mutation { connection_id, username, password } => after_mutation(
                connection_id,
                username,
                password,
                reply->pin,
                reply->fresh_id,
            ),
            CredentialBinding::Stored {
                connection_id,
                username,
                account_user_id,
                extra_params,
                previous,
                credential_id,
            } => after_stored(
                connection_id,
                username,
                account_user_id,
                extra_params,
                previous,
                credential_id,
                reply->Stored_0,
            ),
            CredentialBinding::Bound { connection_id, previous, credential_id } => after_bound(
                connection_id,
                previous,
                credential_id,
                reply->Bound_0,
            ),
        }
    }

    /// Begins a binding, unless the user name or the password is not acceptable.
    pub fn start(connection_id: u128, username: &str, password: String) -> (r:
        CredentialBindingStep)
        ensures
            r.effects@ == Seq::<Effect>::empty(),
            match credential_problem(username@, password@) {
                Some(error) => r.turn == CredentialBindingTurn::Done(Err(error)),
                None => {
                    &&& r.turn matches Turn::Ask {
                        state: CredentialBinding::Mutation {
                            connection_id: id,
                            username: name,
                            password: secret,
                        },
                        request: CredentialBindingRequest::BeginMutation {
                            connection_id: guarded,
                            access,
                        },
                    }
                    &&& id == connection_id && guarded == connection_id
                    &&& access == ConnectionAccess::Read
                    &&& name@ == trimmed(username@)
                    &&& secret == password
                },
            },
    {
        match check_credential(username, password.as_str()) {
            Err(error) => done(Err(error)),
            Ok(username) => ask(
                CredentialBinding::Mutation { connection_id, username, password },
                CredentialBindingRequest::BeginMutation {
                    connection_id,
                    access: ConnectionAccess::Read,
                },
            ),
        }
    }

    /// Takes the answer to the last question.
    pub fn advance(self, reply: CredentialBindingReply) -> (r: CredentialBindingStep)
        requires
            self.awaits(reply),
        ensures
            r.says(self.after(reply)),
    {
        match (self, reply) {
            (
                CredentialBinding::Mutation { connection_id, username, password },
                CredentialBindingReply::Mutation { pin, fresh_id },
            ) => take_mutation(connection_id, username, password, pin, fresh_id),
            (
                CredentialBinding::Stored {
                    connection_id,
                    username,
                    account_user_id,
                    extra_params,
                    previous,
                    credential_id,
                },
                CredentialBindingReply::Stored(reply),
            ) => take_stored(
                connection_id,
                username,
                account_user_id,
                extra_params,
                previous,
                credential_id,
                reply,
            ),
            (
                CredentialBinding::Bound { connection_id, previous, credential_id },
                CredentialBindingReply::Bound(reply),
            ) => take_bound(connection_id, previous, credential_id, reply),
            _ => unreached(),
        }
    }
}

/// A binding from its beginning, told by what was given and answered. The user name is
/// bound without the white space around it, unless it is longer than three hundred and
/// twenty bytes or holds a control character; the password is stored as it was given,
/// under the fresh id, unless it is empty or longer than sixty-four kibibytes. The
/// connection must be shared, with credentials of the member's own, and one that the
/// member may use; what is bound is for the selected account and keeps the connection's
/// parameters. Once it is bound the credential that it replaces is let go, and if it is
/// not bound the new one is.
#[verifier::spinoff_prover]
#[verifier::rlimit(40)]
pub proof fn bindings_are_of_what_was_given(
    connection_id: u128,
    username: &str,
    password: String,
    begun: CredentialBindingStep,
    pin: MutationPin,
    fresh_id: u128,
    profile: ConnectionProfile,
    error: AppError,
)
    requires
        call_ensures(CredentialBinding::start, (connection_id, username, password), begun),
    ensures
        ({
            let name = trimmed(username@);
            let unfit = byte_count(name) > 320 || exists|i: int|
                0 <= i < name.len() && ({
                    let c = #[trigger] name[i];
                    c <= '\u{1f}' || '\u{7f}' <= c <= '\u{9f}'
                });
            if unfit {
                begun.turn matches Turn::Done(Err(AppError::Config(text))) && text == Text::Plain(
                    "username is invalid",
                )
            } else if password@.len() == 0 || byte_count(password@) > 65_536 {
                begun.turn matches Turn::Done(Err(AppError::Config(text))) && text == Text::Plain(
                    "connection credential is empty or exceeds the size limit",
                )
            } else {
                let access = pin.workspace_access;
                let first = begun.turn;
                let guarded = first->state.after(
                    CredentialBindingReply::Mutation { pin: Ok(pin), fresh_id },
                );
                let stored = guarded.1->state.after(CredentialBindingReply::Stored(Ok(())));
                let ended = stored.1->state.after(CredentialBindingReply::Bound(Ok(profile)));
                let unbound = stored.1->state.after(CredentialBindingReply::Bound(Err(error)));
                &&& begun.effects@.len() == 0 && guarded.0.len() == 0
                &&& first matches Turn::Ask {
                    request: CredentialBindingRequest::BeginMutation {
                        connection_id: id,
                        access: wanted,
                    },
                    ..
                } && id == connection_id && wanted == ConnectionAccess::Read
                &&& first->state.after(
                    CredentialBindingReply::Mutation { pin: Err(error), fresh_id },
                ).1 matches Turn::Done(Err(told)) && told == error
                &&& if access == WorkspaceConnectionAccess::Local {
                    guarded.1 matches Turn::Done(Err(AppError::Config(text))) && text
                        == Text::Plain("connection is not a shared workspace template")
                } else if pin.credential_mode != WorkspaceCredentialMode::MemberLocal {
                    guarded.1 matches Turn::Done(Err(AppError::Blocked { reason })) && reason
                        == Text::Plain(
                        "this shared connection uses automatically managed credentials",
                    )
                } else if access == WorkspaceConnectionAccess::View {
                    guarded.1 matches Turn::Done(Err(AppError::Blocked { reason })) && reason
                        == Text::Plain("your workspace role cannot execute this connection")
                } else if pin.selected_account_id is None {
                    guarded.1 matches Turn::Done(Err(AppError::Config(text))) && text
                        == Text::Plain("no active workspace account")
                } else if pin.secret_ref matches Some(text) && parsed_id(text@) is Err {
                    guarded.1 matches Turn::Done(Err(AppError::Config(text))) && text
                        == Text::Plain("connection secret reference is invalid")
                } else {
                    &&& guarded.1 matches Turn::Ask {
                        request: CredentialBindingRequest::StoreSecret { credential_id, secret },
                        ..
                    } && credential_id == fresh_id && secret == password
                    &&& guarded.1->state.after(
                        CredentialBindingReply::Stored(Err(error)),
                    ).1 matches Turn::Done(Err(told)) && told == error
                    &&& stored.0.len() == 0
                    &&& stored.1 matches Turn::Ask {
                        request: CredentialBindingRequest::Bind {
                            connection_id: id,
                            account_user_id,
                            username: bound,
                            extra_params,
                            credential_id,
                        },
                        ..
                    } && id == connection_id && Some(account_user_id) == pin.selected_account_id
                        && bound@ == name && extra_params == pin.extra_params && credential_id
                        == fresh_id
                    &&& ended.1 matches Turn::Done(Ok(told)) && told == profile
                    &&& ended.0.len() == if pin.secret_ref is Some {
                        2int
                    } else {
                        1int
                    }
                    &&& ended.0[0] == (Effect::RetireConnection { connection_id })
                    &&& (pin.secret_ref matches Some(text) ==> (
                    ended.0[1] matches Effect::DeleteSecret { credential_id, action }
                        && parsed_id(text@) == Ok::<u128, Seq<char>>(credential_id) && action
                        == "replace_workspace_connection_credentials"))
                    &&& unbound.1 matches Turn::Done(Err(told)) && told == error
                    &&& unbound.0 == seq![
                        Effect::DeleteSecret {
                            credential_id: fresh_id,
                            action: "bind_connection_credentials",
                        },
                    ]
                }
            }
        }),
{
    let name = trimmed(username@);
    assert(has_control(name) <==> exists|i: int|
        0 <= i < name.len() && ({
            let c = #[trigger] name[i];
            c <= '\u{1f}' || '\u{7f}' <= c <= '\u{9f}'
        }));
}

} // verus!
