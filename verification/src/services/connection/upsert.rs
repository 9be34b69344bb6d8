//! Saving a local connection, and exchanging its credential along with it.
use vstd::pervasive::unreached;
use vstd::prelude::*;

use crate::error::{AppError, AppResult};
use crate::ids::{hyphenated, id_text, parse_id, parsed_id};
use crate::model::{ConnectionProfile, WorkspaceConnectionAccess};
use crate::services::connection::groups::{
    clashes, find_place, group_is_mixed, is_normal_form, mixed_group, normalize_schema_group, place_of,
    text_of, validate_schema_group_engine,
};
use crate::services::effects::{ask, done, Effect, Step, Turn};
use crate::services::workspace::bind::MAX_CONNECTION_CREDENTIAL_BYTES;
use crate::text::{byte_count, byte_len, Text};

verus! {

/// A connection to save, and its password where that is to change.
#[derive(PartialEq, Eq)]
pub struct ConnectionUpsertRequest {
    pub profile: ConnectionProfile,
    pub password: Option<String>,
}

/// Where saving a connection stands.
#[derive(PartialEq, Eq)]
pub enum ConnectionUpsert {
    /// The driver that the profile chooses is being validated.
    Driver { profile: ConnectionProfile, password: Option<String> },
    Scope { profile: ConnectionProfile, password: Option<String> },
    Listed { profile: ConnectionProfile, password: Option<String> },
    SecretStored { profile: ConnectionProfile, previous: Option<u128>, replacement: u128 },
    Saved { previous: Option<u128>, stored: Option<u128> },
}

/// What saving a connection asks of the outside world.
#[derive(PartialEq, Eq)]
pub enum ConnectionUpsertAsk {
    /// Validate the driver of this profile.
    ValidateDriver { profile: ConnectionProfile },
    /// Make sure that the active workspace may write this connection.
    EnsureWriteScope { connection_id: u128 },
    /// List the connections, and draw a fresh id.
    ListConnections,
    /// Keep the secret under this id.
    StoreSecret { credential_id: u128, secret: String },
    /// Save the profile.
    Save { profile: ConnectionProfile },
}

/// What the outside world answers.
#[derive(PartialEq, Eq)]
pub enum ConnectionUpsertReply {
    Driver(Result<(), AppError>),
    Scope(Result<(), AppError>),
    Listed { connections: Result<Vec<ConnectionProfile>, AppError>, fresh_id: u128 },
    SecretStored(Result<(), AppError>),
    /// The profile as it is stored now.
    Saved(Result<ConnectionProfile, AppError>),
}

/// How saving a connection ends.
pub type ConnectionUpsertEnd = Result<ConnectionProfile, AppError>;

/// A step of saving a connection.
pub type ConnectionUpsertStep = Step<ConnectionUpsert, ConnectionUpsertAsk, ConnectionUpsertEnd>;

/// What follows an answer while a connection is saved.
pub type ConnectionUpsertTurn = Turn<ConnectionUpsert, ConnectionUpsertAsk, ConnectionUpsertEnd>;

/// What the stored reference to a credential says.
pub open spec fn stored_secret(connections: Seq<ConnectionProfile>, id: u128) -> Result<
    Option<u128>,
    AppError,
> {
    match place_of(connections, id) {
        None => Ok(None),
        Some(at) => match connections[at].secret_ref {
            None => Ok(None),
            Some(text) => match parsed_id(text@) {
                Ok(id) => Ok(Some(id)),
                Err(_) => Err(
                    AppError::Config(
                        Text::Plain("stored connection secret reference is invalid"),
                    ),
                ),
            },
        },
    }
}

/// Computes [`stored_secret`].
fn read_stored_secret(connections: &Vec<ConnectionProfile>, id: u128) -> (r: AppResult<
    Option<u128>,
>)
    ensures
        r == stored_secret(connections@, id),
{
    match find_place(connections, id) {
        None => Ok(None),
        Some(at) => match &connections[at].secret_ref {
            None => Ok(None),
            Some(text) => match parse_id(text.as_str()) {
                Ok(id) => Ok(Some(id)),
                Err(_) => Err(
                    AppError::Config(Text::Plain("stored connection secret reference is invalid")),
                ),
            },
        },
    }
}

/// The password that is to be kept: an empty one counts as none.
pub open spec fn given_password(password: Option<String>) -> Option<String> {
    match password {
        Some(password) => if password@.len() == 0 {
            None
        } else {
            Some(password)
        },
        None => None,
    }
}

/// Whether `saved` is `profile` with the reference to this credential, and with no other.
pub open spec fn refers_to(
    saved: ConnectionProfile,
    profile: ConnectionProfile,
    credential: Option<u128>,
) -> bool {
    &&& saved == ConnectionProfile { secret_ref: saved.secret_ref, ..profile }
    &&& text_of(saved.secret_ref) == match credential {
        Some(id) => Some(hyphenated(id)),
        None => None,
    }
}

/// Why the profile cannot be saved among these connections, if it cannot.
pub open spec fn listing_problem(
    profile: ConnectionProfile,
    password: Option<String>,
    connections: Seq<ConnectionProfile>,
) -> Option<AppError> {
    if group_is_mixed(profile, connections) {
        Some(mixed_group(profile))
    } else {
        match stored_secret(connections, profile.id) {
            Err(error) => Some(error),
            Ok(_) => match given_password(password) {
                Some(password) => if byte_count(password@) > MAX_CONNECTION_CREDENTIAL_BYTES {
                    Some(
                        AppError::Config(
                            Text::Plain("connection credential exceeds the size limit"),
                        ),
                    )
                } else {
                    None
                },
                None => None,
            },
        }
    }
}

/// What is cleared away after the profile was saved under a new credential, or not.
pub open spec fn after_saving(
    connection_id: u128,
    previous: Option<u128>,
    stored: Option<u128>,
) -> Seq<Effect> {
    let common = seq![
        Effect::ClearSchemaCache { connection_id },
        Effect::RetireConnection { connection_id },
    ];
    match (stored, previous) {
        (Some(_), Some(credential_id)) => common.push(
            Effect::DeleteSecret { credential_id, action: "replace_connection_credentials" },
        ),
        _ => common,
    }
}

/// What is cleared away after the profile could not be saved.
pub open spec fn after_failing(stored: Option<u128>) -> Seq<Effect> {
    match stored {
        Some(credential_id) => seq![
            Effect::DeleteSecret { credential_id, action: "upsert_connection" },
        ],
        None => Seq::empty(),
    }
}

impl ConnectionUpsert {
    /// Whether `reply` answers what is awaited.
    pub open spec fn awaits(self, reply: ConnectionUpsertReply) -> bool {
        match self {
            ConnectionUpsert::Driver { .. } => reply is Driver,
            ConnectionUpsert::Scope { .. } => reply is Scope,
            ConnectionUpsert::Listed { .. } => reply is Listed,
            ConnectionUpsert::SecretStored { .. } => reply is SecretStored,
            ConnectionUpsert::Saved { .. } => reply is Saved,
        }
    }

    /// Whether `step` is what follows `reply`. The stored reference to a credential counts,
    /// never the one in the request.
    pub open spec fn follows(
        self,
        reply: ConnectionUpsertReply,
        step: ConnectionUpsertStep,
    ) -> bool {
        match self {
            ConnectionUpsert::Driver { profile, password } => step.says(
                (
                    Seq::empty(),
                    match reply->Driver_0 {
                        Err(error) => Turn::Done(Err(error)),
                        Ok(_) => Turn::Ask {
                            state: ConnectionUpsert::Scope { profile, password },
                            request: ConnectionUpsertAsk::EnsureWriteScope {
                                connection_id: profile.id,
                            },
                        },
                    },
                ),
            ),
            ConnectionUpsert::Scope { profile, password } => step.says(
                (
                    Seq::empty(),
                    match reply->Scope_0 {
                        Err(error) => Turn::Done(Err(error)),
                        Ok(_) => Turn::Ask {
                            state: ConnectionUpsert::Listed { profile, password },
                            request: ConnectionUpsertAsk::ListConnections,
                        },
                    },
                ),
            ),
            ConnectionUpsert::Listed { profile, password } => match reply->connections {
                Err(error) => step.says((Seq::empty(), Turn::Done(Err(error)))),
                Ok(connections) => match listing_problem(profile, password, connections@) {
                    Some(error) => step.says((Seq::empty(), Turn::Done(Err(error)))),
                    None => {
                        let previous = stored_secret(connections@, profile.id)->Ok_0;
                        match given_password(password) {
                            Some(secret) => {
                                &&& step.effects@ == Seq::<Effect>::empty()
                                &&& step.turn matches Turn::Ask { state, request }
                                &&& request == (ConnectionUpsertAsk::StoreSecret {
                                    credential_id: reply->fresh_id,
                                    secret,
                                })
                                &&& state == (ConnectionUpsert::SecretStored {
                                    profile: state->SecretStored_profile,
                                    previous,
                                    replacement: reply->fresh_id,
                                })
                                &&& refers_to(state->SecretStored_profile, profile, previous)
                            },
                            None => saves(step, profile, previous, previous, None),
                        }
                    },
                },
            },
            ConnectionUpsert::SecretStored { profile, previous, replacement } => match reply->SecretStored_0 {
                Err(error) => step.says((Seq::empty(), Turn::Done(Err(error)))),
                Ok(_) => saves(step, profile, Some(replacement), previous, Some(replacement)),
            },
            ConnectionUpsert::Saved { previous, stored } => match reply->Saved_0 {
                Ok(profile) => step.says(
                    (after_saving(profile.id, previous, stored), Turn::Done(Ok(profile))),
                ),
                Err(error) => step.says((after_failing(stored), Turn::Done(Err(error)))),
            },
        }
    }

    /// Begins to save a connection.
    pub fn start(request: ConnectionUpsertRequest) -> (r: ConnectionUpsertStep)
        ensures
            r.effects@ == Seq::<Effect>::empty(),
            request.profile.workspace_access != WorkspaceConnectionAccess::Local ==> r.turn
                == ConnectionUpsertTurn::Done(
                Err(
                    AppError::Blocked {
                        reason: Text::Plain(
                            "shared templates are edited by workspace editors; bind credentials separately",
                        ),
                    },
                ),
            ),
            request.profile.workspace_access == WorkspaceConnectionAccess::Local ==> {
                &&& r.turn matches Turn::Ask { state, request: asked }
                &&& asked matches ConnectionUpsertAsk::ValidateDriver { profile: handed }
                &&& state matches ConnectionUpsert::Driver { profile, password }
                &&& handed.same(profile)
                &&& password == request.password
                &&& profile == ConnectionProfile {
                    schema_group: profile.schema_group,
                    ..request.profile
                }
                &&& is_normal_form(text_of(profile.schema_group), request.profile.schema_group)
            },
    {
        let ConnectionUpsertRequest { profile, password } = request;
        let mut profile = profile;
        if profile.workspace_access != WorkspaceConnectionAccess::Local {
            return done(
                Err(
                    AppError::Blocked {
                        reason: Text::Plain(
                            "shared templates are edited by workspace editors; bind credentials separately",
                        ),
                    },
                ),
            );
        }
        profile.schema_group = normalize_schema_group(profile.schema_group.clone());
        let handed = profile.duplicate();
        ask(
            ConnectionUpsert::Driver { profile, password },
            ConnectionUpsertAsk::ValidateDriver { profile: handed },
        )
    }

    fn take_listed(
        profile: ConnectionProfile,
        password: Option<String>,
        listed: Result<Vec<ConnectionProfile>, AppError>,
        fresh_id: u128,
    ) -> (r: ConnectionUpsertStep)
        ensures
            (ConnectionUpsert::Listed { profile, password }).follows(
                ConnectionUpsertReply::Listed { connections: listed, fresh_id },
                r,
            ),
    {
        let connections = match listed {
            Err(error) => {
                return done(Err(error));
            },
            Ok(connections) => connections,
        };
        match validate_schema_group_engine(&profile, &connections) {
            Err(error) => {
                return done(Err(error));
            },
            Ok(_) => {},
        }
        let previous = match read_stored_secret(&connections, profile.id) {
            Err(error) => {
                return done(Err(error));
            },
            Ok(previous) => previous,
        };
        let mut profile = profile;
        match password {
            Some(secret) => {
                if secret.as_str().is_empty() {
                    profile.secret_ref = reference(previous);
                    save(profile, previous, None)
                } else if byte_len(secret.as_str()) > MAX_CONNECTION_CREDENTIAL_BYTES {
                    done(
                        Err(
                            AppError::Config(
                                Text::Plain("connection credential exceeds the size limit"),
                            ),
                        ),
                    )
                } else {
                    profile.secret_ref = reference(previous);
                    ask(
                        ConnectionUpsert::SecretStored {
                            profile,
                            previous,
                            replacement: fresh_id,
                        },
                        ConnectionUpsertAsk::StoreSecret { credential_id: fresh_id, secret },
                    )
                }
            },
            None => {
                profile.secret_ref = reference(previous);
                save(profile, previous, None)
            },
        }
    }

    fn take_saved(
        previous: Option<u128>,
        stored: Option<u128>,
        reply: Result<ConnectionProfile, AppError>,
    ) -> (r: ConnectionUpsertStep)
        ensures
            (ConnectionUpsert::Saved { previous, stored }).follows(
                ConnectionUpsertReply::Saved(reply),
                r,
            ),
    {
        let mut effects: Vec<Effect> = Vec::new();
        match reply {
            Ok(profile) => {
                let connection_id: u128 = profile.id;
                effects.push(Effect::ClearSchemaCache { connection_id });
                effects.push(Effect::RetireConnection { connection_id });
                match (stored, previous) {
                    (Some(_), Some(credential_id)) => {
                        effects.push(
                            Effect::DeleteSecret {
                                credential_id,
                                action: "replace_connection_credentials",
                            },
                        );
                    },
                    _ => {},
                }
                assert(effects@ =~= after_saving(connection_id, previous, stored));
                Step { effects, turn: Turn::Done(Ok(profile)) }
            },
            Err(error) => {
                match stored {
                    Some(credential_id) => {
                        effects.push(
                            Effect::DeleteSecret { credential_id, action: "upsert_connection" },
                        );
                    },
                    None => {},
                }
                assert(effects@ =~= after_failing(stored));
                Step { effects, turn: Turn::Done(Err(error)) }
            },
        }
    }

    /// Takes the answer to the last question.
    pub fn advance(self, reply: ConnectionUpsertReply) -> (r: ConnectionUpsertStep)
        requires
            self.awaits(reply),
        ensures
            self.follows(reply, r),
    {
        match (self, reply) {
            (
                ConnectionUpsert::Driver { profile, password },
                ConnectionUpsertReply::Driver(reply),
            ) => match reply {
                Err(error) => done(Err(error)),
                Ok(_) => {
                    let connection_id: u128 = profile.id;
                    ask(
                        ConnectionUpsert::Scope { profile, password },
                        ConnectionUpsertAsk::EnsureWriteScope { connection_id },
                    )
                },
            },
            (
                ConnectionUpsert::Scope { profile, password },
                ConnectionUpsertReply::Scope(reply),
            ) => match reply {
                Err(error) => done(Err(error)),
                Ok(_) => ask(
                    ConnectionUpsert::Listed { profile, password },
                    ConnectionUpsertAsk::ListConnections,
                ),
            },
            (
                ConnectionUpsert::Listed { profile, password },
                ConnectionUpsertReply::Listed { connections, fresh_id },
            ) => Self::take_listed(profile, password, connections, fresh_id),
            (
                ConnectionUpsert::SecretStored { profile, previous, replacement },
                ConnectionUpsertReply::SecretStored(reply),
            ) => match reply {
                Err(error) => done(Err(error)),
                Ok(_) => {
                    let mut profile = profile;
                    profile.secret_ref = reference(Some(replacement));
                    save(profile, previous, Some(replacement))
                },
            },
            (
                ConnectionUpsert::Saved { previous, stored },
                ConnectionUpsertReply::Saved(reply),
            ) => Self::take_saved(previous, stored, reply),
            _ => unreached(),
        }
    }
}

/// Whether the step saves the profile with the reference to this credential.
pub open spec fn saves(
    step: ConnectionUpsertStep,
    profile: ConnectionProfile,
    credential: Option<u128>,
    previous: Option<u128>,
    stored: Option<u128>,
) -> bool {
    &&& step.effects@ == Seq::<Effect>::empty()
    &&& step.turn matches Turn::Ask { state, request }
    &&& state == (ConnectionUpsert::Saved { previous, stored })
    &&& request matches ConnectionUpsertAsk::Save { profile: saved }
    &&& refers_to(saved, profile, credential)
}

/// The reference to a credential: its id, written out.
fn reference(credential: Option<u128>) -> (r: Option<String>)
    ensures
        text_of(r) == match credential {
            Some(id) => Some(hyphenated(id)),
            None => None,
        },
{
    match credential {
        Some(id) => Some(id_text(id)),
        None => None,
    }
}

fn save(profile: ConnectionProfile, previous: Option<u128>, stored: Option<u128>) -> (r:
    ConnectionUpsertStep)
    ensures
        r.effects@ == Seq::<Effect>::empty(),
        r.turn == (ConnectionUpsertTurn::Ask {
            state: ConnectionUpsert::Saved { previous, stored },
            request: ConnectionUpsertAsk::Save { profile },
        }),
{
    ask(ConnectionUpsert::Saved { previous, stored }, ConnectionUpsertAsk::Save { profile })
}

/// The credential that the profile which is saved refers to was read back from the store or
/// has just been kept there: what the request said of it never matters.
pub proof fn requests_name_no_credential(
    state: ConnectionUpsert,
    reply: ConnectionUpsertReply,
    step: ConnectionUpsertStep,
    secret_ref: Option<String>,
)
    requires
        state matches ConnectionUpsert::Listed { .. },
        state.awaits(reply),
        state.follows(reply, step),
    ensures
        ({
            let profile = ConnectionProfile { secret_ref, ..state->Listed_profile };
            (ConnectionUpsert::Listed { profile, password: state->Listed_password }).follows(
                reply,
                step,
            )
        }),
{
    let profile = state->Listed_profile;
    let other = ConnectionProfile { secret_ref, ..profile };
    match reply->connections {
        Ok(connections) => {
            assert forall|i: int| 0 <= i < connections@.len() implies clashes(
                profile,
                #[trigger] connections@[i],
            ) == clashes(other, connections@[i]) by {}
            assert(group_is_mixed(profile, connections@) == group_is_mixed(other, connections@));
        },
        Err(_) => {},
    }
}

/// A credential that was kept for a profile which then could not be saved is forgotten, and
/// the one before it is forgotten only after the profile was saved.
pub proof fn credentials_are_exchanged_whole(
    state: ConnectionUpsert,
    reply: ConnectionUpsertReply,
    step: ConnectionUpsertStep,
)
    requires
        state matches ConnectionUpsert::Saved { .. },
        state.awaits(reply),
        state.follows(reply, step),
    ensures
        reply->Saved_0 is Err ==> forall|id: u128|
            #![auto]
            step.effects@.contains(
                Effect::DeleteSecret { credential_id: id, action: "upsert_connection" },
            ) <==> state->Saved_stored == Some(id),
        step.turn is Done,
        step.turn->Done_0 is Ok <==> reply->Saved_0 is Ok,
        reply->Saved_0 is Err ==> step.effects@.len() <= 1,
{
    match reply->Saved_0 {
        Err(_) => {
            match state->Saved_stored {
                Some(id) => {
                    assert(step.effects@[0] == (Effect::DeleteSecret {
                        credential_id: id,
                        action: "upsert_connection",
                    }));
                },
                None => {},
            }
        },
        Ok(_) => {},
    }
}

} // verus!
