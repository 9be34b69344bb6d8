//! What saving, grouping, testing and removing a connection ask for and leave behind, in
//! every run.
use vstd::prelude::*;

use crate::error::{AppError, AppResult};
use crate::ids::{hyphenated, parsed_id};
use crate::model::{ConnectionProfile, WorkspaceConnectionAccess, WorkspaceCredentialMode};
use crate::services::connection::groups::{
    are_updated, clashes, distinct, first_mix, group_is_mixed, place_of, refusal, regrouped,
    regrouping_error, retired, Regrouping, RegroupingReply, RegroupingRequest, RegroupingStep,
};
use crate::services::connection::lifecycle::{
    check_profile_test, check_saved_test, Removal, RemovalPin, RemovalReply, RemovalRequest,
    RemovalStep,
};
use crate::services::connection::upsert::{
    ConnectionUpsert, ConnectionUpsertAsk, ConnectionUpsertReply, ConnectionUpsertRequest,
    ConnectionUpsertStep,
};
use crate::services::effects::{Effect, Turn};
use crate::text::{byte_count, same_ignoring_ascii_case, trimmed, Text};

verus! {

/// Whether two profiles agree in all but the group and the reference to a credential.
pub open spec fn agree(a: ConnectionProfile, b: ConnectionProfile) -> bool {
    &&& a.id == b.id
    &&& a.name == b.name
    &&& a.engine == b.engine
    &&& a.provider == b.provider
    &&& a.driver_id == b.driver_id
    &&& a.host == b.host
    &&& a.port == b.port
    &&& a.database == b.database
    &&& a.username == b.username
    &&& a.sslmode == b.sslmode
    &&& a.extra_params == b.extra_params
    &&& a.readonly_default == b.readonly_default
    &&& a.allow_writes == b.allow_writes
    &&& a.env == b.env
    &&& a.workspace_access == b.workspace_access
    &&& a.credential_mode == b.credential_mode
}

/// Whether a group is the one that was given, without the white space around it; a blank
/// one is none.
pub open spec fn is_group(group: Option<String>, given: Option<String>) -> bool {
    match given {
        Some(given) => if trimmed(given@).len() == 0 {
            group is None
        } else {
            group is Some && group->0@ == trimmed(given@)
        },
        None => group is None,
    }
}

/// Saving a connection up to the list of the others, told by what was requested. A shared
/// one is refused. What goes on is the requested profile, with its group trimmed, and the
/// requested password: its driver is validated and the right to write it is asked for.
#[verifier::spinoff_prover]
#[verifier::rlimit(40)]
pub proof fn the_requested_profile_is_checked(
    request: ConnectionUpsertRequest,
    begun: ConnectionUpsertStep,
    valid: ConnectionUpsertStep,
    allowed: ConnectionUpsertStep,
)
    requires
        call_ensures(ConnectionUpsert::start, (request,), begun),
        begun.turn is Ask ==> begun.turn->state.follows(
            ConnectionUpsertReply::Driver(Ok(())),
            valid,
        ),
        begun.turn is Ask ==> valid.turn->state.follows(
            ConnectionUpsertReply::Scope(Ok(())),
            allowed,
        ),
    ensures
        begun.effects@.len() == 0,
        if request.profile.workspace_access != WorkspaceConnectionAccess::Local {
            begun.turn matches Turn::Done(Err(AppError::Blocked { reason })) && reason
                == Text::Plain(
                "shared templates are edited by workspace editors; bind credentials separately",
            )
        } else {
            &&& begun.turn matches Turn::Ask {
                request: ConnectionUpsertAsk::ValidateDriver { profile },
                ..
            }
            &&& profile.same_but_params(
                ConnectionProfile { schema_group: profile.schema_group, ..request.profile },
            )
            &&& profile.extra_params@ == request.profile.extra_params@
            &&& is_group(profile.schema_group, request.profile.schema_group)
            &&& valid.effects@.len() == 0 && allowed.effects@.len() == 0
            &&& valid.turn matches Turn::Ask {
                request: ConnectionUpsertAsk::EnsureWriteScope { connection_id },
                ..
            } && connection_id == request.profile.id
            &&& allowed.turn matches Turn::Ask {
                state: ConnectionUpsert::Listed { profile: kept, password },
                request: ConnectionUpsertAsk::ListConnections,
            }
            &&& agree(kept, request.profile)
            &&& is_group(kept.schema_group, request.profile.schema_group)
            &&& password == request.password
        },
{
}

/// Saving a connection from the list of the others on. It is refused where another
/// connection of its group, however that is spelled, has another engine, where its stored
/// reference to a credential cannot be read, and where the password is too long. A
/// password that is not empty is stored under the fresh id, and the profile is then saved
/// with a reference to that; else it is saved with the reference that was stored.
#[verifier::spinoff_prover]
#[verifier::rlimit(60)]
pub proof fn profiles_are_saved_with_their_credential(
    profile: ConnectionProfile,
    password: Option<String>,
    connections: Vec<ConnectionProfile>,
    fresh_id: u128,
    listed: ConnectionUpsertStep,
    stored: ConnectionUpsertStep,
)
    requires
        (ConnectionUpsert::Listed { profile, password }).follows(
            ConnectionUpsertReply::Listed { connections: Ok(connections), fresh_id },
            listed,
        ),
        listed.turn matches Turn::Ask { state: ConnectionUpsert::SecretStored { .. }, .. }
            ==> listed.turn->state.follows(ConnectionUpsertReply::SecretStored(Ok(())), stored),
    ensures
        ({
            let mixed = profile.schema_group is Some && exists|i: int|
                0 <= i < connections@.len() && (#[trigger] connections@[i]).id != profile.id
                    && connections@[i].engine != profile.engine && connections@[i].schema_group is Some
                    && same_ignoring_ascii_case(
                    trimmed(connections@[i].schema_group->0@),
                    profile.schema_group->0@,
                );
            let reference = match place_of(connections@, profile.id) {
                Some(at) => connections@[at].secret_ref,
                None => None,
            };
            let given = password is Some && password->0@.len() > 0;
            &&& listed.effects@.len() == 0
            &&& if mixed {
                listed.turn matches Turn::Done(Err(AppError::Config(text))) && text
                    == Text::WithText(
                    "schema group '",
                    profile.schema_group->0,
                    "' already contains a different database engine",
                )
            } else if reference is Some && parsed_id(reference->0@) is Err {
                listed.turn matches Turn::Done(Err(AppError::Config(text))) && text == Text::Plain(
                    "stored connection secret reference is invalid",
                )
            } else if given && byte_count(password->0@) > 65_536 {
                listed.turn matches Turn::Done(Err(AppError::Config(text))) && text == Text::Plain(
                    "connection credential exceeds the size limit",
                )
            } else {
                let previous = match reference {
                    Some(text) => Some(parsed_id(text@)->Ok_0),
                    None => None,
                };
                if given {
                    &&& listed.turn matches Turn::Ask {
                        request: ConnectionUpsertAsk::StoreSecret { credential_id, secret },
                        ..
                    } && credential_id == fresh_id && Some(secret) == password
                    &&& stored.effects@.len() == 0
                    &&& stored.turn matches Turn::Ask {
                        state: ConnectionUpsert::Saved { previous: replaced, stored: put },
                        request: ConnectionUpsertAsk::Save { profile: saved },
                    }
                    &&& replaced == previous && put == Some(fresh_id)
                    &&& agree(saved, profile) && saved.schema_group == profile.schema_group
                    &&& saved.secret_ref is Some && saved.secret_ref->0@ == hyphenated(fresh_id)
                } else {
                    &&& listed.turn matches Turn::Ask {
                        state: ConnectionUpsert::Saved { previous: replaced, stored: put },
                        request: ConnectionUpsertAsk::Save { profile: saved },
                    }
                    &&& replaced == previous && put is None
                    &&& agree(saved, profile) && saved.schema_group == profile.schema_group
                    &&& saved.secret_ref is Some == previous is Some
                    &&& previous is Some ==> saved.secret_ref->0@ == hyphenated(previous->0)
                }
            }
        }),
{
    let mixed = profile.schema_group is Some && exists|i: int|
        0 <= i < connections@.len() && (#[trigger] connections@[i]).id != profile.id
            && connections@[i].engine != profile.engine && connections@[i].schema_group is Some
            && same_ignoring_ascii_case(
            trimmed(connections@[i].schema_group->0@),
            profile.schema_group->0@,
        );
    assert(mixed == group_is_mixed(profile, connections@));
}

/// What saving a connection leaves behind. Once it is saved its cached schema and its open
/// pools go, and so does the credential that a new one replaces; if it could not be saved,
/// the new one goes, and nothing else. Whatever goes wrong is told as it is.
pub proof fn saving_clears_what_it_replaces(
    previous: Option<u128>,
    stored: Option<u128>,
    saved: ConnectionProfile,
    error: AppError,
    ended: ConnectionUpsertStep,
    failed: ConnectionUpsertStep,
)
    requires
        (ConnectionUpsert::Saved { previous, stored }).follows(
            ConnectionUpsertReply::Saved(Ok(saved)),
            ended,
        ),
        (ConnectionUpsert::Saved { previous, stored }).follows(
            ConnectionUpsertReply::Saved(Err(error)),
            failed,
        ),
    ensures
        ended.turn matches Turn::Done(Ok(told)) && told == saved,
        ended.effects@.len() == if stored is Some && previous is Some {
            3int
        } else {
            2int
        },
        ended.effects@[0] == (Effect::ClearSchemaCache { connection_id: saved.id }),
        ended.effects@[1] == (Effect::RetireConnection { connection_id: saved.id }),
        stored is Some && previous is Some ==> ended.effects@[2] == (Effect::DeleteSecret {
            credential_id: previous->0,
            action: "replace_connection_credentials",
        }),
        failed.turn matches Turn::Done(Err(told)) && told == error,
        stored is None ==> failed.effects@.len() == 0,
        stored is Some ==> failed.effects@.len() == 1 && failed.effects@[0] == (
        Effect::DeleteSecret { credential_id: stored->0, action: "upsert_connection" }),
{
}

/// Whatever goes wrong while a connection is saved is the error that it ends with.
pub proof fn saving_failures_are_told(
    state: ConnectionUpsert,
    reply: ConnectionUpsertReply,
    step: ConnectionUpsertStep,
)
    requires
        state.awaits(reply),
        state.follows(reply, step),
    ensures
        match reply {
            ConnectionUpsertReply::Driver(Err(error)) => step.turn matches Turn::Done(Err(told))
                && told == error && step.effects@.len() == 0,
            ConnectionUpsertReply::Scope(Err(error)) => step.turn matches Turn::Done(Err(told))
                && told == error && step.effects@.len() == 0,
            ConnectionUpsertReply::Listed { connections: Err(error), .. } =>
                step.turn matches Turn::Done(Err(told)) && told == error && step.effects@.len() == 0,
            ConnectionUpsertReply::SecretStored(Err(error)) => step.turn matches Turn::Done(
                Err(told),
            ) && told == error && step.effects@.len() == 0,
            _ => true,
        },
{
}

/// Grouping is of the connections that were named, each once, in the order in which they
/// were first named, under the trimmed name that was given. They are stored, and told,
/// with that group and otherwise as they were, unless one of them is not there, is shared,
/// or would share the group with another engine; and then their open pools go.
#[verifier::spinoff_prover]
#[verifier::rlimit(40)]
pub proof fn the_named_connections_are_grouped(
    ids: Vec<u128>,
    given: Option<String>,
    begun: RegroupingStep,
    connections: Vec<ConnectionProfile>,
    listed: RegroupingStep,
    ended: RegroupingStep,
)
    requires
        call_ensures(Regrouping::start, (ids, given), begun),
        begun.turn is Ask ==> begun.turn->state.follows(
            RegroupingReply::Listed(Ok(connections)),
            listed,
        ),
        begun.turn is Ask && listed.turn is Ask ==> listed.turn->state.follows(
            RegroupingReply::Stored(Ok(())),
            ended,
        ),
    ensures
        begun.effects@.len() == 0,
        if distinct(ids@).len() == 0 {
            begun.turn matches Turn::Done(Ok(told)) && told@.len() == 0
        } else {
            &&& begun.turn matches Turn::Ask {
                state: Regrouping::Listed { group, .. },
                request: RegroupingRequest::ListConnections,
            }
            &&& is_group(group, given)
            &&& listed.effects@.len() == 0
            &&& match regrouping_error(connections@, distinct(ids@), group) {
                Some(error) => listed.turn matches Turn::Done(Err(told)) && told == error,
                None => {
                    &&& listed.turn matches Turn::Ask {
                        request: RegroupingRequest::StoreGroup { ids: named, group: kept },
                        ..
                    }
                    &&& named@ == distinct(ids@) && kept == group
                    &&& ended.turn matches Turn::Done(Ok(told))
                    &&& told@.len() == distinct(ids@).len()
                    &&& forall|k: int|
                        #![trigger told@[k]]
                        #![trigger distinct(ids@)[k]]
                        0 <= k < told@.len() ==> place_of(connections@, distinct(ids@)[k]) is Some
                            && told@[k].same(
                            ConnectionProfile {
                                schema_group: group,
                                ..connections@[place_of(connections@, distinct(ids@)[k])->0]
                            },
                        )
                    &&& ended.effects@.len() == distinct(ids@).len()
                    &&& forall|k: int|
                        0 <= k < distinct(ids@).len() ==> #[trigger] ended.effects@[k] == (
                        Effect::RetireConnection { connection_id: distinct(ids@)[k] })
                },
            }
        },
{
    if distinct(ids@).len() > 0 && listed.turn is Ask {
        let state = begun.turn->state;
        let group = state->Listed_group;
        assert(state->Listed_ids@ == distinct(ids@));
        assert(ended.effects@ == retired(distinct(ids@)));
        let told = ended.turn->Done_0->Ok_0@;
        assert(are_updated(told, connections@, distinct(ids@), group));
        assert forall|k: int|
            #![trigger told[k]]
            #![trigger distinct(ids@)[k]]
            0 <= k < told.len() implies place_of(connections@, distinct(ids@)[k]) is Some
            && told[k].same(
            ConnectionProfile {
                schema_group: group,
                ..connections@[place_of(connections@, distinct(ids@)[k])->0]
            },
        ) by {
            let updated = told[k];
        }
    }
}

/// A removal is of the connection that was named, and of a local one only. Once it is
/// deleted its credential goes, if the reference to it can be read, and its open pools.
pub proof fn the_named_connection_is_removed(
    id: u128,
    begun: RemovalStep,
    pin: RemovalPin,
    error: AppError,
)
    requires
        call_ensures(Removal::start, (id,), begun),
    ensures
        ({
            let pinned = begun.turn->state.after(RemovalReply::Pinned(Ok(pin)));
            let ended = pinned.1->state.after(RemovalReply::Deleted(Ok(())));
            let failed = pinned.1->state.after(RemovalReply::Deleted(Err(error)));
            &&& begun.effects@.len() == 0 && pinned.0.len() == 0
            &&& begun.turn matches Turn::Ask { request: RemovalRequest::Pin { connection_id }, .. }
                && connection_id == id
            &&& begun.turn->state.after(RemovalReply::Pinned(Err(error))).1 matches Turn::Done(
                Err(told),
            ) && told == error
            &&& if pin.workspace_access != WorkspaceConnectionAccess::Local {
                pinned.1 matches Turn::Done(Err(AppError::Blocked { reason })) && reason
                    == Text::Plain(
                    "shared connections can only be removed by a workspace administrator",
                )
            } else {
                &&& pinned.1 matches Turn::Ask {
                    request: RemovalRequest::Delete { connection_id },
                    ..
                } && connection_id == id
                &&& failed.0.len() == 0
                &&& failed.1 matches Turn::Done(Err(told)) && told == error
                &&& ended.1 matches Turn::Done(Ok(_))
                &&& if pin.secret_ref is Some && parsed_id(pin.secret_ref->0@) is Ok {
                    ended.0 == seq![
                        Effect::DeleteSecret {
                            credential_id: parsed_id(pin.secret_ref->0@)->Ok_0,
                            action: "delete_connection",
                        },
                        Effect::RetireConnection { connection_id: id },
                    ]
                } else {
                    ended.0 == seq![Effect::RetireConnection { connection_id: id }]
                }
            }
        }),
{
}

/// A saved connection may be tested by whoever may use it. One that need not be saved is
/// tested with the secret that was given, or an empty one, if it is local in every respect
/// and the secret is not longer than sixty-four kibibytes.
pub proof fn tests_use_what_was_given(profile: ConnectionProfile, password: Option<String>)
    ensures
        forall|r: AppResult<()>| #[trigger]
            call_ensures(check_saved_test, (&profile,), r) ==> (r is Ok
                <==> profile.workspace_access != WorkspaceConnectionAccess::View),
        forall|r: AppResult<String>| #[trigger]
            call_ensures(check_profile_test, (&profile, password), r) ==> {
                &&& r is Ok <==> profile.workspace_access == WorkspaceConnectionAccess::Local
                    && profile.credential_mode == WorkspaceCredentialMode::Local && (
                password matches Some(secret) ==> byte_count(secret@) <= 65_536)
                &&& r matches Ok(used) ==> match password {
                    Some(secret) => used == secret,
                    None => used@.len() == 0,
                }
            },
{
}

/// Connections can be put in a group exactly where each of them is there and local, and
/// none of them would then share the group with another engine.
pub proof fn groups_take_local_connections_of_one_engine(
    connections: Seq<ConnectionProfile>,
    ids: Seq<u128>,
    group: Option<String>,
)
    ensures
        regrouping_error(connections, ids, group) is None <==> {
            &&& forall|k: int|
                0 <= k < ids.len() ==> place_of(connections, #[trigger] ids[k]) is Some
                    && connections[place_of(connections, ids[k])->0].workspace_access
                    == WorkspaceConnectionAccess::Local
            &&& forall|k: int|
                0 <= k < ids.len() ==> !group_is_mixed(
                    regrouped(connections, ids, group)[place_of(
                        regrouped(connections, ids, group),
                        #[trigger] ids[k],
                    )->0],
                    regrouped(connections, ids, group),
                )
        },
{
    nothing_is_refused(connections, ids);
    nothing_is_mixed(regrouped(connections, ids, group), ids);
}

proof fn nothing_is_refused(connections: Seq<ConnectionProfile>, ids: Seq<u128>)
    ensures
        refusal(connections, ids) is None <==> forall|k: int|
            0 <= k < ids.len() ==> place_of(connections, #[trigger] ids[k]) is Some
                && connections[place_of(connections, ids[k])->0].workspace_access
                == WorkspaceConnectionAccess::Local,
        refusal(connections, ids) matches Some(error) ==> exists|k: int|
            0 <= k < ids.len() && error == (if place_of(connections, #[trigger] ids[k]) is None {
                AppError::NotFound(Text::WithId("connection ", ids[k], ""))
            } else {
                AppError::Blocked {
                    reason: Text::Plain(
                        "shared template metadata must be changed through the workspace service",
                    ),
                }
            }),
    decreases ids.len(),
{
    if ids.len() > 0 {
        let rest = ids.drop_first();
        nothing_is_refused(connections, rest);
        assert(forall|k: int| 0 <= k < rest.len() ==> ids[k + 1] == #[trigger] rest[k]);
        assert(forall|k: int| 0 < k < ids.len() ==> rest[k - 1] == #[trigger] ids[k]);
        assert(ids[0] == ids.first());
    }
}

proof fn nothing_is_mixed(connections: Seq<ConnectionProfile>, ids: Seq<u128>)
    ensures
        first_mix(connections, ids) is None <==> forall|k: int|
            0 <= k < ids.len() ==> !group_is_mixed(
                connections[place_of(connections, #[trigger] ids[k])->0],
                connections,
            ),
    decreases ids.len(),
{
    if ids.len() > 0 {
        let rest = ids.drop_first();
        nothing_is_mixed(connections, rest);
        assert(forall|k: int| 0 <= k < rest.len() ==> ids[k + 1] == #[trigger] rest[k]);
        assert(forall|k: int| 0 < k < ids.len() ==> rest[k - 1] == #[trigger] ids[k]);
        assert(ids[0] == ids.first());
    }
}

/// Putting connections in a group changes the group of those that are named, where each
/// first stands, and nothing else. A connection clashes with another of its group, however
/// that is spelled, if the other has another id and another engine.
pub proof fn grouping_changes_the_group_only(
    connections: Seq<ConnectionProfile>,
    ids: Seq<u128>,
    group: Option<String>,
    other: ConnectionProfile,
    k: int,
)
    requires
        0 <= k < connections.len(),
    ensures
        ({
            let before = connections[k];
            let after = regrouped(connections, ids, group);
            let first = forall|j: int| 0 <= j < k ==> (#[trigger] connections[j]).id != before.id;
            &&& after.len() == connections.len()
            &&& ids.contains(before.id) && first ==> after[k] == (ConnectionProfile {
                schema_group: group,
                ..before
            })
            &&& !(ids.contains(before.id) && first) ==> after[k] == before
            &&& clashes(before, other) <==> before.schema_group is Some && other.schema_group is Some
                && same_ignoring_ascii_case(
                trimmed(other.schema_group->0@),
                before.schema_group->0@,
            ) && other.id != before.id && other.engine != before.engine
        }),
{
}

} // verus!
