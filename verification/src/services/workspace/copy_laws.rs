//! What copying a connection into a workspace asks for and leaves behind, in every run.
use vstd::prelude::*;

use crate::error::AppError;
use crate::model::{
    ConnectionProfile, Workspace, WorkspaceAuthAccount, WorkspaceConnectionAccess, WorkspaceKind,
};
use crate::services::effects::{Effect, Turn};
use crate::services::workspace::copy::{
    is_member, ConnectionCopy, ConnectionCopyReply, ConnectionCopyRequest, ConnectionCopyStep,
    ConnectionCopyTurn, CreatedTemplate, Selection, WorkspaceConnectionCopyRequest,
};
use crate::text::Text;
use crate::workspace_auth::remote::shared_part;

verus! {

/// A copy up to the point where its credential is at hand, told by what was requested and
/// answered. The connection is the one that was named, and must be a local one; the
/// workspace must be a team's and not the one that the account has selected; the account
/// must belong to it; and the credential that is read, if the connection has one, is its
/// own. The templates that are fetched are those of that account and that workspace.
#[verifier::spinoff_prover]
#[verifier::rlimit(40)]
pub proof fn copies_are_of_the_named_connection(
    request: WorkspaceConnectionCopyRequest,
    begun: ConnectionCopyStep,
    source: ConnectionProfile,
    workspaces: Vec<Workspace>,
    selection: Selection,
    accounts: Vec<WorkspaceAuthAccount>,
    secret: String,
    error: AppError,
)
    requires
        call_ensures(ConnectionCopy::start, (request,), begun),
    ensures
        ({
            let loaded = begun.turn->state.after(ConnectionCopyReply::Source(Ok(source)));
            let listed = loaded.1->state.after(ConnectionCopyReply::Workspaces(Ok(workspaces)));
            let selected = listed.1->state.after(ConnectionCopyReply::Selected(Ok(selection)));
            let known = selected.1->state.after(ConnectionCopyReply::Accounts(Ok(accounts)));
            let read = known.1->state.after(ConnectionCopyReply::Secret(Ok(secret)));
            let team = exists|i: int|
                0 <= i < workspaces@.len() && (#[trigger] workspaces@[i]).id == request.workspace_id
                    && workspaces@[i].kind == WorkspaceKind::Team;
            let chosen = selection.workspace_id == request.workspace_id && (
            selection.account_user_id matches Some(id) && id@ == request.account_user_id@);
            let member = exists|i: int, j: int|
                0 <= i < accounts@.len() && 0 <= j < accounts@[i].memberships@.len()
                    && accounts@[i].user.id@ == request.account_user_id@ && (
                #[trigger] accounts@[i].memberships@[j]).workspace_id == request.workspace_id;
            &&& begun.effects@.len() == 0 && loaded.0.len() == 0
            &&& begun.turn matches Turn::Ask {
                request: ConnectionCopyRequest::LoadConnection { connection_id },
                ..
            } && connection_id == request.connection_id
            &&& begun.turn->state.after(ConnectionCopyReply::Source(Err(error))).1 matches Turn::Done(
                Err(told),
            ) && told == error
            &&& if source.workspace_access != WorkspaceConnectionAccess::Local {
                loaded.1 matches Turn::Done(Err(AppError::Config(text))) && text == Text::Plain(
                    "only a local connection can be copied into a workspace",
                )
            } else {
                &&& loaded.1 matches Turn::Ask { request: ConnectionCopyRequest::ListWorkspaces, .. }
                &&& listed.0.len() == 0
                &&& loaded.1->state.after(
                    ConnectionCopyReply::Workspaces(Err(error)),
                ).1 matches Turn::Done(Err(told)) && told == error
                &&& if !team {
                    listed.1 matches Turn::Done(Err(AppError::NotFound(text))) && text
                        == Text::WithId("team workspace ", request.workspace_id, "")
                } else {
                    &&& listed.1 matches Turn::Ask {
                        request: ConnectionCopyRequest::LoadSelection,
                        ..
                    }
                    &&& selected.0.len() == 0
                    &&& listed.1->state.after(
                        ConnectionCopyReply::Selected(Err(error)),
                    ).1 matches Turn::Done(Err(told)) && told == error
                    &&& if chosen {
                        selected.1 matches Turn::Done(Err(AppError::Config(text))) && text
                            == Text::Plain("choose a different team workspace")
                    } else {
                        &&& selected.1 matches Turn::Ask {
                            request: ConnectionCopyRequest::ListAccounts,
                            ..
                        }
                        &&& known.0.len() == 0
                        &&& selected.1->state.after(
                            ConnectionCopyReply::Accounts(Err(error)),
                        ).1 matches Turn::Done(Err(told)) && told == error
                        &&& if !member {
                            known.1 matches Turn::Done(Err(AppError::NotFound(text))) && text
                                == Text::IdThenText(
                                "workspace ",
                                request.workspace_id,
                                " for account ",
                                request.account_user_id,
                            )
                        } else {
                            match source.secret_ref {
                                None => {
                                    &&& known.1 matches Turn::Ask {
                                        state: ConnectionCopy::Remote {
                                            request: kept,
                                            source: copied,
                                            secret: None,
                                        },
                                        request: ConnectionCopyRequest::FetchRemote {
                                            account_user_id,
                                            workspace_id,
                                        },
                                    }
                                    &&& kept == request && copied == source
                                    &&& account_user_id == request.account_user_id
                                    &&& workspace_id == request.workspace_id
                                },
                                Some(reference) => {
                                    &&& known.1 matches Turn::Ask {
                                        request: ConnectionCopyRequest::FetchSecret { secret_ref },
                                        ..
                                    }
                                    &&& secret_ref == reference
                                    &&& read.0.len() == 0
                                    &&& known.1->state.after(
                                        ConnectionCopyReply::Secret(Err(error)),
                                    ).1 == ConnectionCopyTurn::Done(Err(error))
                                    &&& read.1 matches Turn::Ask {
                                        state: ConnectionCopy::Remote {
                                            request: kept,
                                            source: copied,
                                            secret: Some(held),
                                        },
                                        request: ConnectionCopyRequest::FetchRemote {
                                            account_user_id,
                                            workspace_id,
                                        },
                                    }
                                    &&& kept == request && copied == source && held == secret
                                    &&& account_user_id == request.account_user_id
                                    &&& workspace_id == request.workspace_id
                                },
                            }
                        }
                    }
                }
            }
        }),
{
    if exists|i: int, j: int|
        0 <= i < accounts@.len() && 0 <= j < accounts@[i].memberships@.len()
            && accounts@[i].user.id@ == request.account_user_id@ && (
        #[trigger] accounts@[i].memberships@[j]).workspace_id == request.workspace_id {
        let (i, j) = choose|i: int, j: int|
            0 <= i < accounts@.len() && 0 <= j < accounts@[i].memberships@.len()
                && accounts@[i].user.id@ == request.account_user_id@ && (
            #[trigger] accounts@[i].memberships@[j]).workspace_id == request.workspace_id;
        assert(is_member(
            accounts@[i].memberships@,
            request.workspace_id,
        ));
    }
}

/// The rest of a copy, told by what was requested and answered. The credential is stored
/// under the fresh id; what is shared is the shared part of the copied connection, for that
/// account and workspace; the cache is brought in line with the templates that were fetched
/// and the one created; and what is bound to it is the user, the parameters and the
/// credential of the copied connection. A failure is told as it is; before the template
/// exists it only lets the credential go, and afterwards it has the template deleted too,
/// whose cached row goes where the server deleted it.
#[verifier::spinoff_prover]
#[verifier::rlimit(60)]
pub proof fn copies_share_and_bind_the_source(
    request: WorkspaceConnectionCopyRequest,
    source: ConnectionProfile,
    secret: Option<String>,
    templates: Vec<(ConnectionProfile, i64)>,
    fresh_id: u128,
    created: CreatedTemplate,
    synced: ConnectionCopyStep,
    removed: Vec<u128>,
    bound: ConnectionProfile,
    error: AppError,
)
    requires
        ({
            let fetched = (ConnectionCopy::Remote { request, source, secret }).after(
                ConnectionCopyReply::Remote { remote: Ok(Some(templates)), fresh_id },
            );
            let stored = fetched.1->state.after(ConnectionCopyReply::Stored(Ok(())));
            let at = if secret is Some {
                stored.1->state
            } else {
                fetched.1->state
            };
            at.follows(ConnectionCopyReply::Shared(Ok(created)), synced)
        }),
    ensures
        ({
            let credential = if secret is Some {
                Some(fresh_id)
            } else {
                None
            };
            let begun = ConnectionCopy::Remote { request, source, secret };
            let fetched = begun.after(
                ConnectionCopyReply::Remote { remote: Ok(Some(templates)), fresh_id },
            );
            let stored = fetched.1->state.after(ConnectionCopyReply::Stored(Ok(())));
            let sharing = if secret is Some {
                stored
            } else {
                fetched
            };
            let unshared = sharing.1->state.after(ConnectionCopyReply::Shared(Err(error)));
            let binding = synced.turn->state.after(ConnectionCopyReply::Synced(Ok(removed)));
            let unsynced = synced.turn->state.after(ConnectionCopyReply::Synced(Err(error)));
            let ended = binding.1->state.after(ConnectionCopyReply::Bound(Ok(bound)));
            let unbound = binding.1->state.after(ConnectionCopyReply::Bound(Err(error)));
            &&& begun.after(
                ConnectionCopyReply::Remote { remote: Err(error), fresh_id },
            ).1 matches Turn::Done(Err(told)) && told == error
            &&& begun.after(
                ConnectionCopyReply::Remote { remote: Ok(None), fresh_id },
            ).1 matches Turn::Done(Err(AppError::Network(text))) && text == Text::Plain(
                "the workspace service has not deployed shared connections yet",
            )
            &&& fetched.0.len() == 0 && sharing.0.len() == 0
            &&& (secret matches Some(held) ==> {
                &&& fetched.1 matches Turn::Ask {
                    request: ConnectionCopyRequest::StoreSecret { credential_id, secret: put },
                    ..
                }
                &&& credential_id == fresh_id && put == held
                &&& fetched.1->state.after(
                    ConnectionCopyReply::Stored(Err(error)),
                ).1 matches Turn::Done(Err(told)) && told == error
            })
            &&& sharing.1 matches Turn::Ask {
                request: ConnectionCopyRequest::Share { account_user_id, workspace_id, template },
                ..
            } && account_user_id == request.account_user_id && workspace_id
                == request.workspace_id && template == shared_part(source)
            &&& unshared.1 matches Turn::Done(Err(told)) && told == error
            &&& (match credential {
                Some(id) => unshared.0 == seq![
                    Effect::DeleteSecret { credential_id: id, action: "share_connection" },
                ],
                None => unshared.0.len() == 0,
            })
            &&& synced.effects@.len() == 0
            &&& synced.turn matches Turn::Ask {
                request: ConnectionCopyRequest::SyncRemote {
                    account_user_id,
                    workspace_id,
                    templates: given,
                },
                ..
            } && account_user_id == request.account_user_id && workspace_id
                == request.workspace_id && given@ == templates@.push(
                (created.profile, created.revision),
            )
            &&& binding.1 matches Turn::Ask {
                request: ConnectionCopyRequest::Bind {
                    connection_id,
                    account_user_id,
                    username,
                    extra_params,
                    credential: given,
                },
                ..
            } && connection_id == created.profile.id && account_user_id == request.account_user_id
                && username == source.username && extra_params == source.extra_params && given
                == credential
            &&& binding.0.len() == removed@.len()
            &&& (forall|i: int|
                0 <= i < removed@.len() ==> #[trigger] binding.0[i] == (Effect::DeleteSecret {
                    credential_id: removed@[i],
                    action: "remove_remote_connection",
                }))
            &&& ended.0.len() == 0
            &&& ended.1 matches Turn::Done(Ok(told)) && told == bound
            &&& is_taken_back(request, credential, created.profile.id, error, unsynced.0, unsynced.1)
            &&& is_taken_back(request, credential, created.profile.id, error, unbound.0, unbound.1)
        }),
{
}

/// Whether the copied credential is let go and the server asked to delete the template,
/// after which the copy ends with the error.
pub open spec fn is_taken_back(
    request: WorkspaceConnectionCopyRequest,
    credential: Option<u128>,
    created_id: u128,
    error: AppError,
    effects: Seq<Effect>,
    turn: ConnectionCopyTurn,
) -> bool {
    &&& match credential {
        Some(id) => effects == seq![
            Effect::DeleteSecret { credential_id: id, action: "persist_shared_connection" },
        ],
        None => effects.len() == 0,
    }
    &&& turn matches Turn::Ask {
        state,
        request: ConnectionCopyRequest::DeleteRemote { account_user_id, workspace_id, connection_id },
    }
    &&& account_user_id == request.account_user_id
    &&& workspace_id == request.workspace_id
    &&& connection_id == created_id
    &&& state.after(ConnectionCopyReply::Undone(Ok(()))).1 matches Turn::Done(Err(told)) && told
        == error
    &&& state.after(ConnectionCopyReply::Undone(Ok(()))).0 == seq![
        Effect::PurgeRemoteConnection {
            workspace_id: request.workspace_id,
            connection_id: created_id,
        },
    ]
    &&& forall|other: AppError|
        {
            let undone = #[trigger] state.after(ConnectionCopyReply::Undone(Err(other)));
            undone.0.len() == 0 && (undone.1 matches Turn::Done(Err(told)) && told == error)
        }
}

} // verus!
