//! What the control plane says of workspaces and shared connections, and what it is told.
use vstd::prelude::*;
use vstd::string::*;

use crate::error::{AppError, AppResult};
use crate::ids::{parse_id, parsed_id};
use crate::model::{
    ConnectionProfile, Engine, Provider, WorkspaceConnectionAccess, WorkspaceCredentialMode,
};
use crate::store::codec::{
    access_name, access_name_is_read_back, access_named, engine_name, engine_name_is_read_back,
    engine_named, engine_str, parse_engine, parse_provider, parse_workspace_access, provider_name,
    provider_name_is_read_back, provider_named, provider_str,
};
use crate::text::{byte_count, byte_len, trim, trimmed, Text};

verus! {

/// A membership as the control plane reports it.
#[derive(PartialEq, Eq)]
pub struct RemoteWorkspaceResponse {
    pub id: String,
    pub name: String,
}

/// A workspace that an account belongs to.
#[derive(PartialEq, Eq)]
pub struct RemoteWorkspace {
    pub id: u128,
    pub name: String,
}

/// The longest name that is taken over, in bytes.
pub const MAX_NAME_BYTES: usize = 120;

/// The longest host that is taken over, in bytes.
pub const MAX_HOST_BYTES: usize = 512;

/// Why a reported membership is refused, if it is.
pub open spec fn workspace_problem(value: RemoteWorkspaceResponse) -> Option<AppError> {
    let name = trimmed(value.name@);
    if parsed_id(value.id@) is Err {
        Some(AppError::Network(Text::Plain("workspace membership returned an invalid id")))
    } else if name.len() == 0 || byte_count(name) > MAX_NAME_BYTES {
        Some(AppError::Network(Text::Plain("workspace membership returned an invalid name")))
    } else {
        None
    }
}

/// Whether a workspace is what a reported membership says.
pub open spec fn is_workspace(workspace: RemoteWorkspace, value: RemoteWorkspaceResponse) -> bool {
    parsed_id(value.id@) == Ok::<u128, Seq<char>>(workspace.id) && workspace.name@ == trimmed(
        value.name@,
    )
}

/// The first problem among the reported memberships.
pub open spec fn first_workspace_problem(values: Seq<RemoteWorkspaceResponse>) -> Option<AppError>
    decreases values.len(),
{
    if values.len() == 0 {
        None
    } else {
        match workspace_problem(values[0]) {
            Some(error) => Some(error),
            None => first_workspace_problem(values.drop_first()),
        }
    }
}

fn read_workspace(value: &RemoteWorkspaceResponse) -> (r: AppResult<RemoteWorkspace>)
    ensures
        match workspace_problem(*value) {
            Some(error) => r == Err::<RemoteWorkspace, AppError>(error),
            None => r is Ok && is_workspace(r->Ok_0, *value),
        },
{
    let id = match parse_id(value.id.as_str()) {
        Ok(id) => id,
        Err(_) => {
            return Err(
                AppError::Network(Text::Plain("workspace membership returned an invalid id")),
            );
        },
    };
    let name = trim(value.name.as_str());
    if name.unicode_len() == 0 || byte_len(name) > MAX_NAME_BYTES {
        return Err(
            AppError::Network(Text::Plain("workspace membership returned an invalid name")),
        );
    }
    Ok(RemoteWorkspace { id, name: name.to_owned() })
}

/// Reads the memberships of an account. One that is unfit makes the whole report unfit.
pub fn read_workspaces(values: &Vec<RemoteWorkspaceResponse>) -> (r: AppResult<
    Vec<RemoteWorkspace>,
>)
    ensures
        match first_workspace_problem(values@) {
            Some(error) => r == Err::<Vec<RemoteWorkspace>, AppError>(error),
            None => {
                &&& r is Ok
                &&& r->Ok_0@.len() == values@.len()
                &&& forall|i: int|
                    0 <= i < values@.len() ==> is_workspace(#[trigger] r->Ok_0@[i], values@[i])
            },
        },
{
    let mut workspaces: Vec<RemoteWorkspace> = Vec::new();
    let mut i: usize = 0;
    assert(values@.subrange(0, values@.len() as int) =~= values@);
    while i < values.len()
        invariant
            i <= values@.len(),
            workspaces@.len() == i,
            first_workspace_problem(values@) == first_workspace_problem(
                values@.subrange(i as int, values@.len() as int),
            ),
            forall|j: int| 0 <= j < i ==> is_workspace(#[trigger] workspaces@[j], values@[j]),
        decreases values@.len() - i,
    {
        assert(values@.subrange(i as int, values@.len() as int).drop_first() =~= values@.subrange(
            i + 1,
            values@.len() as int,
        ));
        match read_workspace(&values[i]) {
            Ok(workspace) => {
                workspaces.push(workspace);
            },
            Err(error) => {
                return Err(error);
            },
        }
        i = i + 1;
    }
    assert(values@.subrange(values@.len() as int, values@.len() as int) =~= Seq::empty());
    Ok(workspaces)
}

/// A shared connection as the control plane reports it.
#[derive(PartialEq, Eq)]
pub struct RemoteConnectionResponse {
    pub id: String,
    pub name: String,
    pub engine: String,
    pub provider: String,
    pub driver_id: Option<String>,
    pub host: String,
    pub port: u16,
    pub database: String,
    pub sslmode: String,
    pub readonly_default: bool,
    pub allow_writes: bool,
    pub env: Option<String>,
    pub schema_group: Option<String>,
    pub revision: i64,
    pub access_mode: String,
}

/// Why a reported connection is refused, if it is.
pub open spec fn connection_problem(value: RemoteConnectionResponse) -> Option<AppError> {
    if parsed_id(value.id@) is Err {
        Some(AppError::Network(Text::Plain("shared connection returned an invalid id")))
    } else if trimmed(value.name@).len() == 0 || byte_count(value.name@) > MAX_NAME_BYTES
        || byte_count(value.host@) > MAX_HOST_BYTES {
        Some(AppError::Network(Text::Plain("shared connection returned invalid metadata")))
    } else if access_named(value.access_mode@) is None {
        Some(
            AppError::Config(
                Text::WithText("unknown workspace connection access '", value.access_mode, "'"),
            ),
        )
    } else if access_named(value.access_mode@) == Some(WorkspaceConnectionAccess::Local) {
        Some(AppError::Network(Text::Plain("shared connection returned invalid access")))
    } else if value.revision < 1 {
        Some(AppError::Network(Text::Plain("shared connection returned invalid revision")))
    } else if engine_named(value.engine@) is None {
        Some(AppError::Config(Text::WithText("unknown engine '", value.engine, "'")))
    } else if provider_named(value.provider@) is None {
        Some(AppError::Config(Text::WithText("unknown provider '", value.provider, "'")))
    } else {
        None
    }
}

/// Whether a profile is what a reported connection says. The user name, the parameters and
/// the credential are the member's own, so a shared connection has none of them.
pub open spec fn is_connection(
    profile: ConnectionProfile,
    value: RemoteConnectionResponse,
) -> bool {
    &&& parsed_id(value.id@) == Ok::<u128, Seq<char>>(profile.id)
    &&& profile.name == value.name
    &&& engine_named(value.engine@) == Some(profile.engine)
    &&& provider_named(value.provider@) == Some(profile.provider)
    &&& profile.driver_id == value.driver_id
    &&& profile.host == value.host
    &&& profile.port == value.port
    &&& profile.database == value.database
    &&& profile.username@ == Seq::<char>::empty()
    &&& profile.sslmode == value.sslmode
    &&& profile.extra_params@ == Seq::<(String, String)>::empty()
    &&& profile.readonly_default == value.readonly_default
    &&& access_named(value.access_mode@) == Some(profile.workspace_access)
    &&& profile.allow_writes == (value.allow_writes && profile.workspace_access.spec_can_write())
    &&& profile.secret_ref is None
    &&& profile.env == value.env
    &&& profile.schema_group == value.schema_group
    &&& profile.credential_mode == WorkspaceCredentialMode::MemberLocal
}

/// Reads a shared connection and its revision.
pub fn remote_connection(value: RemoteConnectionResponse) -> (r: AppResult<
    (ConnectionProfile, i64),
>)
    ensures
        match connection_problem(value) {
            Some(error) => r == Err::<(ConnectionProfile, i64), AppError>(error),
            None => r is Ok && is_connection((r->Ok_0).0, value) && (r->Ok_0).1 == value.revision,
        },
{
    let id = match parse_id(value.id.as_str()) {
        Ok(id) => id,
        Err(_) => {
            return Err(
                AppError::Network(Text::Plain("shared connection returned an invalid id")),
            );
        },
    };
    if trim(value.name.as_str()).unicode_len() == 0 || byte_len(value.name.as_str())
        > MAX_NAME_BYTES || byte_len(value.host.as_str()) > MAX_HOST_BYTES {
        return Err(AppError::Network(Text::Plain("shared connection returned invalid metadata")));
    }
    let access = match parse_workspace_access(value.access_mode) {
        Ok(access) => access,
        Err(error) => {
            return Err(error);
        },
    };
    if access == WorkspaceConnectionAccess::Local {
        return Err(AppError::Network(Text::Plain("shared connection returned invalid access")));
    }
    let revision: i64 = value.revision;
    if revision < 1 {
        return Err(AppError::Network(Text::Plain("shared connection returned invalid revision")));
    }
    let engine = match parse_engine(value.engine) {
        Ok(engine) => engine,
        Err(error) => {
            return Err(error);
        },
    };
    let provider = match parse_provider(value.provider) {
        Ok(provider) => provider,
        Err(error) => {
            return Err(error);
        },
    };
    Ok(
        (
            ConnectionProfile {
                id,
                name: value.name,
                engine,
                provider,
                driver_id: value.driver_id,
                host: value.host,
                port: value.port,
                database: value.database,
                username: String::new(),
                sslmode: value.sslmode,
                extra_params: Vec::new(),
                readonly_default: value.readonly_default,
                allow_writes: value.allow_writes && access.can_write(),
                secret_ref: None,
                env: value.env,
                schema_group: value.schema_group,
                workspace_access: access,
                credential_mode: WorkspaceCredentialMode::MemberLocal,
            },
            revision,
        ),
    )
}

/// The first problem among the reported connections.
pub open spec fn first_connection_problem(values: Seq<RemoteConnectionResponse>) -> Option<AppError>
    decreases values.len(),
{
    if values.len() == 0 {
        None
    } else {
        match connection_problem(values[0]) {
            Some(error) => Some(error),
            None => first_connection_problem(values.drop_first()),
        }
    }
}

/// Reads the shared connections of a workspace. One that is unfit makes the whole report
/// unfit.
pub fn read_connections(values: Vec<RemoteConnectionResponse>) -> (r: AppResult<
    Vec<(ConnectionProfile, i64)>,
>)
    ensures
        match first_connection_problem(values@) {
            Some(error) => r == Err::<Vec<(ConnectionProfile, i64)>, AppError>(error),
            None => {
                &&& r is Ok
                &&& r->Ok_0@.len() == values@.len()
                &&& forall|i: int|
                    0 <= i < values@.len() ==> is_connection(
                        (#[trigger] r->Ok_0@[i]).0,
                        values@[i],
                    ) && r->Ok_0@[i].1 == values@[i].revision
            },
        },
{
    let ghost all = values@;
    let mut rest = values;
    let mut connections: Vec<(ConnectionProfile, i64)> = Vec::new();
    let mut i: usize = 0;
    assert(all.subrange(0, all.len() as int) =~= all);
    while rest.len() > 0
        invariant
            all == values@,
            i + rest@.len() == all.len(),
            rest@ == all.subrange(i as int, all.len() as int),
            connections@.len() == i,
            first_connection_problem(all) == first_connection_problem(rest@),
            forall|j: int|
                0 <= j < i ==> is_connection((#[trigger] connections@[j]).0, all[j])
                    && connections@[j].1 == all[j].revision,
        decreases rest@.len(),
    {
        let ghost before = rest@;
        let value = rest.remove(0);
        assert(rest@ =~= all.subrange(i + 1, all.len() as int));
        assert(before.drop_first() =~= rest@);
        assert(before[0] == value && all[i as int] == value);
        match remote_connection(value) {
            Ok(connection) => {
                connections.push(connection);
            },
            Err(error) => {
                return Err(error);
            },
        }
        i = connections.len();
    }
    Ok(connections)
}

/// The part of a connection that is shared. It has no place for a user name, a parameter
/// or a credential.
#[derive(PartialEq, Eq)]
pub struct SharedConnectionRequest {
    pub name: String,
    pub engine: &'static str,
    pub provider: &'static str,
    pub driver_id: Option<String>,
    pub host: String,
    pub port: u16,
    pub database: String,
    pub sslmode: String,
    pub readonly_default: bool,
    pub allow_writes: bool,
    pub env: Option<String>,
    pub schema_group: Option<String>,
}

/// The part of this profile that is shared.
pub open spec fn shared_part(profile: ConnectionProfile) -> SharedConnectionRequest {
    SharedConnectionRequest {
        name: profile.name,
        engine: engine_name(profile.engine),
        provider: provider_name(profile.provider),
        driver_id: profile.driver_id,
        host: profile.host,
        port: profile.port,
        database: profile.database,
        sslmode: profile.sslmode,
        readonly_default: profile.readonly_default,
        allow_writes: profile.allow_writes,
        env: profile.env,
        schema_group: profile.schema_group,
    }
}

/// Computes [`shared_part`].
pub fn share_request(profile: &ConnectionProfile) -> (r: SharedConnectionRequest)
    ensures
        r == shared_part(*profile),
{
    SharedConnectionRequest {
        name: profile.name.clone(),
        engine: engine_str(profile.engine),
        provider: provider_str(profile.provider),
        driver_id: profile.driver_id.clone(),
        host: profile.host.clone(),
        port: profile.port,
        database: profile.database.clone(),
        sslmode: profile.sslmode.clone(),
        readonly_default: profile.readonly_default,
        allow_writes: profile.allow_writes,
        env: profile.env.clone(),
        schema_group: profile.schema_group.clone(),
    }
}

/// Two profiles that differ only in what is their owner's own are shared alike: nothing of
/// it is sent.
pub proof fn nothing_private_is_shared(a: ConnectionProfile, b: ConnectionProfile)
    requires
        b == (ConnectionProfile {
            id: b.id,
            username: b.username,
            extra_params: b.extra_params,
            secret_ref: b.secret_ref,
            workspace_access: b.workspace_access,
            credential_mode: b.credential_mode,
            ..a
        }),
    ensures
        shared_part(a) == shared_part(b),
{
}

/// What the access to a shared connection is authorized for.
pub fn authorized_action(write: bool) -> (r: &'static str)
    ensures
        r == if write {
            "write"
        } else {
            "read"
        },
{
    if write {
        "write"
    } else {
        "read"
    }
}

/// What is shared of a connection is the connection's own: every field of the request is
/// the field of the same name, and the engine and the provider are the texts that every
/// reader takes for them. So a report that gives these fields back is read as a
/// connection that agrees with the one that was shared in all of them; only whether it
/// may be written to depends, besides, on the member's access.
pub proof fn a_shared_connection_is_read_as_it_was(
    source: ConnectionProfile,
    report: RemoteConnectionResponse,
    read: ConnectionProfile,
)
    ensures
        ({
            forall|request: SharedConnectionRequest| #[trigger]
                call_ensures(share_request, (&source,), request) ==> {
                    &&& request.name == source.name
                    &&& request.engine@ == match source.engine {
                        Engine::Postgres => "postgres"@,
                        Engine::Mysql => "mysql"@,
                        Engine::Sqlite => "sqlite"@,
                        Engine::Mongodb => "mongodb"@,
                    }
                    &&& request.provider@ == match source.provider {
                        Provider::Auto => "auto"@,
                        Provider::Generic => "generic"@,
                        Provider::Neon => "neon"@,
                        Provider::PlanetScale => "planetScale"@,
                    }
                    &&& request.driver_id == source.driver_id
                    &&& request.host == source.host
                    &&& request.port == source.port
                    &&& request.database == source.database
                    &&& request.sslmode == source.sslmode
                    &&& request.readonly_default == source.readonly_default
                    &&& request.allow_writes == source.allow_writes
                    &&& request.env == source.env
                    &&& request.schema_group == source.schema_group
                    &&& report.name == request.name && report.engine@ == request.engine@
                        && report.provider@ == request.provider@ && report.driver_id
                        == request.driver_id && report.host == request.host && report.port
                        == request.port && report.database == request.database && report.sslmode
                        == request.sslmode && report.readonly_default == request.readonly_default
                        && report.allow_writes == request.allow_writes && report.env
                        == request.env && report.schema_group == request.schema_group
                        && is_connection(read, report) ==> {
                        &&& read.name == source.name
                        &&& read.engine == source.engine
                        &&& read.provider == source.provider
                        &&& read.driver_id == source.driver_id
                        &&& read.host == source.host
                        &&& read.port == source.port
                        &&& read.database == source.database
                        &&& read.sslmode == source.sslmode
                        &&& read.readonly_default == source.readonly_default
                        &&& read.allow_writes ==> source.allow_writes
                        &&& read.workspace_access.spec_can_write() ==> read.allow_writes
                            == source.allow_writes
                        &&& read.env == source.env
                        &&& read.schema_group == source.schema_group
                    }
                }
        }),
{
    engine_name_is_read_back(source.engine);
    provider_name_is_read_back(source.provider);
}

/// What is read of a reported connection is what the report says, and it is a member's
/// own: it has no user, no parameters and no credential, and it is no local connection.
/// A report is read exactly where its id is an id, its name is neither blank nor longer
/// than a hundred and twenty bytes, its host is not longer than five hundred and twelve,
/// its revision is positive, and its texts name a member's access, an engine and a
/// provider.
pub proof fn reported_connections_are_read_as_they_stand(value: RemoteConnectionResponse)
    ensures
        forall|r: AppResult<(ConnectionProfile, i64)>| #[trigger]
            call_ensures(remote_connection, (value,), r) ==> {
                &&& r matches Ok((read, revision)) ==> {
                    &&& parsed_id(value.id@) == Ok::<u128, Seq<char>>(read.id)
                    &&& read.name == value.name
                    &&& value.engine@ == "postgres"@ <==> read.engine == Engine::Postgres
                    &&& value.engine@ == "mysql"@ <==> read.engine == Engine::Mysql
                    &&& value.engine@ == "sqlite"@ <==> read.engine == Engine::Sqlite
                    &&& value.engine@ == "mongodb"@ <==> read.engine == Engine::Mongodb
                    &&& value.provider@ == "auto"@ <==> read.provider == Provider::Auto
                    &&& value.provider@ == "generic"@ <==> read.provider == Provider::Generic
                    &&& value.provider@ == "neon"@ <==> read.provider == Provider::Neon
                    &&& value.provider@ == "planetScale"@ <==> read.provider
                        == Provider::PlanetScale
                    &&& read.driver_id == value.driver_id
                    &&& read.host == value.host
                    &&& read.port == value.port
                    &&& read.database == value.database
                    &&& read.username@.len() == 0
                    &&& read.sslmode == value.sslmode
                    &&& read.extra_params@.len() == 0
                    &&& read.readonly_default == value.readonly_default
                    &&& read.secret_ref is None
                    &&& read.env == value.env
                    &&& read.schema_group == value.schema_group
                    &&& read.credential_mode == WorkspaceCredentialMode::MemberLocal
                    &&& read.workspace_access != WorkspaceConnectionAccess::Local
                    &&& value.access_mode@ == "view"@ <==> read.workspace_access
                        == WorkspaceConnectionAccess::View
                    &&& value.access_mode@ == "read"@ <==> read.workspace_access
                        == WorkspaceConnectionAccess::Read
                    &&& value.access_mode@ == "write"@ <==> read.workspace_access
                        == WorkspaceConnectionAccess::Write
                    &&& value.access_mode@ == "manage"@ <==> read.workspace_access
                        == WorkspaceConnectionAccess::Manage
                    &&& read.allow_writes == (value.allow_writes && (read.workspace_access
                        == WorkspaceConnectionAccess::Write || read.workspace_access
                        == WorkspaceConnectionAccess::Manage))
                    &&& revision == value.revision
                }
                &&& r is Ok <==> {
                    &&& parsed_id(value.id@) is Ok
                    &&& trimmed(value.name@).len() > 0
                    &&& byte_count(value.name@) <= 120
                    &&& byte_count(value.host@) <= 512
                    &&& value.revision >= 1
                    &&& value.access_mode@ == "view"@ || value.access_mode@ == "read"@
                        || value.access_mode@ == "write"@ || value.access_mode@ == "manage"@
                    &&& value.engine@ == "postgres"@ || value.engine@ == "mysql"@ || value.engine@
                        == "sqlite"@ || value.engine@ == "mongodb"@
                    &&& value.provider@ == "auto"@ || value.provider@ == "generic"@
                        || value.provider@ == "neon"@ || value.provider@ == "planetScale"@
                }
            },
{
    assert forall|engine: Engine| engine_named(#[trigger] engine_name(engine)@) == Some(engine) by {
        engine_name_is_read_back(engine);
    }
    assert forall|provider: Provider|
        provider_named(#[trigger] provider_name(provider)@) == Some(provider) by {
        provider_name_is_read_back(provider);
    }
    assert forall|access: WorkspaceConnectionAccess|
        access_named(#[trigger] access_name(access)@) == Some(access) by {
        access_name_is_read_back(access);
    }
    assert(engine_name(Engine::Postgres)@ == "postgres"@);
    assert(engine_name(Engine::Mysql)@ == "mysql"@);
    assert(engine_name(Engine::Sqlite)@ == "sqlite"@);
    assert(engine_name(Engine::Mongodb)@ == "mongodb"@);
    assert(provider_name(Provider::Auto)@ == "auto"@);
    assert(provider_name(Provider::Generic)@ == "generic"@);
    assert(provider_name(Provider::Neon)@ == "neon"@);
    assert(provider_name(Provider::PlanetScale)@ == "planetScale"@);
    assert(access_name(WorkspaceConnectionAccess::View)@ == "view"@);
    assert(access_name(WorkspaceConnectionAccess::Read)@ == "read"@);
    assert(access_name(WorkspaceConnectionAccess::Write)@ == "write"@);
    assert(access_name(WorkspaceConnectionAccess::Manage)@ == "manage"@);
    assert(access_name(WorkspaceConnectionAccess::Local)@ == "local"@);
}

/// A shared connection is authorized for writing exactly where it is to be written to.
pub proof fn writing_is_authorized_as_writing(write: bool)
    ensures
        forall|r: &'static str| #[trigger]
            call_ensures(authorized_action, (write,), r) ==> (write ==> r@ == "write"@) && (!write
                ==> r@ == "read"@),
{
}

/// A reported membership is read exactly where its id is an id and its name, without the
/// white space around it, is neither empty nor longer than a hundred and twenty bytes; it
/// is read as that id and that name. A report is read exactly where each of its
/// memberships is, and else the first that is not is told.
pub proof fn reported_memberships_are_read_as_they_stand(
    values: Seq<RemoteWorkspaceResponse>,
    value: RemoteWorkspaceResponse,
    workspace: RemoteWorkspace,
)
    ensures
        workspace_problem(value) is None <==> parsed_id(value.id@) is Ok && trimmed(
            value.name@,
        ).len() > 0 && byte_count(trimmed(value.name@)) <= 120,
        workspace_problem(value) matches Some(error) ==> error == AppError::Network(
            Text::Plain(
                if parsed_id(value.id@) is Err {
                    "workspace membership returned an invalid id"
                } else {
                    "workspace membership returned an invalid name"
                },
            ),
        ),
        is_workspace(workspace, value) <==> parsed_id(value.id@) == Ok::<u128, Seq<char>>(
            workspace.id,
        ) && workspace.name@ == trimmed(value.name@),
        match first_workspace_problem(values) {
            None => forall|k: int|
                0 <= k < values.len() ==> workspace_problem(#[trigger] values[k]) is None,
            Some(error) => exists|k: int|
                0 <= k < values.len() && workspace_problem(#[trigger] values[k]) == Some(error)
                    && forall|j: int|
                    0 <= j < k ==> workspace_problem(#[trigger] values[j]) is None,
        },
    decreases values.len(),
{
    if values.len() > 0 {
        let rest = values.drop_first();
        reported_memberships_are_read_as_they_stand(rest, value, workspace);
        if workspace_problem(values[0]) is None {
            match first_workspace_problem(rest) {
                None => {
                    assert forall|k: int| 0 <= k < values.len() implies workspace_problem(
                        #[trigger] values[k],
                    ) is None by {
                        if k > 0 {
                            assert(rest[k - 1] == values[k]);
                        }
                    }
                },
                Some(error) => {
                    let k = choose|k: int|
                        0 <= k < rest.len() && workspace_problem(#[trigger] rest[k]) == Some(error)
                            && forall|j: int|
                            0 <= j < k ==> workspace_problem(#[trigger] rest[j]) is None;
                    assert(workspace_problem(values[k + 1]) == Some(error));
                    assert forall|j: int| 0 <= j < k + 1 implies workspace_problem(
                        #[trigger] values[j],
                    ) is None by {
                        if j > 0 {
                            assert(rest[j - 1] == values[j]);
                        }
                    }
                },
            }
        } else {
            assert(workspace_problem(values[0]) == first_workspace_problem(values));
        }
    }
}

/// A report of shared connections is read exactly where each of them is, and else the first
/// that is not is told.
pub proof fn reports_are_read_whole(values: Seq<RemoteConnectionResponse>)
    ensures
        match first_connection_problem(values) {
            None => forall|k: int|
                0 <= k < values.len() ==> connection_problem(#[trigger] values[k]) is None,
            Some(error) => exists|k: int|
                0 <= k < values.len() && connection_problem(#[trigger] values[k]) == Some(error)
                    && forall|j: int|
                    0 <= j < k ==> connection_problem(#[trigger] values[j]) is None,
        },
    decreases values.len(),
{
    if values.len() > 0 {
        let rest = values.drop_first();
        reports_are_read_whole(rest);
        if connection_problem(values[0]) is None {
            match first_connection_problem(rest) {
                None => {
                    assert forall|k: int| 0 <= k < values.len() implies connection_problem(
                        #[trigger] values[k],
                    ) is None by {
                        if k > 0 {
                            assert(rest[k - 1] == values[k]);
                        }
                    }
                },
                Some(error) => {
                    let k = choose|k: int|
                        0 <= k < rest.len() && connection_problem(#[trigger] rest[k]) == Some(error)
                            && forall|j: int|
                            0 <= j < k ==> connection_problem(#[trigger] rest[j]) is None;
                    assert(connection_problem(values[k + 1]) == Some(error));
                    assert forall|j: int| 0 <= j < k + 1 implies connection_problem(
                        #[trigger] values[j],
                    ) is None by {
                        if j > 0 {
                            assert(rest[j - 1] == values[j]);
                        }
                    }
                },
            }
        } else {
            assert(connection_problem(values[0]) == first_connection_problem(values));
        }
    }
}

/// Why a reported connection is refused: the first of its faults, in this order, is told.
pub proof fn the_first_fault_is_told(value: RemoteConnectionResponse)
    ensures
        ({
            let metadata = trimmed(value.name@).len() == 0 || byte_count(value.name@) > 120
                || byte_count(value.host@) > 512;
            let member = value.access_mode@ == "view"@ || value.access_mode@ == "read"@
                || value.access_mode@ == "write"@ || value.access_mode@ == "manage"@;
            let engine = value.engine@ == "postgres"@ || value.engine@ == "mysql"@ || value.engine@
                == "sqlite"@ || value.engine@ == "mongodb"@;
            let problem = connection_problem(value);
            if parsed_id(value.id@) is Err {
                problem == Some(
                    AppError::Network(Text::Plain("shared connection returned an invalid id")),
                )
            } else if metadata {
                problem == Some(
                    AppError::Network(Text::Plain("shared connection returned invalid metadata")),
                )
            } else if !member && value.access_mode@ != "local"@ {
                problem matches Some(AppError::Config(text)) && text@
                    == "unknown workspace connection access '"@ + value.access_mode@ + "'"@
            } else if !member {
                problem == Some(
                    AppError::Network(Text::Plain("shared connection returned invalid access")),
                )
            } else if value.revision < 1 {
                problem == Some(
                    AppError::Network(Text::Plain("shared connection returned invalid revision")),
                )
            } else if !engine {
                problem matches Some(AppError::Config(text)) && text@ == "unknown engine '"@
                    + value.engine@ + "'"@
            } else {
                problem is Some ==> (problem matches Some(AppError::Config(text)) && text@
                    == "unknown provider '"@ + value.provider@ + "'"@)
            }
        }),
{
    access_name_is_read_back(WorkspaceConnectionAccess::View);
    access_name_is_read_back(WorkspaceConnectionAccess::Read);
    access_name_is_read_back(WorkspaceConnectionAccess::Write);
    access_name_is_read_back(WorkspaceConnectionAccess::Manage);
    access_name_is_read_back(WorkspaceConnectionAccess::Local);
}

} // verus!
