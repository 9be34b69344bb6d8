use dopedb::model::{
    ConnectionProfile, Engine, Provider, WorkspaceConnectionAccess, WorkspaceCredentialMode,
};
use dopedb::services::connection::groups::{
    normalize_schema_group, validate_schema_group_engine,
};
use dopedb::services::connection::select::{
    resolve_cli_summaries, resolve_legacy_profiles, AgentConnectionSummary,
    CliConnectionResolutionError, ConnectionSelector, LegacyConnectionResolutionError,
};
use dopedb::store::codec::{engine_str, parse_engine};
use uuid::Uuid;

const ALPHA_ID: &str = "018f9999-8888-7777-8666-555544443331";
const BETA_ID: &str = "018f9999-8888-7777-8666-555544443332";

fn local_profile(id: u128, name: &str, engine: Engine) -> ConnectionProfile {
    let (driver_id, port, database) = match engine {
        Engine::Postgres => ("sqlx-postgres", 5432, "postgres"),
        Engine::Mysql => ("sqlx-mysql", 3306, "mysql"),
        Engine::Sqlite => ("sqlx-sqlite", 0, ":memory:"),
        Engine::Mongodb => ("mongodb-rust", 27017, "admin"),
    };
    ConnectionProfile {
        id,
        name: name.into(),
        engine,
        provider: Provider::Generic,
        driver_id: Some(driver_id.into()),
        host: "localhost".into(),
        port,
        database: database.into(),
        username: "tester".into(),
        sslmode: "disable".into(),
        extra_params: Vec::new(),
        readonly_default: true,
        allow_writes: false,
        secret_ref: None,
        env: Some("test".into()),
        schema_group: None,
        workspace_access: WorkspaceConnectionAccess::Local,
        credential_mode: WorkspaceCredentialMode::Local,
    }
}

fn profile(id: &str, name: &str) -> ConnectionProfile {
    ConnectionProfile {
        id: Uuid::parse_str(id).unwrap().as_u128(),
        name: name.into(),
        engine: Engine::Postgres,
        provider: Provider::Neon,
        driver_id: Some("secret-driver".into()),
        host: "secret-host.example".into(),
        port: 5432,
        database: "analytics".into(),
        username: "secret-user".into(),
        sslmode: "require".into(),
        extra_params: vec![("secret-param".into(), "secret-value".into())],
        readonly_default: true,
        allow_writes: false,
        secret_ref: Some("secret-reference".into()),
        env: Some("prod".into()),
        schema_group: Some("secret-schema-group".into()),
        workspace_access: WorkspaceConnectionAccess::Manage,
        credential_mode: WorkspaceCredentialMode::Managed,
    }
}

fn profiles() -> Vec<ConnectionProfile> {
    vec![profile(ALPHA_ID, "alpha"), profile(BETA_ID, "beta")]
}

#[test]
fn normalizes_empty_and_padded_group_names() {
    assert_eq!(
        normalize_schema_group(Some("  Core  ".into())).as_deref(),
        Some("Core")
    );
    assert_eq!(normalize_schema_group(Some("   ".into())), None);
}

#[test]
fn rejects_a_different_engine_in_the_same_case_insensitive_group() {
    let mut postgres = local_profile(1, "postgres", Engine::Postgres);
    postgres.schema_group = Some("Core".into());
    let mut mysql = local_profile(2, "mysql", Engine::Mysql);
    mysql.schema_group = Some(" core ".into());

    assert!(validate_schema_group_engine(&postgres, &vec![mysql]).is_err());
    let mut sibling = local_profile(3, "sibling", Engine::Postgres);
    sibling.schema_group = Some("CORE".into());
    assert!(validate_schema_group_engine(&postgres, &vec![sibling]).is_ok());
}

fn object(summary: &AgentConnectionSummary) -> serde_json::Value {
    let AgentConnectionSummary {
        id,
        name,
        engine,
        database,
        environment,
        readonly,
        allow_writes,
    } = summary;
    let mut map = serde_json::Map::new();
    map.insert("id".into(), Uuid::from_u128(*id).to_string().into());
    map.insert("name".into(), name.clone().into());
    map.insert("engine".into(), engine_str(*engine).into());
    map.insert("database".into(), database.clone().into());
    map.insert("environment".into(), environment.clone().into());
    map.insert("readonly".into(), (*readonly).into());
    map.insert("allowWrites".into(), (*allow_writes).into());
    serde_json::Value::Object(map)
}

#[test]
fn agent_summary_serializes_only_the_allowlisted_shape() {
    let value = object(&AgentConnectionSummary::from(&profiles()[0]));

    let mut expected = serde_json::Map::new();
    expected.insert("id".into(), ALPHA_ID.into());
    expected.insert("name".into(), "alpha".into());
    expected.insert("engine".into(), "postgres".into());
    expected.insert("database".into(), "analytics".into());
    expected.insert("environment".into(), "prod".into());
    expected.insert("readonly".into(), true.into());
    expected.insert("allowWrites".into(), false.into());
    assert_eq!(value, serde_json::Value::Object(expected));
    assert_eq!(value.as_object().map(serde_json::Map::len), Some(7));

    let serialized = value.to_string();
    for forbidden in [
        "secret-host",
        "secret-user",
        "secret-driver",
        "secret-param",
        "secret-value",
        "secret-reference",
        "secret-schema-group",
        "provider",
        "driverId",
        "host",
        "port",
        "username",
        "extraParams",
        "secretRef",
        "workspaceAccess",
        "credentialMode",
    ] {
        assert!(
            !serialized.contains(forbidden),
            "agent summary leaked {forbidden}"
        );
    }
}

#[test]
fn legacy_none_selects_the_first_name_ordered_profile() {
    let resolved = resolve_legacy_profiles(&profiles(), None).unwrap();
    assert_eq!(resolved.id, Uuid::parse_str(ALPHA_ID).unwrap().as_u128());
}

#[test]
fn legacy_exact_name_and_id_selectors_preserve_find_semantics() {
    let by_name = resolve_legacy_profiles(&profiles(), Some("beta")).unwrap();
    let by_id = resolve_legacy_profiles(&profiles(), Some(ALPHA_ID)).unwrap();

    assert_eq!(by_name.id, Uuid::parse_str(BETA_ID).unwrap().as_u128());
    assert_eq!(by_id.name, "alpha");
    assert_eq!(
        resolve_legacy_profiles(&profiles(), Some("Beta")),
        Err(LegacyConnectionResolutionError::NoMatch {
            selector: "Beta".into(),
        })
    );
}

#[test]
fn legacy_missing_selectors_distinguish_none_from_no_match() {
    assert_eq!(
        resolve_legacy_profiles(&vec![], None),
        Err(LegacyConnectionResolutionError::NoConnections)
    );
    assert_eq!(
        resolve_legacy_profiles(&vec![], Some("missing")),
        Err(LegacyConnectionResolutionError::NoMatch {
            selector: "missing".into(),
        })
    );
    assert_eq!(
        resolve_legacy_profiles(&profiles(), Some("missing")),
        Err(LegacyConnectionResolutionError::NoMatch {
            selector: "missing".into(),
        })
    );
}

#[test]
fn cli_selector_never_picks_the_first_duplicate_name() {
    let alpha = AgentConnectionSummary::from(&profile(ALPHA_ID, "duplicate"));
    let beta = AgentConnectionSummary::from(&profile(BETA_ID, "duplicate"));
    let summaries = vec![beta.duplicate(), alpha.duplicate()];

    assert_eq!(
        resolve_cli_summaries(
            &summaries,
            &ConnectionSelector::Current,
            Uuid::parse_str(ALPHA_ID).unwrap().as_u128(),
        ),
        Ok(alpha.duplicate())
    );
    assert_eq!(
        resolve_cli_summaries(
            &summaries,
            &ConnectionSelector::Id(beta.id),
            Uuid::parse_str(ALPHA_ID).unwrap().as_u128(),
        ),
        Ok(beta)
    );
    assert_eq!(
        resolve_cli_summaries(
            &summaries,
            &ConnectionSelector::Name("duplicate".into()),
            Uuid::parse_str(ALPHA_ID).unwrap().as_u128(),
        ),
        Err(CliConnectionResolutionError::Ambiguous {
            candidates: vec![
                AgentConnectionSummary::from(&profile(ALPHA_ID, "duplicate")),
                AgentConnectionSummary::from(&profile(BETA_ID, "duplicate")),
            ],
        })
    );
}

#[test]
fn the_order_of_the_summaries_makes_no_difference() {
    let summary = |id: u128, name: &str| {
        AgentConnectionSummary::from(&local_profile(id, name, Engine::Sqlite))
    };
    let listed = vec![summary(1, "a"), summary(2, "b"), summary(3, "a")];
    let reordered = vec![summary(3, "a"), summary(1, "a"), summary(2, "b")];
    for selector in [
        ConnectionSelector::Id(3),
        ConnectionSelector::Id(4),
        ConnectionSelector::Current,
        ConnectionSelector::Name("a".into()),
        ConnectionSelector::Name("b".into()),
        ConnectionSelector::Name("A".into()),
    ] {
        assert_eq!(
            resolve_cli_summaries(&listed, &selector, 2),
            resolve_cli_summaries(&reordered, &selector, 2)
        );
    }
}

#[test]
fn mongodb_engine_text_round_trips() {
    assert_eq!(engine_str(Engine::Mongodb), "mongodb");
    assert_eq!(parse_engine("mongodb".into()).unwrap(), Engine::Mongodb);
}
