use vertex_geyser_plugin::config::{
    Config, GeyserPluginPostgresConfig, GeyserPluginPostgresError, PluginError,
};
use vertex_geyser_plugin::geyser_plugin_vertex::{config_format_error, GeyserPluginVertex};
use vertex_geyser_plugin::postgres_client::{
    connection_failure_error, highest_available_slot, plan_connection, plan_parallel_client,
    tls_setup_error, worker_failure_action, worker_name, DbAccountInfo, PostgresClientBuilder,
    SimplePostgresClient, TlsFile, WorkerFailureAction, DEFAULT_POSTGRES_PORT,
    MAX_ASYNC_REQUESTS, SAFE_BATCH_STARTING_SLOT_CUSHION,
};
use vertex_geyser_plugin::text::{decimal_string, option_debug_string};

fn empty_config() -> GeyserPluginPostgresConfig {
    GeyserPluginPostgresConfig {
        host: None,
        user: None,
        port: None,
        connection_str: None,
        threads: None,
        batch_size: None,
        panic_on_db_errors: None,
        store_account_historical_data: None,
        use_ssl: None,
        server_ca: None,
        client_cert: None,
        client_key: None,
        index_token_owner: None,
        index_token_mint: None,
        skip_upsert_existing_accounts_at_startup: false,
    }
}

fn host_user_config() -> GeyserPluginPostgresConfig {
    let mut c = empty_config();
    c.host = Some("db.example".to_string());
    c.user = Some("solana".to_string());
    c
}

fn configuration_msg(e: GeyserPluginPostgresError) -> String {
    match e {
        GeyserPluginPostgresError::ConfigurationError { msg } => msg,
        other => panic!("expected a configuration error, got {:?}", other),
    }
}

#[test]
fn decimal_rendering() {
    assert_eq!(decimal_string(0), "0");
    assert_eq!(decimal_string(7), "7");
    assert_eq!(decimal_string(10), "10");
    assert_eq!(decimal_string(5432), "5432");
    assert_eq!(decimal_string(u64::MAX), u64::MAX.to_string());
}

#[test]
fn debug_rendering_of_optional_strings() {
    assert_eq!(option_debug_string(&Some("a\"b".to_string())), "Some(\"a\\\"b\")");
    assert_eq!(option_debug_string(&None), "None");
    assert_eq!(option_debug_string(&Some("x\ny".to_string())), format!("{:?}", Some("x\ny")));
}

#[test]
fn connection_from_host_and_user_uses_default_port() {
    let plan = plan_connection(&host_user_config()).unwrap();
    assert_eq!(plan.connection_str, "host=db.example user=solana port=5432");
    assert!(plan.tls.is_none());
    assert_eq!(DEFAULT_POSTGRES_PORT, 5432);
}

#[test]
fn connection_from_host_user_and_port() {
    let mut c = host_user_config();
    c.port = Some(6543);
    let plan = plan_connection(&c).unwrap();
    assert_eq!(plan.connection_str, "host=db.example user=solana port=6543");
}

#[test]
fn default_port_is_port_5432() {
    let a = plan_connection(&host_user_config()).unwrap();
    let mut c = host_user_config();
    c.port = Some(5432);
    let b = plan_connection(&c).unwrap();
    assert_eq!(a.connection_str, b.connection_str);
}

#[test]
fn connection_str_overrides_host_user_and_port() {
    let mut a = host_user_config();
    a.connection_str = Some("postgresql://u@h:1/db".to_string());
    a.port = Some(1);
    let mut b = empty_config();
    b.connection_str = Some("postgresql://u@h:1/db".to_string());
    let pa = plan_connection(&a).unwrap();
    let pb = plan_connection(&b).unwrap();
    assert_eq!(pa.connection_str, "postgresql://u@h:1/db");
    assert_eq!(pa.connection_str, pb.connection_str);
}

#[test]
fn missing_endpoint_is_a_configuration_error() {
    let mut c = empty_config();
    c.host = Some("h".to_string());
    let msg = configuration_msg(plan_connection(&c).err().unwrap());
    assert_eq!(
        msg,
        "\"connection_str\": None, or \"host\": Some(\"h\") \"user\": None must be specified"
    );
    let msg = configuration_msg(plan_connection(&empty_config()).err().unwrap());
    assert_eq!(
        msg,
        "\"connection_str\": None, or \"host\": None \"user\": None must be specified"
    );
}

#[test]
fn ssl_requires_all_three_files() {
    let mut c = host_user_config();
    c.use_ssl = Some(true);
    assert_eq!(
        configuration_msg(plan_connection(&c).err().unwrap()),
        "\"server_ca\" must be specified when \"use_ssl\" is set"
    );
    c.server_ca = Some("ca.pem".to_string());
    assert_eq!(
        configuration_msg(plan_connection(&c).err().unwrap()),
        "\"client_cert\" must be specified when \"use_ssl\" is set"
    );
    c.client_cert = Some("cert.pem".to_string());
    assert_eq!(
        configuration_msg(plan_connection(&c).err().unwrap()),
        "\"client_key\" must be specified when \"use_ssl\" is set"
    );
    c.client_key = Some("key.pem".to_string());
    let plan = plan_connection(&c).unwrap();
    let tls = plan.tls.unwrap();
    assert_eq!(tls.server_ca, "ca.pem");
    assert_eq!(tls.client_cert, "cert.pem");
    assert_eq!(tls.client_key, "key.pem");
}

#[test]
fn tls_files_ignored_without_ssl() {
    let mut c = host_user_config();
    c.use_ssl = Some(false);
    c.server_ca = Some("ca.pem".to_string());
    let plan = plan_connection(&c).unwrap();
    assert!(plan.tls.is_none());
}

#[test]
fn tls_setup_error_messages() {
    let e = tls_setup_error(TlsFile::ServerCa, "ca.pem", "no such file");
    assert_eq!(
        configuration_msg(e),
        "Failed to set the server certificate specified by \"server_ca\": ca.pem. Error: (no such file)"
    );
    let e = tls_setup_error(TlsFile::ClientCert, "c.pem", "bad");
    assert_eq!(
        configuration_msg(e),
        "Failed to set the client certificate specified by \"client_cert\": c.pem. Error: (bad)"
    );
    let e = tls_setup_error(TlsFile::ClientKey, "k.pem", "bad");
    assert_eq!(
        configuration_msg(e),
        "Failed to set the client key specified by \"client_key\": k.pem. Error: (bad)"
    );
}

#[test]
fn connection_failure_message() {
    match connection_failure_error("Error { kind: Connect }", "host=h user=u port=1") {
        GeyserPluginPostgresError::DataStoreConnectionError { msg } => assert_eq!(
            msg,
            "Error in connecting to the PostgreSQL database: Error { kind: Connect } connection_str: \"host=h user=u port=1\""
        ),
        other => panic!("unexpected {:?}", other),
    }
}

#[test]
fn error_texts() {
    let e = GeyserPluginPostgresError::DataStoreConnectionError { msg: "m".to_string() };
    assert_eq!(e.to_string(), "Error connecting to the backend data store. Error message: (m)");
    let e = GeyserPluginPostgresError::DataSchemaError { msg: "m".to_string() };
    assert_eq!(e.to_string(), "Error preparing data store schema. Error message: (m)");
    let e = GeyserPluginPostgresError::ConfigurationError { msg: "m".to_string() };
    assert_eq!(e.to_string(), "Error preparing data store schema. Error message: (m)");
    let e = GeyserPluginPostgresError::ReplicaAccountV001NotSupported;
    assert_eq!(e.to_string(), "Replica account V0.0.1 not supported anymore");
}

#[test]
fn highest_slot_of_query_answers() {
    assert_eq!(highest_available_slot(Ok(None)).unwrap(), 0);
    assert_eq!(highest_available_slot(Ok(Some(123))).unwrap(), 123);
    assert_eq!(highest_available_slot(Ok(Some(-1))).unwrap(), u64::MAX);
    match highest_available_slot(Err("timeout".to_string())) {
        Err(PluginError::AccountsUpdateError { msg }) => assert_eq!(
            msg,
            "Failed to receive last slot from PostgreSQL database. Error: timeout"
        ),
        other => panic!("unexpected {:?}", other),
    }
}

#[test]
fn simple_client_settings() {
    let client = SimplePostgresClient::new(&empty_config(), 7u8);
    assert_eq!(client.batch_size(), 10);
    assert!(!client.index_token_owner());
    assert!(!client.index_token_mint());
    assert_eq!(client.pending_account_updates_len(), 0);
    assert_eq!(client.slots_at_startup_len(), 0);
    assert_eq!(client.client, 7u8);

    let mut c = empty_config();
    c.batch_size = Some(64);
    c.index_token_owner = Some(true);
    c.index_token_mint = Some(true);
    let client = SimplePostgresClient::new(&c, ());
    assert_eq!(client.batch_size(), 64);
    assert!(client.index_token_owner());
    assert!(client.index_token_mint());
}

#[test]
fn parallel_client_layout() {
    let plan = plan_parallel_client(&empty_config());
    assert_eq!(plan.worker_count, 10);
    assert!(!plan.panic_on_db_errors);
    assert_eq!(plan.channel_capacity, MAX_ASYNC_REQUESTS);
    assert_eq!(MAX_ASYNC_REQUESTS, 40960);

    let mut c = empty_config();
    c.threads = Some(3);
    c.panic_on_db_errors = Some(true);
    let plan = plan_parallel_client(&c);
    assert_eq!(plan.worker_count, 3);
    assert!(plan.panic_on_db_errors);
}

#[test]
fn worker_names() {
    assert_eq!(worker_name(0), "worker-0");
    assert_eq!(worker_name(12), "worker-12");
    assert_ne!(worker_name(1), worker_name(10));
}

#[test]
fn worker_failure_actions() {
    assert!(matches!(worker_failure_action(true), WorkerFailureAction::Abort));
    assert!(matches!(worker_failure_action(false), WorkerFailureAction::ReturnError));
}

#[test]
fn batch_slot_bounds() {
    assert_eq!(SAFE_BATCH_STARTING_SLOT_CUSHION, 81920);
    assert_eq!(PostgresClientBuilder::batch_slot_bound(100_000), 18_080);
    assert_eq!(PostgresClientBuilder::batch_slot_bound(81_920), 0);
    assert_eq!(PostgresClientBuilder::batch_slot_bound(5), 0);
    assert!(
        PostgresClientBuilder::batch_slot_bound(90_000)
            <= PostgresClientBuilder::batch_slot_bound(90_001)
    );
}

#[test]
fn plugin_basics() {
    let p = GeyserPluginVertex::new();
    assert_eq!(p.name(), "GeyserPluginVertex");
    assert_eq!(p.postgres_client(), "");
    let d = GeyserPluginVertex::default();
    assert_eq!(d.postgres_client(), "");
}

#[test]
fn config_format_error_message() {
    match config_format_error("Error(\"EOF\", line: 1, column: 0)") {
        PluginError::ConfigFileReadError { msg } => assert_eq!(
            msg,
            "The config file is not in the JSON format expected: Error(\"EOF\", line: 1, column: 0)"
        ),
        other => panic!("unexpected {:?}", other),
    }
}

#[test]
fn config_equality_and_accounts() {
    let a = Config { postgres: host_user_config() };
    let b = a.clone();
    assert_eq!(a, b);
    let acc = DbAccountInfo {
        pubkey: vec![1, 2],
        lamports: 5,
        owner: vec![3],
        executable: false,
        rent_epoch: 0,
        data: vec![],
        slot: 9,
        write_version: 1,
        txn_signature: None,
    };
    assert_eq!(acc.clone(), acc);
}
