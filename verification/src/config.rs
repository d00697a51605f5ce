//! The plugin's configuration and the errors it reports.
use vstd::prelude::*;

verus! {

/// The plugin's configuration file: one `postgres` section.
#[derive(Clone, Debug, PartialEq, Eq)]
pub struct Config {
    pub postgres: GeyserPluginPostgresConfig,
}

/// The `postgres` section of the configuration.
#[derive(Clone, Debug, PartialEq, Eq)]
pub struct GeyserPluginPostgresConfig {
    /// The host name or IP of the PostgreSQL server
    pub host: Option<String>,
    /// The user name of the PostgreSQL server.
    pub user: Option<String>,
    /// The port number of the PostgreSQL database, the default is 5432
    pub port: Option<u16>,
    /// The connection string of PostgreSQL database, if this is set
    /// `host`, `user` and `port` will be ignored.
    pub connection_str: Option<String>,
    /// Controls the number of threads establishing connections to
    /// the PostgreSQL server. The default is 10.
    pub threads: Option<usize>,
    /// Controls the batch size when bulk loading accounts.
    /// The default is 10.
    pub batch_size: Option<usize>,
    /// Controls whether to panic the validator in case of errors
    /// writing to PostgreSQL server. The default is false
    pub panic_on_db_errors: Option<bool>,
    /// Indicates whether to store historical data for accounts
    pub store_account_historical_data: Option<bool>,
    /// Controls whether to use SSL based connection to the database server.
    /// The default is false
    pub use_ssl: Option<bool>,
    /// Specify the path to PostgreSQL server's certificate file
    pub server_ca: Option<String>,
    /// Specify the path to the local client's certificate file
    pub client_cert: Option<String>,
    /// Specify the path to the local client's private PEM key file.
    pub client_key: Option<String>,
    /// Controls whether to index the token owners. The default is false
    pub index_token_owner: Option<bool>,
    /// Controls whether to index the token mints. The default is false
    pub index_token_mint: Option<bool>,
    /// Controls if this plugin can read the database on_load() to find highest slot
    /// and ignore upsert accounts (at_startup) that should already exist in DB
    pub skip_upsert_existing_accounts_at_startup: bool,
}

/// Errors specific to the PostgreSQL side of the plugin.
#[derive(Debug)]
pub enum GeyserPluginPostgresError {
    DataStoreConnectionError { msg: String },
    DataSchemaError { msg: String },
    ConfigurationError { msg: String },
    ReplicaAccountV001NotSupported,
}

/// The abstract value of a `GeyserPluginPostgresError`.
pub enum PostgresErrorView {
    DataStoreConnection(Seq<char>),
    DataSchema(Seq<char>),
    Configuration(Seq<char>),
    ReplicaAccountV001NotSupported,
}

impl View for GeyserPluginPostgresError {
    type V = PostgresErrorView;

    open spec fn view(&self) -> PostgresErrorView {
        match self {
            GeyserPluginPostgresError::DataStoreConnectionError { msg } =>
                PostgresErrorView::DataStoreConnection(msg@),
            GeyserPluginPostgresError::DataSchemaError { msg } => PostgresErrorView::DataSchema(msg@),
            GeyserPluginPostgresError::ConfigurationError { msg } =>
                PostgresErrorView::Configuration(msg@),
            GeyserPluginPostgresError::ReplicaAccountV001NotSupported =>
                PostgresErrorView::ReplicaAccountV001NotSupported,
        }
    }
}

/// The text of an error, as the plugin reports it.
pub open spec fn postgres_error_text(e: PostgresErrorView) -> Seq<char> {
    match e {
        PostgresErrorView::DataStoreConnection(msg) =>
            "Error connecting to the backend data store. Error message: ("@ + msg + ")"@,
        PostgresErrorView::DataSchema(msg) =>
            "Error preparing data store schema. Error message: ("@ + msg + ")"@,
        PostgresErrorView::Configuration(msg) =>
            "Error preparing data store schema. Error message: ("@ + msg + ")"@,
        PostgresErrorView::ReplicaAccountV001NotSupported =>
            "Replica account V0.0.1 not supported anymore"@,
    }
}

/// The text of each error that carries a message ends with that message in
/// parentheses; connection errors and schema or configuration errors open
/// differently.
pub proof fn lemma_error_text_carries_msg(msg: Seq<char>)
    ensures
        forall|e: PostgresErrorView|
            #![trigger postgres_error_text(e)]
            (e == PostgresErrorView::DataStoreConnection(msg) || e == PostgresErrorView::DataSchema(
                msg,
            ) || e == PostgresErrorView::Configuration(msg)) ==> {
                let t = postgres_error_text(e);
                &&& t.subrange(t.len() - msg.len() - 2, t.len() as int) == "("@ + msg + ")"@
            },
        postgres_error_text(PostgresErrorView::DataStoreConnection(msg)) != postgres_error_text(
            PostgresErrorView::Configuration(msg),
        ),
{
    reveal_strlit("(");
    reveal_strlit(")");
    reveal_strlit("Error connecting to the backend data store. Error message: (");
    reveal_strlit("Error preparing data store schema. Error message: (");
    assert forall|e: PostgresErrorView|
        #![trigger postgres_error_text(e)]
        (e == PostgresErrorView::DataStoreConnection(msg) || e == PostgresErrorView::DataSchema(msg)
            || e == PostgresErrorView::Configuration(msg)) implies {
            let t = postgres_error_text(e);
            t.subrange(t.len() - msg.len() - 2, t.len() as int) == "("@ + msg + ")"@
        } by {
        let t = postgres_error_text(e);
        assert(t.subrange(t.len() - msg.len() - 2, t.len() as int) =~= "("@ + msg + ")"@);
    }
    let a = postgres_error_text(PostgresErrorView::DataStoreConnection(msg));
    let b = postgres_error_text(PostgresErrorView::Configuration(msg));
    assert(a[6] != b[6]);
}

impl GeyserPluginPostgresError {
    /// The text of this error, as the plugin reports it.
    pub fn to_string(&self) -> (s: String)
        ensures
            s@ == postgres_error_text(self@),
    {
        match self {
            GeyserPluginPostgresError::DataStoreConnectionError { msg } => {
                let mut s = String::from_str(
                    "Error connecting to the backend data store. Error message: (",
                );
                s.append(msg.as_str());
                s.append(")");
                s
            },
            GeyserPluginPostgresError::DataSchemaError { msg } => {
                let mut s = String::from_str("Error preparing data store schema. Error message: (");
                s.append(msg.as_str());
                s.append(")");
                s
            },
            GeyserPluginPostgresError::ConfigurationError { msg } => {
                let mut s = String::from_str("Error preparing data store schema. Error message: (");
                s.append(msg.as_str());
                s.append(")");
                s
            },
            GeyserPluginPostgresError::ReplicaAccountV001NotSupported => String::from_str(
                "Replica account V0.0.1 not supported anymore",
            ),
        }
    }
}

/// The errors the plugin hands back to the validator: the variants of the
/// plugin interface's error that this plugin produces.
#[derive(Debug)]
pub enum PluginError {
    /// The configuration file's content is not what was expected.
    ConfigFileReadError { msg: String },
    /// An account update (or the database read that serves it) failed.
    AccountsUpdateError { msg: String },
    /// A PostgreSQL-specific error.
    Custom(GeyserPluginPostgresError),
}

} // verus!
