//! The decisions of the PostgreSQL client: how to connect, how a client is
//! set up, what the highest stored slot means, and how the parallel client
//! is laid out. The network, TLS files and threads are driven by the caller.
use vstd::prelude::*;
use std::collections::HashSet;
use crate::config::{GeyserPluginPostgresConfig, GeyserPluginPostgresError, PluginError, PostgresErrorView};
use crate::text::{decimal, digits_value, is_decimal_digit, lemma_decimal_injective, lemma_decimal_reads_back, decimal_string, debug_str, opt_view, option_debug, option_debug_string, str_debug};

verus! {

/// The maximum asynchronous requests allowed in the channel to avoid excessive
/// memory usage. Calls after this threshold is reached can get blocked.
pub const MAX_ASYNC_REQUESTS: usize = 40960;

/// How many slots below the highest stored slot the startup optimisation keeps.
pub const SAFE_BATCH_STARTING_SLOT_CUSHION: u64 = 81920;

pub const DEFAULT_POSTGRES_PORT: u16 = 5432;

pub const DEFAULT_THREADS_COUNT: usize = 10;

pub const DEFAULT_ACCOUNTS_INSERT_BATCH_SIZE: usize = 10;

pub const DEFAULT_PANIC_ON_DB_ERROR: bool = false;

/// The files a TLS connection is set up with.
pub struct TlsFiles {
    pub server_ca: String,
    pub client_cert: String,
    pub client_key: String,
}

/// How to reach the database: the connection string, and the TLS files when
/// the connection uses SSL.
pub struct ConnectionPlan {
    pub connection_str: String,
    pub tls: Option<TlsFiles>,
}

pub struct TlsFilesView {
    pub server_ca: Seq<char>,
    pub client_cert: Seq<char>,
    pub client_key: Seq<char>,
}

pub struct ConnectionPlanView {
    pub connection_str: Seq<char>,
    pub tls: Option<TlsFilesView>,
}

impl View for TlsFiles {
    type V = TlsFilesView;

    open spec fn view(&self) -> TlsFilesView {
        TlsFilesView {
            server_ca: self.server_ca@,
            client_cert: self.client_cert@,
            client_key: self.client_key@,
        }
    }
}

impl View for ConnectionPlan {
    type V = ConnectionPlanView;

    open spec fn view(&self) -> ConnectionPlanView {
        ConnectionPlanView {
            connection_str: self.connection_str@,
            tls: match self.tls {
                Some(t) => Some(t@),
                None => None,
            },
        }
    }
}

/// The port a connection built from `host`, `user` and `port` uses.
pub open spec fn effective_port(c: GeyserPluginPostgresConfig) -> u16 {
    match c.port {
        Some(p) => p,
        None => DEFAULT_POSTGRES_PORT,
    }
}

/// The connection string of a configuration: `connection_str` when it is set,
/// else one built from `host`, `user` and the port; `None` when neither is
/// possible.
pub open spec fn spec_connection_str(c: GeyserPluginPostgresConfig) -> Option<Seq<char>> {
    match c.connection_str {
        Some(s) => Some(s@),
        None => match (c.host, c.user) {
            (Some(h), Some(u)) => Some(
                "host="@ + h@ + " user="@ + u@ + " port="@ + decimal(effective_port(c) as nat),
            ),
            _ => None,
        },
    }
}

/// Whether the configuration asks for an SSL connection.
pub open spec fn uses_ssl(c: GeyserPluginPostgresConfig) -> bool {
    c.use_ssl == Some(true)
}

/// The message when no database endpoint is configured.
pub open spec fn missing_endpoint_msg(c: GeyserPluginPostgresConfig) -> Seq<char> {
    "\"connection_str\": "@ + option_debug(opt_view(c.connection_str)) + ", or \"host\": "@
        + option_debug(opt_view(c.host)) + " \"user\": "@ + option_debug(opt_view(c.user))
        + " must be specified"@
}

/// What connecting with configuration `c` is planned as: the plan, or the
/// message of the configuration error that stops it.
pub open spec fn spec_plan_connection(c: GeyserPluginPostgresConfig) -> Result<
    ConnectionPlanView,
    Seq<char>,
> {
    if spec_connection_str(c) is None {
        Err(missing_endpoint_msg(c))
    } else if uses_ssl(c) && c.server_ca is None {
        Err("\"server_ca\" must be specified when \"use_ssl\" is set"@)
    } else if uses_ssl(c) && c.client_cert is None {
        Err("\"client_cert\" must be specified when \"use_ssl\" is set"@)
    } else if uses_ssl(c) && c.client_key is None {
        Err("\"client_key\" must be specified when \"use_ssl\" is set"@)
    } else {
        Ok(
            ConnectionPlanView {
                connection_str: spec_connection_str(c)->0,
                tls: if uses_ssl(c) {
                    Some(
                        TlsFilesView {
                            server_ca: c.server_ca->0@,
                            client_cert: c.client_cert->0@,
                            client_key: c.client_key->0@,
                        },
                    )
                } else {
                    None
                },
            },
        )
    }
}

fn configuration_error(msg: &str) -> (e: GeyserPluginPostgresError)
    ensures
        e@ == PostgresErrorView::Configuration(msg@),
{
    GeyserPluginPostgresError::ConfigurationError { msg: String::from_str(msg) }
}

/// Decides how to connect to the database: the connection string and, for an
/// SSL connection, the TLS files; or the configuration error that stops it.
pub fn plan_connection(config: &GeyserPluginPostgresConfig) -> (res: Result<
    ConnectionPlan,
    GeyserPluginPostgresError,
>)
    ensures
        match spec_plan_connection(*config) {
            Ok(plan) => res matches Ok(p) && p@ == plan,
            Err(msg) => res matches Err(e) && e@ == PostgresErrorView::Configuration(msg),
        },
{
    let port = match config.port {
        Some(p) => p,
        None => DEFAULT_POSTGRES_PORT,
    };
    let connection_str = match &config.connection_str {
        Some(s) => s.clone(),
        None => {
            match (&config.host, &config.user) {
                (Some(host), Some(user)) => {
                    let mut s = String::from_str("host=");
                    s.append(host.as_str());
                    s.append(" user=");
                    s.append(user.as_str());
                    s.append(" port=");
                    let p = decimal_string(port as u64);
                    s.append(p.as_str());
                    s
                },
                _ => {
                    let mut msg = String::from_str("\"connection_str\": ");
                    let d = option_debug_string(&config.connection_str);
                    msg.append(d.as_str());
                    msg.append(", or \"host\": ");
                    let d = option_debug_string(&config.host);
                    msg.append(d.as_str());
                    msg.append(" \"user\": ");
                    let d = option_debug_string(&config.user);
                    msg.append(d.as_str());
                    msg.append(" must be specified");
                    return Err(GeyserPluginPostgresError::ConfigurationError { msg });
                },
            }
        },
    };
    let tls = if config.use_ssl == Some(true) {
        match (&config.server_ca, &config.client_cert, &config.client_key) {
            (None, _, _) => {
                return Err(
                    configuration_error("\"server_ca\" must be specified when \"use_ssl\" is set"),
                );
            },
            (Some(_), None, _) => {
                return Err(
                    configuration_error(
                        "\"client_cert\" must be specified when \"use_ssl\" is set",
                    ),
                );
            },
            (Some(_), Some(_), None) => {
                return Err(
                    configuration_error("\"client_key\" must be specified when \"use_ssl\" is set"),
                );
            },
            (Some(ca), Some(cert), Some(key)) => Some(
                TlsFiles { server_ca: ca.clone(), client_cert: cert.clone(), client_key: key.clone() },
            ),
        }
    } else {
        None
    };
    Ok(ConnectionPlan { connection_str, tls })
}

/// The TLS file whose setup failed.
pub enum TlsFile {
    ServerCa,
    ClientCert,
    ClientKey,
}

/// The message when setting up TLS file `file` from `path` failed with the
/// error text `error`.
pub open spec fn tls_setup_msg(file: TlsFile, path: Seq<char>, error: Seq<char>) -> Seq<char> {
    match file {
        TlsFile::ServerCa => "Failed to set the server certificate specified by \"server_ca\": "@
            + path + ". Error: ("@ + error + ")"@,
        TlsFile::ClientCert => "Failed to set the client certificate specified by \"client_cert\": "@
            + path + ". Error: ("@ + error + ")"@,
        TlsFile::ClientKey => "Failed to set the client key specified by \"client_key\": "@ + path
            + ". Error: ("@ + error + ")"@,
    }
}

/// The configuration error reported when setting up TLS file `file`, found
/// at `path`, failed with the error text `error`.
pub fn tls_setup_error(file: TlsFile, path: &str, error: &str) -> (e: GeyserPluginPostgresError)
    ensures
        e@ == PostgresErrorView::Configuration(tls_setup_msg(file, path@, error@)),
{
    let mut msg = match file {
        TlsFile::ServerCa => String::from_str(
            "Failed to set the server certificate specified by \"server_ca\": ",
        ),
        TlsFile::ClientCert => String::from_str(
            "Failed to set the client certificate specified by \"client_cert\": ",
        ),
        TlsFile::ClientKey => String::from_str(
            "Failed to set the client key specified by \"client_key\": ",
        ),
    };
    msg.append(path);
    msg.append(". Error: (");
    msg.append(error);
    msg.append(")");
    GeyserPluginPostgresError::ConfigurationError { msg }
}

/// The message when connecting with `connection_str` failed with an error
/// whose `{:?}` rendering is `error_debug`.
pub open spec fn connection_failure_msg(error_debug: Seq<char>, connection_str: Seq<char>) -> Seq<
    char,
> {
    "Error in connecting to the PostgreSQL database: "@ + error_debug + " connection_str: "@
        + str_debug(connection_str)
}

/// The error reported when connecting with `connection_str` failed with an
/// error whose `{:?}` rendering is `error_debug`.
pub fn connection_failure_error(error_debug: &str, connection_str: &str) -> (e:
    GeyserPluginPostgresError)
    ensures
        e@ == PostgresErrorView::DataStoreConnection(
            connection_failure_msg(error_debug@, connection_str@),
        ),
{
    let mut msg = String::from_str("Error in connecting to the PostgreSQL database: ");
    msg.append(error_debug);
    msg.append(" connection_str: ");
    let d = debug_str(connection_str);
    msg.append(d.as_str());
    GeyserPluginPostgresError::DataStoreConnectionError { msg }
}

/// The slot number stored as the signed 64-bit value `raw`, read back as an
/// unsigned 64-bit slot (two's complement reinterpretation).
pub open spec fn slot_from_raw(raw: i64) -> int {
    if raw >= 0 {
        raw as int
    } else {
        raw + 0x1_0000_0000_0000_0000
    }
}

/// The message when reading the highest slot failed with an error whose
/// `{:?}` rendering is `error_debug`.
pub open spec fn highest_slot_failure_msg(error_debug: Seq<char>) -> Seq<char> {
    "Failed to receive last slot from PostgreSQL database. Error: "@ + error_debug
}

/// Interprets the answer to the query for the highest stored slot: the slot
/// of the row found (0 when the table is empty), or the account-update error
/// when the query failed (its error given by its `{:?}` rendering).
pub fn highest_available_slot(query: Result<Option<i64>, String>) -> (res: Result<u64, PluginError>)
    ensures
        match query {
            Ok(None) => res == Ok::<u64, PluginError>(0),
            Ok(Some(raw)) => res matches Ok(slot) && slot as int == slot_from_raw(raw),
            Err(e) => res matches Err(PluginError::AccountsUpdateError { msg }) && msg@
                == highest_slot_failure_msg(e@),
        },
{
    match query {
        Ok(None) => Ok(0),
        Ok(Some(raw)) => {
            let slot = raw as u64;
            assert(raw >= 0 ==> slot == raw) by (bit_vector)
                requires
                    slot == raw as u64,
            ;
            assert(raw < 0 ==> slot == raw + 0x1_0000_0000_0000_0000) by (bit_vector)
                requires
                    slot == raw as u64,
            ;
            Ok(slot)
        },
        Err(e) => {
            let mut msg = String::from_str("Failed to receive last slot from PostgreSQL database. Error: ");
            msg.append(e.as_str());
            Err(PluginError::AccountsUpdateError { msg })
        },
    }
}

/// An account row as it is written to the database.
#[derive(Clone, PartialEq, Debug)]
pub struct DbAccountInfo {
    pub pubkey: Vec<u8>,
    pub lamports: i64,
    pub owner: Vec<u8>,
    pub executable: bool,
    pub rent_epoch: i64,
    pub data: Vec<u8>,
    pub slot: i64,
    pub write_version: i64,
    pub txn_signature: Option<Vec<u8>>,
}

impl Eq for DbAccountInfo {

}

/// A client that writes to PostgreSQL over one connection `C`.
pub struct SimplePostgresClient<C> {
    batch_size: usize,
    slots_at_startup: HashSet<u64>,
    pending_account_updates: Vec<DbAccountInfo>,
    index_token_owner: bool,
    index_token_mint: bool,
    /// The connection this client writes through.
    pub client: C,
}

/// The batch size of bulk account inserts for a configuration.
pub open spec fn effective_batch_size(c: GeyserPluginPostgresConfig) -> usize {
    match c.batch_size {
        Some(b) => b,
        None => DEFAULT_ACCOUNTS_INSERT_BATCH_SIZE,
    }
}

impl<C> SimplePostgresClient<C> {
    /// The connection this client writes through.
    pub closed spec fn spec_client(&self) -> C {
        self.client
    }

    pub closed spec fn spec_batch_size(&self) -> usize {
        self.batch_size
    }

    pub closed spec fn spec_index_token_owner(&self) -> bool {
        self.index_token_owner
    }

    pub closed spec fn spec_index_token_mint(&self) -> bool {
        self.index_token_mint
    }

    /// The slots recorded during startup.
    pub closed spec fn spec_slots_at_startup(&self) -> Set<u64> {
        self.slots_at_startup@
    }

    /// The account updates not yet written.
    pub closed spec fn spec_pending_account_updates(&self) -> Seq<DbAccountInfo> {
        self.pending_account_updates@
    }

    /// A client for configuration `config` that writes through the connection
    /// `client`, with no pending updates and no startup slots recorded.
    pub fn new(config: &GeyserPluginPostgresConfig, client: C) -> (s: Self)
        ensures
            s.spec_batch_size() == effective_batch_size(*config),
            s.spec_index_token_owner() == (config.index_token_owner == Some(true)),
            s.spec_index_token_mint() == (config.index_token_mint == Some(true)),
            s.spec_slots_at_startup() == Set::<u64>::empty(),
            s.spec_pending_account_updates() == Seq::<DbAccountInfo>::empty(),
            s.spec_client() == client,
    {
        let batch_size = config.batch_size.unwrap_or(DEFAULT_ACCOUNTS_INSERT_BATCH_SIZE);
        SimplePostgresClient {
            batch_size,
            pending_account_updates: Vec::with_capacity(batch_size),
            index_token_owner: config.index_token_owner.unwrap_or(false),
            index_token_mint: config.index_token_mint.unwrap_or(false),
            slots_at_startup: HashSet::new(),
            client,
        }
    }

    /// How many accounts one bulk insert writes.
    pub fn batch_size(&self) -> (b: usize)
        ensures
            b == self.spec_batch_size(),
    {
        self.batch_size
    }

    /// Whether token owners are indexed.
    pub fn index_token_owner(&self) -> (b: bool)
        ensures
            b == self.spec_index_token_owner(),
    {
        self.index_token_owner
    }

    /// Whether token mints are indexed.
    pub fn index_token_mint(&self) -> (b: bool)
        ensures
            b == self.spec_index_token_mint(),
    {
        self.index_token_mint
    }

    /// How many account updates wait to be written.
    pub fn pending_account_updates_len(&self) -> (n: usize)
        ensures
            n == self.spec_pending_account_updates().len(),
    {
        self.pending_account_updates.len()
    }

    /// How many slots were recorded during startup.
    pub fn slots_at_startup_len(&self) -> (n: usize)
        ensures
            n == self.spec_slots_at_startup().len(),
    {
        self.slots_at_startup.len()
    }
}

/// The layout of the parallel client: how many workers, whether a worker
/// that cannot reach the database aborts the process, and how many requests
/// the work channel holds.
pub struct ParallelClientPlan {
    pub worker_count: usize,
    pub panic_on_db_errors: bool,
    pub channel_capacity: usize,
}

/// The number of workers of the parallel client for a configuration.
pub open spec fn effective_worker_count(c: GeyserPluginPostgresConfig) -> usize {
    match c.threads {
        Some(t) => t,
        None => DEFAULT_THREADS_COUNT,
    }
}

/// Lays out the parallel client for configuration `config`.
pub fn plan_parallel_client(config: &GeyserPluginPostgresConfig) -> (p: ParallelClientPlan)
    ensures
        p.worker_count == effective_worker_count(*config),
        p.panic_on_db_errors == (config.panic_on_db_errors == Some(true)),
        p.channel_capacity == MAX_ASYNC_REQUESTS,
{
    ParallelClientPlan {
        worker_count: config.threads.unwrap_or(DEFAULT_THREADS_COUNT),
        panic_on_db_errors: config.panic_on_db_errors.unwrap_or(DEFAULT_PANIC_ON_DB_ERROR),
        channel_capacity: MAX_ASYNC_REQUESTS,
    }
}

/// The thread name of worker `index`.
pub open spec fn spec_worker_name(index: nat) -> Seq<char> {
    "worker-"@ + decimal(index)
}

/// Names the thread of worker `index`: `worker-` followed by the index.
pub fn worker_name(index: usize) -> (s: String)
    ensures
        s@ == spec_worker_name(index as nat),
{
    let mut s = String::from_str("worker-");
    let d = decimal_string(index as u64);
    s.append(d.as_str());
    s
}

/// What a worker does when it cannot set up its database client.
pub enum WorkerFailureAction {
    /// Abort the whole validator process.
    Abort,
    /// End the worker, handing the error back.
    ReturnError,
}

/// Decides what a worker does when it cannot set up its database client.
pub fn worker_failure_action(panic_on_db_errors: bool) -> (a: WorkerFailureAction)
    ensures
        panic_on_db_errors <==> a is Abort,
{
    if panic_on_db_errors {
        WorkerFailureAction::Abort
    } else {
        WorkerFailureAction::ReturnError
    }
}

/// Builds the clients of the plugin.
pub struct PostgresClientBuilder {}

/// The slot below which accounts are taken to be in the database already,
/// given the highest slot stored.
pub open spec fn spec_batch_slot_bound(highest_available_slot: u64) -> u64 {
    if highest_available_slot >= SAFE_BATCH_STARTING_SLOT_CUSHION {
        (highest_available_slot - SAFE_BATCH_STARTING_SLOT_CUSHION) as u64
    } else {
        0
    }
}

impl PostgresClientBuilder {
    /// The slot below which startup account upserts are skipped: the highest
    /// stored slot less the safety cushion, and 0 when it is lower than that.
    pub fn batch_slot_bound(highest_available_slot: u64) -> (b: u64)
        ensures
            b == spec_batch_slot_bound(highest_available_slot),
    {
        highest_available_slot.saturating_sub(SAFE_BATCH_STARTING_SLOT_CUSHION)
    }
}

/// When `connection_str` is set, `host`, `user` and `port` are ignored: two
/// configurations that differ only in those plan the same connection, or fail
/// with the same error.
pub proof fn lemma_connection_str_overrides_endpoint(
    c1: GeyserPluginPostgresConfig,
    c2: GeyserPluginPostgresConfig,
)
    requires
        c1.connection_str is Some,
        opt_view(c1.connection_str) == opt_view(c2.connection_str),
        c1.use_ssl == c2.use_ssl,
        opt_view(c1.server_ca) == opt_view(c2.server_ca),
        opt_view(c1.client_cert) == opt_view(c2.client_cert),
        opt_view(c1.client_key) == opt_view(c2.client_key),
    ensures
        spec_plan_connection(c1) == spec_plan_connection(c2),
{
}

/// An unset port means port 5432.
pub proof fn lemma_default_port(c1: GeyserPluginPostgresConfig, c2: GeyserPluginPostgresConfig)
    requires
        c1.port is None,
        c2.port == Some(5432u16),
        opt_view(c1.connection_str) == opt_view(c2.connection_str),
        opt_view(c1.host) == opt_view(c2.host),
        opt_view(c1.user) == opt_view(c2.user),
        c1.use_ssl == c2.use_ssl,
        opt_view(c1.server_ca) == opt_view(c2.server_ca),
        opt_view(c1.client_cert) == opt_view(c2.client_cert),
        opt_view(c1.client_key) == opt_view(c2.client_key),
    ensures
        spec_plan_connection(c1) == spec_plan_connection(c2),
{
}

/// A connection is planned exactly when an endpoint is configured (a
/// connection string, or both host and user) and, for SSL, all three TLS
/// files are named; a planned connection uses TLS exactly when SSL is asked for.
pub proof fn lemma_plan_succeeds_iff(c: GeyserPluginPostgresConfig)
    ensures
        spec_plan_connection(c) is Ok <==> {
            &&& (c.connection_str is Some || (c.host is Some && c.user is Some))
            &&& uses_ssl(c) ==> (c.server_ca is Some && c.client_cert is Some
                && c.client_key is Some)
        },
        spec_plan_connection(c) matches Ok(p) ==> (p.tls is Some <==> uses_ssl(c)),
{
}

/// Without SSL, the TLS file settings do not matter.
pub proof fn lemma_tls_files_ignored_without_ssl(
    c1: GeyserPluginPostgresConfig,
    c2: GeyserPluginPostgresConfig,
)
    requires
        !uses_ssl(c1),
        c1.use_ssl == c2.use_ssl,
        opt_view(c1.connection_str) == opt_view(c2.connection_str),
        opt_view(c1.host) == opt_view(c2.host),
        opt_view(c1.user) == opt_view(c2.user),
        c1.port == c2.port,
    ensures
        spec_plan_connection(c1) == spec_plan_connection(c2),
{
}

/// The bound never exceeds the highest stored slot, keeps the whole cushion
/// of 81920 slots below it when there is room, and grows with the highest
/// stored slot.
pub proof fn lemma_batch_slot_bound(a: u64, b: u64)
    ensures
        SAFE_BATCH_STARTING_SLOT_CUSHION == 81920,
        spec_batch_slot_bound(a) <= a,
        a >= SAFE_BATCH_STARTING_SLOT_CUSHION ==> a - spec_batch_slot_bound(a)
            == SAFE_BATCH_STARTING_SLOT_CUSHION,
        a <= b ==> spec_batch_slot_bound(a) <= spec_batch_slot_bound(b),
{
}

/// Distinct workers get distinct thread names.
pub proof fn lemma_worker_names_distinct(i: nat, j: nat)
    requires
        i != j,
    ensures
        spec_worker_name(i) != spec_worker_name(j),
{
    lemma_decimal_injective(i, j);
    if spec_worker_name(i) == spec_worker_name(j) {
        let p = "worker-"@;
        assert(decimal(i) =~= spec_worker_name(i).subrange(p.len() as int, spec_worker_name(i).len() as int));
        assert(decimal(j) =~= spec_worker_name(j).subrange(p.len() as int, spec_worker_name(j).len() as int));
    }
}

/// A planned SSL connection loads exactly the configured files: the server CA
/// from `server_ca`, the client certificate from `client_cert` and the client
/// key from `client_key`, whether or not `connection_str` is set; without SSL
/// no TLS file is loaded.
pub proof fn lemma_tls_files_are_the_configured_ones(c: GeyserPluginPostgresConfig)
    ensures
        spec_plan_connection(c) matches Ok(p) ==> {
            if c.use_ssl == Some(true) {
                &&& c.server_ca is Some && c.client_cert is Some && c.client_key is Some
                &&& p.tls matches Some(t) && t.server_ca == c.server_ca->0@ && t.client_cert
                    == c.client_cert->0@ && t.client_key == c.client_key->0@
            } else {
                p.tls is None
            }
        },
{
}

/// The planned connection string is `connection_str` when it is set;
/// otherwise it is `host=<host> user=<user> port=<port>`, the port being the
/// configured one in decimal, or 5432 when none is configured.
pub proof fn lemma_connection_string(c: GeyserPluginPostgresConfig)
    ensures
        spec_plan_connection(c) matches Ok(p) ==> match c.connection_str {
            Some(s) => p.connection_str == s@,
            None => {
                &&& c.host is Some && c.user is Some
                &&& p.connection_str == "host="@ + c.host->0@ + " user="@ + c.user->0@ + " port="@
                    + decimal(
                    match c.port {
                        Some(port) => port as nat,
                        None => 5432nat,
                    },
                )
            },
        },
{
}

/// Two configurations that name the same host and user but different ports
/// plan different connection strings.
pub proof fn lemma_port_distinguishes_connections(
    c1: GeyserPluginPostgresConfig,
    c2: GeyserPluginPostgresConfig,
    p1: u16,
    p2: u16,
)
    requires
        c1.connection_str is None,
        c2.connection_str is None,
        c1.port == Some(p1),
        c2.port == Some(p2),
        p1 != p2,
        opt_view(c1.host) == opt_view(c2.host),
        opt_view(c1.user) == opt_view(c2.user),
    ensures
        spec_plan_connection(c1) matches Ok(a) ==> spec_plan_connection(c2) matches Ok(b)
            ==> a.connection_str != b.connection_str,
{
    if spec_plan_connection(c1) is Ok && spec_plan_connection(c2) is Ok {
        let a = spec_plan_connection(c1)->Ok_0;
        let b = spec_plan_connection(c2)->Ok_0;
        let pre = "host="@ + c1.host->0@ + " user="@ + c1.user->0@ + " port="@;
        assert(a.connection_str == pre + decimal(p1 as nat));
        assert(b.connection_str == pre + decimal(p2 as nat));
        lemma_decimal_injective(p1 as nat, p2 as nat);
        if a.connection_str == b.connection_str {
            assert(decimal(p1 as nat) =~= a.connection_str.subrange(
                pre.len() as int,
                a.connection_str.len() as int,
            ));
            assert(decimal(p2 as nat) =~= b.connection_str.subrange(
                pre.len() as int,
                b.connection_str.len() as int,
            ));
        }
    }
}

/// The slot read back from the stored value `raw` is the unsigned 64-bit
/// number with the same bits: it lies in `0 .. 2^64` and is congruent to
/// `raw` modulo `2^64`; a non-negative value is read back unchanged.
pub proof fn lemma_slot_is_raw_reinterpreted(raw: i64)
    ensures
        0 <= slot_from_raw(raw) < 0x1_0000_0000_0000_0000,
        (slot_from_raw(raw) - raw) % 0x1_0000_0000_0000_0000 == 0,
        raw >= 0 ==> slot_from_raw(raw) == raw,
{
}

/// The configured batch size is the one used, whatever it is; without one
/// the batch size is 10. Different configured sizes give different sizes.
pub proof fn lemma_batch_size_is_configured(
    c1: GeyserPluginPostgresConfig,
    c2: GeyserPluginPostgresConfig,
)
    ensures
        c1.batch_size matches Some(b) ==> effective_batch_size(c1) == b,
        c1.batch_size is None ==> effective_batch_size(c1) == 10,
        c1.batch_size is Some && c2.batch_size is Some && c1.batch_size != c2.batch_size
            ==> effective_batch_size(c1) != effective_batch_size(c2),
{
}

/// The parallel client runs exactly the configured number of workers (10
/// without a setting), and its work channel holds 40960 requests.
pub proof fn lemma_worker_count_is_configured(
    c1: GeyserPluginPostgresConfig,
    c2: GeyserPluginPostgresConfig,
)
    ensures
        c1.threads matches Some(t) ==> effective_worker_count(c1) == t,
        c1.threads is None ==> effective_worker_count(c1) == 10,
        c1.threads is Some && c2.threads is Some && c1.threads != c2.threads
            ==> effective_worker_count(c1) != effective_worker_count(c2),
        MAX_ASYNC_REQUESTS == 40960,
{
}

/// Planning fails with the error for the first missing setting: no
/// endpoint (neither `connection_str` nor both `host` and `user`), then, for
/// SSL, the server CA, the client certificate and the client key, in that
/// order; each message names the missing setting.
pub proof fn lemma_plan_errors(c: GeyserPluginPostgresConfig)
    ensures
        c.connection_str is None && (c.host is None || c.user is None) ==> spec_plan_connection(c)
            == Err::<ConnectionPlanView, Seq<char>>(
            "\"connection_str\": "@ + "None"@ + ", or \"host\": "@ + option_debug(opt_view(c.host))
                + " \"user\": "@ + option_debug(opt_view(c.user)) + " must be specified"@,
        ),
        (c.connection_str is Some || (c.host is Some && c.user is Some)) && c.use_ssl == Some(true)
            ==> {
            &&& c.server_ca is None ==> spec_plan_connection(c) == Err::<ConnectionPlanView, Seq<char>>(
                "\"server_ca\" must be specified when \"use_ssl\" is set"@,
            )
            &&& c.server_ca is Some && c.client_cert is None ==> spec_plan_connection(c) == Err::<
                ConnectionPlanView,
                Seq<char>,
            >("\"client_cert\" must be specified when \"use_ssl\" is set"@)
            &&& c.server_ca is Some && c.client_cert is Some && c.client_key is None
                ==> spec_plan_connection(c) == Err::<ConnectionPlanView, Seq<char>>(
                "\"client_key\" must be specified when \"use_ssl\" is set"@,
            )
        },
{
}

/// The name of worker `index` is `worker-` followed by decimal digits that
/// read back as `index`.
pub proof fn lemma_worker_name_reads_back(index: nat)
    ensures
        spec_worker_name(index).len() > 7,
        spec_worker_name(index).subrange(0, 7) == "worker-"@,
        forall|i: int|
            7 <= i < spec_worker_name(index).len() ==> is_decimal_digit(
                #[trigger] spec_worker_name(index)[i],
            ),
        digits_value(spec_worker_name(index).subrange(7, spec_worker_name(index).len() as int))
            == index,
{
    reveal_strlit("worker-");
    lemma_decimal_reads_back(index);
    crate::text::lemma_decimal_nonempty(index);
    let w = spec_worker_name(index);
    assert(w.subrange(0, 7) =~= "worker-"@);
    assert(w.subrange(7, w.len() as int) =~= decimal(index));
    assert forall|i: int| 7 <= i < w.len() implies is_decimal_digit(#[trigger] w[i]) by {
        assert(w[i] == decimal(index)[i - 7]);
    }
}

/// Every reported message carries its detail: the highest-slot failure and
/// TLS setup messages end with the error text they were given (the latter in
/// parentheses), and the connection failure message holds the error's
/// rendering right after its fixed opening.
pub proof fn lemma_messages_carry_details(
    file: TlsFile,
    path: Seq<char>,
    error: Seq<char>,
    connection_str: Seq<char>,
)
    ensures
        ({
            let m = highest_slot_failure_msg(error);
            m.subrange(m.len() - error.len(), m.len() as int) == error
        }),
        ({
            let m = tls_setup_msg(file, path, error);
            m.subrange(m.len() - error.len() - 1, m.len() - 1) == error && m.last() == ')'
        }),
        ({
            let m = connection_failure_msg(error, connection_str);
            let opening = "Error in connecting to the PostgreSQL database: "@;
            m.subrange(opening.len() as int, (opening.len() + error.len()) as int) == error
        }),
{
    reveal_strlit(")");
    let m = highest_slot_failure_msg(error);
    assert(m.subrange(m.len() - error.len(), m.len() as int) =~= error);
    let t = tls_setup_msg(file, path, error);
    assert(t.subrange(t.len() - error.len() - 1, t.len() - 1) =~= error);
    let c = connection_failure_msg(error, connection_str);
    let opening = "Error in connecting to the PostgreSQL database: "@;
    assert(c.subrange(opening.len() as int, (opening.len() + error.len()) as int) =~= error);
}

} // verus!
