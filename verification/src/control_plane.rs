//! How a control plane is put together from its configuration: which
//! database, message broker and scheduler backends to use, where local
//! databases live, and how scheduler callbacks authenticate.

use vstd::prelude::*;
use crate::text::{
    blank, chars_of, is_blank, owned, push_str, str_eq, string_of, strip_prefix_chars,
    strip_prefix_text, trim_ws_chars, trim_ws_text,
};

verus! {

/// What is wrong with a control-plane configuration.
#[derive(Clone, Debug)]
pub enum ControlPlaneError {
    /// No `control_plane` section.
    ControlPlaneMissing,
    /// No `control_plane.database` section.
    DatabaseMissing,
    /// No `control_plane.message_broker` section.
    MessageBrokerMissing,
    /// A database driver that is not known.
    UnsupportedDatabaseDriver { driver: String },
    /// The RocksDB driver, in a build without it.
    RocksDbNotEnabled,
    /// A Postgres database without a URL.
    DatabaseUrlMissing,
    /// A message broker driver that is not known.
    UnsupportedMessageBroker { driver: String },
    /// A SQLite database with neither a URL nor a data directory.
    SqliteLocationMissing,
    /// A RocksDB database with neither a URL nor a data directory.
    RocksDbLocationMissing,
    /// A RocksDB URL that names no path.
    RocksDbUrlEmpty,
}

/// The description of a control-plane configuration error.
pub open spec fn control_plane_error_text(e: ControlPlaneError) -> Seq<char> {
    match e {
        ControlPlaneError::ControlPlaneMissing => "control_plane configuration is missing"@,
        ControlPlaneError::DatabaseMissing => "control_plane.database configuration is missing"@,
        ControlPlaneError::MessageBrokerMissing => "control_plane.message_broker configuration is missing"@,
        ControlPlaneError::UnsupportedDatabaseDriver { driver } => "Unsupported database driver: "@ + driver@,
        ControlPlaneError::RocksDbNotEnabled => "RocksDB database driver is not enabled in this build"@,
        ControlPlaneError::DatabaseUrlMissing => "Database URL secret is missing"@,
        ControlPlaneError::UnsupportedMessageBroker { driver } => "Unsupported message broker driver: "@ + driver@,
        ControlPlaneError::SqliteLocationMissing => "SQLite database requires either control_plane.database.url or control_plane.database.data_dir"@,
        ControlPlaneError::RocksDbLocationMissing => "RocksDB database requires either control_plane.database.url or control_plane.database.data_dir"@,
        ControlPlaneError::RocksDbUrlEmpty => "RocksDB database URL must resolve to a non-empty path"@,
    }
}

impl ControlPlaneError {
    /// A description of the error.
    pub fn message(&self) -> (r: String)
        ensures
            r@ == control_plane_error_text(*self),
    {
        let mut m = String::new();
        match self {
            ControlPlaneError::ControlPlaneMissing => {
                push_str(&mut m, "control_plane configuration is missing");
            },
            ControlPlaneError::DatabaseMissing => {
                push_str(&mut m, "control_plane.database configuration is missing");
            },
            ControlPlaneError::MessageBrokerMissing => {
                push_str(&mut m, "control_plane.message_broker configuration is missing");
            },
            ControlPlaneError::UnsupportedDatabaseDriver { driver } => {
                push_str(&mut m, "Unsupported database driver: ");
                push_str(&mut m, driver.as_str());
            },
            ControlPlaneError::RocksDbNotEnabled => {
                push_str(&mut m, "RocksDB database driver is not enabled in this build");
            },
            ControlPlaneError::DatabaseUrlMissing => {
                push_str(&mut m, "Database URL secret is missing");
            },
            ControlPlaneError::UnsupportedMessageBroker { driver } => {
                push_str(&mut m, "Unsupported message broker driver: ");
                push_str(&mut m, driver.as_str());
            },
            ControlPlaneError::SqliteLocationMissing => {
                push_str(
                    &mut m,
                    "SQLite database requires either control_plane.database.url or control_plane.database.data_dir",
                );
            },
            ControlPlaneError::RocksDbLocationMissing => {
                push_str(
                    &mut m,
                    "RocksDB database requires either control_plane.database.url or control_plane.database.data_dir",
                );
            },
            ControlPlaneError::RocksDbUrlEmpty => {
                push_str(&mut m, "RocksDB database URL must resolve to a non-empty path");
            },
        }
        m
    }
}

/// The databases a control plane can keep its resources in.
#[derive(Clone, Copy, Debug, PartialEq, Eq, Structural)]
pub enum DatabaseDriver {
    Postgres,
    Sqlite,
    D1,
    RocksDb,
}

/// The database a driver name selects: Postgres needs a URL, and RocksDB
/// a build that has it.
pub fn database_driver(driver: &str, has_url: bool, rocksdb_enabled: bool) -> (r: Result<DatabaseDriver, ControlPlaneError>)
    ensures
        driver@ == "postgres"@ ==> if has_url {
            r == Ok::<DatabaseDriver, ControlPlaneError>(DatabaseDriver::Postgres)
        } else {
            r matches Err(ControlPlaneError::DatabaseUrlMissing)
        },
        driver@ == "sqlite"@ ==> r == Ok::<DatabaseDriver, ControlPlaneError>(DatabaseDriver::Sqlite),
        driver@ == "d1"@ ==> r == Ok::<DatabaseDriver, ControlPlaneError>(DatabaseDriver::D1),
        driver@ == "rocksdb"@ ==> if rocksdb_enabled {
            r == Ok::<DatabaseDriver, ControlPlaneError>(DatabaseDriver::RocksDb)
        } else {
            r matches Err(ControlPlaneError::RocksDbNotEnabled)
        },
        !(driver@ == "postgres"@ || driver@ == "sqlite"@ || driver@ == "d1"@ || driver@ == "rocksdb"@)
            ==> (r matches Err(ControlPlaneError::UnsupportedDatabaseDriver { driver: d }) && d@ == driver@),
{
    proof {
        lemma_driver_names();
    }
    if str_eq(driver, "postgres") {
        if has_url {
            Ok(DatabaseDriver::Postgres)
        } else {
            Err(ControlPlaneError::DatabaseUrlMissing)
        }
    } else if str_eq(driver, "sqlite") {
        Ok(DatabaseDriver::Sqlite)
    } else if str_eq(driver, "d1") {
        Ok(DatabaseDriver::D1)
    } else if str_eq(driver, "rocksdb") {
        if rocksdb_enabled {
            Ok(DatabaseDriver::RocksDb)
        } else {
            Err(ControlPlaneError::RocksDbNotEnabled)
        }
    } else {
        Err(ControlPlaneError::UnsupportedDatabaseDriver { driver: owned(driver) })
    }
}

/// The message brokers a control plane can publish through.
#[derive(Clone, Copy, Debug, PartialEq, Eq, Structural)]
pub enum BrokerDriver {
    GcpPubSub,
    LocalSocket,
    CfQueues,
}

/// The message broker the configured driver names.
pub fn message_broker_driver(driver: Option<&str>) -> (r: Result<BrokerDriver, ControlPlaneError>)
    ensures
        match driver {
            None => r matches Err(ControlPlaneError::MessageBrokerMissing),
            Some(d) => if d@ == "gcp_pubsub"@ {
                r == Ok::<BrokerDriver, ControlPlaneError>(BrokerDriver::GcpPubSub)
            } else if d@ == "local_socket"@ {
                r == Ok::<BrokerDriver, ControlPlaneError>(BrokerDriver::LocalSocket)
            } else if d@ == "cf-queues"@ {
                r == Ok::<BrokerDriver, ControlPlaneError>(BrokerDriver::CfQueues)
            } else {
                r matches Err(ControlPlaneError::UnsupportedMessageBroker { driver: x }) && x@ == d@
            },
        },
{
    let d = match driver {
        Some(d) => d,
        None => {
            return Err(ControlPlaneError::MessageBrokerMissing);
        },
    };
    if str_eq(d, "gcp_pubsub") {
        Ok(BrokerDriver::GcpPubSub)
    } else if str_eq(d, "local_socket") {
        Ok(BrokerDriver::LocalSocket)
    } else if str_eq(d, "cf-queues") {
        Ok(BrokerDriver::CfQueues)
    } else {
        Err(ControlPlaneError::UnsupportedMessageBroker { driver: owned(d) })
    }
}

/// The directory a local-socket broker keeps its socket under by default:
/// the SQLite data directory, trimmed, when there is one.
pub fn local_socket_default_root(database_driver: &str, data_dir: &str) -> (r: Option<String>)
    ensures
        if database_driver@ == "sqlite"@ && !is_blank(data_dir@) {
            r matches Some(p) && p@ == trim_ws_text(data_dir@)
        } else {
            r is None
        },
{
    if str_eq(database_driver, "sqlite") && !blank(data_dir) {
        Some(string_of(&trim_ws_chars(&chars_of(data_dir))))
    } else {
        None
    }
}

/// `dir` joined with a file name, with one `/` between them.
pub open spec fn join_file(dir: Seq<char>, file: Seq<char>) -> Seq<char> {
    if dir.len() == 0 {
        file
    } else if dir.last() == '/' {
        dir + file
    } else {
        dir + seq!['/'] + file
    }
}

fn join_file_text(dir: &str, file: &str) -> (r: String)
    ensures
        r@ == join_file(dir@, file@),
{
    let v = chars_of(dir);
    let mut r = String::new();
    if v.len() == 0 {
        push_str(&mut r, file);
        return r;
    }
    push_str(&mut r, dir);
    if v[v.len() - 1] != '/' {
        crate::text::push_char(&mut r, '/');
    }
    push_str(&mut r, file);
    r
}

/// Where a SQLite control-plane database lives: nothing when its URL is
/// given, else the database file in the trimmed data directory.
pub fn sqlite_database_location(has_url: bool, data_dir: &str) -> (r: Result<Option<String>, ControlPlaneError>)
    ensures
        has_url ==> r matches Ok(None),
        !has_url && is_blank(data_dir@) ==> r matches Err(ControlPlaneError::SqliteLocationMissing),
        !has_url && !is_blank(data_dir@) ==> (r matches Ok(Some(p)) && p@ == join_file(
            trim_ws_text(data_dir@),
            "talon-control-plane.db"@,
        )),
{
    if has_url {
        return Ok(None);
    }
    if blank(data_dir) {
        return Err(ControlPlaneError::SqliteLocationMissing);
    }
    let dir = string_of(&trim_ws_chars(&chars_of(data_dir)));
    Ok(Some(join_file_text(dir.as_str(), "talon-control-plane.db")))
}

/// The RocksDB path a database URL names: the URL without `rocksdb://`.
pub fn rocksdb_path_from_url(url: &str) -> (r: Result<String, ControlPlaneError>)
    ensures
        ({
            let path = match strip_prefix_text(url@, "rocksdb://"@) {
                Some(p) => p,
                None => url@,
            };
            if is_blank(path) {
                r matches Err(ControlPlaneError::RocksDbUrlEmpty)
            } else {
                r matches Ok(p) && p@ == path
            }
        }),
{
    let v = chars_of(url);
    let path = match strip_prefix_chars(&v, "rocksdb://") {
        Some(p) => string_of(&p),
        None => owned(url),
    };
    if blank(path.as_str()) {
        Err(ControlPlaneError::RocksDbUrlEmpty)
    } else {
        Ok(path)
    }
}

/// Where a RocksDB control-plane database lives without a URL: the database
/// directory in the trimmed data directory.
pub fn rocksdb_data_dir_path(data_dir: &str) -> (r: Result<String, ControlPlaneError>)
    ensures
        is_blank(data_dir@) ==> r matches Err(ControlPlaneError::RocksDbLocationMissing),
        !is_blank(data_dir@) ==> (r matches Ok(p) && p@ == join_file(
            trim_ws_text(data_dir@),
            "talon-control-plane.rocksdb"@,
        )),
{
    if blank(data_dir) {
        return Err(ControlPlaneError::RocksDbLocationMissing);
    }
    let dir = string_of(&trim_ws_chars(&chars_of(data_dir)));
    Ok(join_file_text(dir.as_str(), "talon-control-plane.rocksdb"))
}

/// How a scheduler's callbacks prove who sent them.
#[derive(Clone, Debug)]
pub enum CallbackAuth {
    /// A shared secret token.
    SharedSecret { token: String },
    /// A Google OIDC token for an audience, from a service account.
    GoogleOidc { audience: String, service_account_email: String },
}

/// The callback authentication the environment names: a shared token when
/// one is set and not blank, else OIDC for a set, non-blank audience.
pub fn configured_scheduler_callback_auth(
    token: Option<&str>,
    audience: Option<&str>,
    service_account_email: Option<&str>,
) -> (r: Option<CallbackAuth>)
    ensures
        match token {
            Some(t) if !is_blank(t@) => r matches Some(CallbackAuth::SharedSecret { token: x }) && x@ == t@,
            _ => match audience {
                Some(a) if !is_blank(a@) => r matches Some(
                    CallbackAuth::GoogleOidc { audience: x, service_account_email: e },
                ) && x@ == a@ && e@ == match service_account_email {
                    Some(m) => m@,
                    None => seq![],
                },
                _ => r is None,
            },
        },
{
    if let Some(t) = token {
        if !blank(t) {
            return Some(CallbackAuth::SharedSecret { token: owned(t) });
        }
    }
    match audience {
        Some(a) => {
            if blank(a) {
                None
            } else {
                let email = match service_account_email {
                    Some(m) => owned(m),
                    None => String::new(),
                };
                Some(CallbackAuth::GoogleOidc { audience: owned(a), service_account_email: email })
            }
        },
        None => None,
    }
}

/// A Cloud Tasks scheduler.
#[derive(Clone, Debug)]
pub struct CloudTasksConfig {
    pub project_id: String,
    pub location: String,
    pub queue: String,
    pub target_url: String,
    pub callback_auth: Option<CallbackAuth>,
}

/// The configured scheduler backend, if any.
#[derive(Clone, Debug)]
pub struct SchedulerConfig {
    pub cloud_tasks: Option<CloudTasksConfig>,
}

/// The scheduler settings the environment holds.
#[derive(Clone, Debug)]
pub struct SchedulerEnv {
    pub driver: Option<String>,
    pub project_id: Option<String>,
    pub location: Option<String>,
    pub queue: Option<String>,
    pub target_url: Option<String>,
    pub auth_token: Option<String>,
    pub audience: Option<String>,
    pub service_account_email: Option<String>,
}

/// A text, or the empty text.
pub open spec fn text_or_empty(s: Option<String>) -> Seq<char> {
    match s {
        Some(s) => s@,
        None => seq![],
    }
}

/// `a` and `b` say the same.
pub open spec fn same_auth(a: CallbackAuth, b: CallbackAuth) -> bool {
    match (a, b) {
        (CallbackAuth::SharedSecret { token: x }, CallbackAuth::SharedSecret { token: y }) => x@ == y@,
        (
            CallbackAuth::GoogleOidc { audience: x, service_account_email: e },
            CallbackAuth::GoogleOidc { audience: y, service_account_email: f },
        ) => x@ == y@ && e@ == f@,
        _ => false,
    }
}

/// `a` and `b` say the same.
pub open spec fn same_cloud_tasks(a: CloudTasksConfig, b: CloudTasksConfig) -> bool {
    &&& a.project_id@ == b.project_id@
    &&& a.location@ == b.location@
    &&& a.queue@ == b.queue@
    &&& a.target_url@ == b.target_url@
    &&& match (a.callback_auth, b.callback_auth) {
        (Some(x), Some(y)) => same_auth(x, y),
        (None, None) => true,
        _ => false,
    }
}

fn copy_auth(a: &CallbackAuth) -> (r: CallbackAuth)
    ensures
        same_auth(*a, r),
{
    match a {
        CallbackAuth::SharedSecret { token } => CallbackAuth::SharedSecret { token: owned(token.as_str()) },
        CallbackAuth::GoogleOidc { audience, service_account_email } => CallbackAuth::GoogleOidc {
            audience: owned(audience.as_str()),
            service_account_email: owned(service_account_email.as_str()),
        },
    }
}

fn text_of(s: &Option<String>) -> (r: String)
    ensures
        r@ == text_or_empty(*s),
{
    match s {
        Some(s) => owned(s.as_str()),
        None => String::new(),
    }
}

fn as_str_opt(s: &Option<String>) -> (r: Option<&str>)
    ensures
        match (s, r) {
            (Some(a), Some(b)) => a@ == b@,
            (None, None) => true,
            _ => false,
        },
{
    match s {
        Some(s) => Some(s.as_str()),
        None => None,
    }
}

/// The scheduler the configuration or else the environment names: a
/// configured backend wins; else the trimmed driver `cloud_tasks` builds
/// one from the environment; any other driver, or none, names none.
pub fn configured_scheduler(cfg: Option<&SchedulerConfig>, env: &SchedulerEnv) -> (r: Option<SchedulerConfig>)
    ensures
        match cfg {
            Some(c) if c.cloud_tasks is Some => r matches Some(x) && x.cloud_tasks matches Some(t)
                && same_cloud_tasks(c.cloud_tasks->0, t),
            _ => match env.driver {
                Some(d) if trim_ws_text(d@) == "cloud_tasks"@ => r matches Some(x) && x.cloud_tasks matches Some(t) && {
                    &&& t.project_id@ == text_or_empty(env.project_id)
                    &&& t.location@ == text_or_empty(env.location)
                    &&& t.queue@ == text_or_empty(env.queue)
                    &&& t.target_url@ == text_or_empty(env.target_url)
                    &&& match env.auth_token {
                        Some(tok) if !is_blank(tok@) => t.callback_auth matches Some(
                            CallbackAuth::SharedSecret { token: x },
                        ) && x@ == tok@,
                        _ => match env.audience {
                            Some(a) if !is_blank(a@) => t.callback_auth matches Some(
                                CallbackAuth::GoogleOidc { audience: x, service_account_email: e },
                            ) && x@ == a@ && e@ == text_or_empty(env.service_account_email),
                            _ => t.callback_auth is None,
                        },
                    }
                },
                _ => r is None,
            },
        },
{
    if let Some(c) = cfg {
        if let Some(t) = &c.cloud_tasks {
            let auth = match &t.callback_auth {
                Some(a) => Some(copy_auth(a)),
                None => None,
            };
            return Some(
                SchedulerConfig {
                    cloud_tasks: Some(
                        CloudTasksConfig {
                            project_id: owned(t.project_id.as_str()),
                            location: owned(t.location.as_str()),
                            queue: owned(t.queue.as_str()),
                            target_url: owned(t.target_url.as_str()),
                            callback_auth: auth,
                        },
                    ),
                },
            );
        }
    }
    let driver = match &env.driver {
        Some(d) => string_of(&trim_ws_chars(&chars_of(d.as_str()))),
        None => {
            return None;
        },
    };
    if !str_eq(driver.as_str(), "cloud_tasks") {
        return None;
    }
    let callback_auth = configured_scheduler_callback_auth(
        as_str_opt(&env.auth_token),
        as_str_opt(&env.audience),
        as_str_opt(&env.service_account_email),
    );
    proof {
        if env.service_account_email is None {
            assert(text_or_empty(env.service_account_email) =~= Seq::<char>::empty());
        }
    }
    Some(
        SchedulerConfig {
            cloud_tasks: Some(
                CloudTasksConfig {
                    project_id: text_of(&env.project_id),
                    location: text_of(&env.location),
                    queue: text_of(&env.queue),
                    target_url: text_of(&env.target_url),
                    callback_auth,
                },
            ),
        },
    )
}

/// The scheduler backend a control plane runs.
#[derive(Clone, Debug)]
pub enum SchedulerChoice {
    /// A scheduler in the Postgres database at the URL.
    LocalPostgres { database_url: String },
    /// A scheduler in the SQLite database at the URL.
    LocalSqlite { database_url: String },
    /// Cloudflare alarms.
    CfAlarms,
    /// The one the configuration names, if any.
    Configured,
    /// None: schedules are not fired.
    Noop,
}

/// The scheduler backend the driver of the environment selects: the local
/// ones need the control plane's database URL, and any other driver defers
/// to the configuration.
pub fn scheduler_choice(driver: Option<&str>, database_url: Option<&str>) -> (r: SchedulerChoice)
    ensures
        match driver {
            Some(d) if d@ == "local_postgres"@ => match database_url {
                Some(u) => r matches SchedulerChoice::LocalPostgres { database_url: x } && x@ == u@,
                None => r is Noop,
            },
            Some(d) if d@ == "local_sqlite"@ => match database_url {
                Some(u) => r matches SchedulerChoice::LocalSqlite { database_url: x } && x@ == u@,
                None => r is Noop,
            },
            Some(d) if d@ == "cf-alarms"@ => r is CfAlarms,
            _ => r is Configured,
        },
{
    proof {
        lemma_scheduler_names();
    }
    match driver {
        Some(d) => {
            if str_eq(d, "local_postgres") {
                match database_url {
                    Some(u) => SchedulerChoice::LocalPostgres { database_url: owned(u) },
                    None => SchedulerChoice::Noop,
                }
            } else if str_eq(d, "local_sqlite") {
                match database_url {
                    Some(u) => SchedulerChoice::LocalSqlite { database_url: owned(u) },
                    None => SchedulerChoice::Noop,
                }
            } else if str_eq(d, "cf-alarms") {
                SchedulerChoice::CfAlarms
            } else {
                SchedulerChoice::Configured
            }
        },
        None => SchedulerChoice::Configured,
    }
}

/// Whether a local scheduler also runs the schedules: the setting is `1`
/// or `true` in any case.
pub open spec fn runner_enabled(value: Option<Seq<char>>) -> bool {
    match value {
        Some(v) => v == "1"@ || (v.len() == 4 && crate::text::ascii_lower(v[0]) == 't'
            && crate::text::ascii_lower(v[1]) == 'r' && crate::text::ascii_lower(v[2]) == 'u'
            && crate::text::ascii_lower(v[3]) == 'e'),
        None => false,
    }
}

/// Whether a local scheduler also runs the schedules.
pub fn local_scheduler_runner(value: Option<&str>) -> (r: bool)
    ensures
        r == runner_enabled(
            match value {
                Some(v) => Some(v@),
                None => None,
            },
        ),
{
    match value {
        Some(v) => {
            if str_eq(v, "1") {
                return true;
            }
            let c = chars_of(v);
            c.len() == 4 && crate::text::to_ascii_lower(c[0]) == 't' && crate::text::to_ascii_lower(c[1])
                == 'r' && crate::text::to_ascii_lower(c[2]) == 'u' && crate::text::to_ascii_lower(c[3])
                == 'e'
        },
        None => false,
    }
}

proof fn lemma_driver_names()
    ensures
        "postgres"@ != "sqlite"@,
        "postgres"@ != "d1"@,
        "postgres"@ != "rocksdb"@,
        "sqlite"@ != "d1"@,
        "sqlite"@ != "rocksdb"@,
        "d1"@ != "rocksdb"@,
{
    reveal_strlit("postgres");
    reveal_strlit("sqlite");
    reveal_strlit("d1");
    reveal_strlit("rocksdb");
    assert("postgres"@.len() == 8);
    assert("sqlite"@.len() == 6);
    assert("d1"@.len() == 2);
    assert("rocksdb"@.len() == 7);
}

proof fn lemma_scheduler_names()
    ensures
        "local_postgres"@ != "local_sqlite"@,
        "local_postgres"@ != "cf-alarms"@,
        "local_sqlite"@ != "cf-alarms"@,
{
    reveal_strlit("local_postgres");
    reveal_strlit("local_sqlite");
    reveal_strlit("cf-alarms");
    assert("local_postgres"@.len() == 14);
    assert("local_sqlite"@.len() == 12);
    assert("cf-alarms"@.len() == 9);
}


} // verus!
