//! The configuration surface the gateway consumes: transport ports and log
//! levels, store and cache connection settings, and where the configuration
//! file itself is found. Loading the file is I/O performed outside; the
//! values and the path-resolution rule live here.

use vstd::prelude::*;
use vstd::string::*;

use crate::text::str_eq;

verus! {

/// The command line: an optional explicit configuration file path.
#[derive(Debug, Clone, PartialEq, Eq)]
pub struct CmdOpts {
    pub config: Option<String>,
}

/// HTTP server settings.
#[derive(Debug, Clone, PartialEq, Eq)]
pub struct HttpConfig {
    pub port: u16,
    pub log_level: String,
    pub allowed_hosts: Option<Vec<String>>,
}

/// RPC server settings.
#[derive(Debug, Clone, PartialEq, Eq)]
pub struct GrpcConfig {
    pub name: String,
    pub port: u16,
    pub log_level: String,
}

/// Store connection-pool settings.
#[derive(Debug, Clone, PartialEq, Eq)]
pub struct DbConfig {
    pub url: String,
    pub min_connections: u32,
    pub max_connections: u32,
    pub connect_timeout_secs: u64,
    pub acquire_timeout_secs: u64,
    pub idle_timeout_secs: u64,
    pub max_lifetime_secs: u64,
    pub sqlx_logging: bool,
    pub schema: String,
    pub timezone: String,
}

/// Cache connection settings.
#[derive(Debug, Clone, PartialEq, Eq)]
pub struct RedisConfig {
    pub url: String,
    pub max_open: u64,
    pub max_idle: u64,
    pub timeout_sec: u64,
}

/// The whole application configuration, loaded once at start-up and treated
/// as immutable for the process lifetime.
#[derive(Debug, Clone, PartialEq, Eq)]
pub struct AppConfig {
    pub http: HttpConfig,
    pub grpc: GrpcConfig,
    pub database: DbConfig,
    pub redis: RedisConfig,
    pub is_dev: bool,
}

impl HttpConfig {
    pub fn port(&self) -> (r: u16)
        ensures
            r == self.port,
    {
        self.port
    }

    pub fn log_level(&self) -> (r: &str)
        ensures
            r@ == self.log_level@,
    {
        self.log_level.as_str()
    }

    /// The configured allowed hosts, or the local defaults when the profile
    /// names none.
    pub fn allowed_host(&self) -> (r: Vec<String>)
        ensures
            (match self.allowed_hosts {
                Some(hosts) => r.deep_view() == hosts.deep_view(),
                None => r.deep_view() =~= seq!["localhost"@, "127.0.0.1"@],
            }),
    {
        match &self.allowed_hosts {
            Some(hosts) => {
                let mut out: Vec<String> = Vec::new();
                let mut i: usize = 0;
                while i < hosts.len()
                    invariant
                        i <= hosts.len(),
                        out@.len() == i,
                        forall|j: int| 0 <= j < i ==> out@[j]@ == #[trigger] hosts@[j]@,
                    decreases hosts.len() - i,
                {
                    out.push(hosts[i].clone());
                    i = i + 1;
                }
                proof {
                    assert(out.deep_view() =~= hosts.deep_view());
                }
                out
            },
            None => {
                let mut out: Vec<String> = Vec::new();
                out.push(String::from_str("localhost"));
                out.push(String::from_str("127.0.0.1"));
                proof {
                    assert(out.deep_view() =~= seq!["localhost"@, "127.0.0.1"@]);
                }
                out
            },
        }
    }
}

impl GrpcConfig {
    pub fn name(&self) -> (r: &str)
        ensures
            r@ == self.name@,
    {
        self.name.as_str()
    }

    pub fn port(&self) -> (r: u16)
        ensures
            r == self.port,
    {
        self.port
    }

    pub fn log_level(&self) -> (r: &str)
        ensures
            r@ == self.log_level@,
    {
        self.log_level.as_str()
    }
}

impl DbConfig {
    pub fn url(&self) -> (r: &str)
        ensures
            r@ == self.url@,
    {
        self.url.as_str()
    }

    pub fn min_connections(&self) -> (r: u32)
        ensures
            r == self.min_connections,
    {
        self.min_connections
    }

    pub fn max_connections(&self) -> (r: u32)
        ensures
            r == self.max_connections,
    {
        self.max_connections
    }

    pub fn connect_timeout_secs(&self) -> (r: u64)
        ensures
            r == self.connect_timeout_secs,
    {
        self.connect_timeout_secs
    }

    pub fn acquire_timeout_secs(&self) -> (r: u64)
        ensures
            r == self.acquire_timeout_secs,
    {
        self.acquire_timeout_secs
    }

    pub fn idle_timeout_secs(&self) -> (r: u64)
        ensures
            r == self.idle_timeout_secs,
    {
        self.idle_timeout_secs
    }

    pub fn max_lifetime_secs(&self) -> (r: u64)
        ensures
            r == self.max_lifetime_secs,
    {
        self.max_lifetime_secs
    }

    pub fn sqlx_logging(&self) -> (r: bool)
        ensures
            r == self.sqlx_logging,
    {
        self.sqlx_logging
    }

    pub fn schema(&self) -> (r: &str)
        ensures
            r@ == self.schema@,
    {
        self.schema.as_str()
    }

    pub fn timezone(&self) -> (r: &str)
        ensures
            r@ == self.timezone@,
    {
        self.timezone.as_str()
    }
}

impl Default for DbConfig {
    /// The store defaults used where the profile leaves settings out.
    fn default() -> (r: Self)
        ensures
            r.url@ == Seq::<char>::empty(),
            r.min_connections == 3,
            r.max_connections == 10,
            r.connect_timeout_secs == 10,
            r.acquire_timeout_secs == 6,
            r.idle_timeout_secs == 600,
            r.max_lifetime_secs == 1800,
            !r.sqlx_logging,
            r.schema@ == "public"@,
            r.timezone@ == "Asia/Shanghai"@,
    {
        DbConfig {
            url: String::new(),
            min_connections: 3,
            max_connections: 10,
            connect_timeout_secs: 10,
            acquire_timeout_secs: 6,
            idle_timeout_secs: 600,
            max_lifetime_secs: 1800,
            sqlx_logging: false,
            schema: String::from_str("public"),
            timezone: String::from_str("Asia/Shanghai"),
        }
    }
}

impl RedisConfig {
    pub fn url(&self) -> (r: &str)
        ensures
            r@ == self.url@,
    {
        self.url.as_str()
    }

    pub fn max_open(&self) -> (r: u64)
        ensures
            r == self.max_open,
    {
        self.max_open
    }

    pub fn max_idle(&self) -> (r: u64)
        ensures
            r == self.max_idle,
    {
        self.max_idle
    }

    pub fn timeout_sec(&self) -> (r: u64)
        ensures
            r == self.timeout_sec,
    {
        self.timeout_sec
    }
}

/// The configuration file the run mode selects when the command line names
/// none: the local development profile in development, the deployed profile
/// otherwise.
pub open spec fn resolved_config_path(cmd: Option<Seq<char>>, run_mode: Seq<char>) -> Seq<char> {
    match cmd {
        Some(path) => path,
        None => if run_mode == "dev"@ {
            "./dev"@
        } else {
            "/app/conf/prod.yml"@
        },
    }
}

impl AppConfig {
    pub fn http_config(&self) -> (r: &HttpConfig)
        ensures
            r == &self.http,
    {
        &self.http
    }

    pub fn grpc_config(&self) -> (r: &GrpcConfig)
        ensures
            r == &self.grpc,
    {
        &self.grpc
    }

    pub fn database(&self) -> (r: &DbConfig)
        ensures
            r == &self.database,
    {
        &self.database
    }

    pub fn redis(&self) -> (r: &RedisConfig)
        ensures
            r == &self.redis,
    {
        &self.redis
    }

    pub fn is_dev(&self) -> (r: bool)
        ensures
            r == self.is_dev,
    {
        self.is_dev
    }

    /// Resolves the configuration file path from the command line and the
    /// run mode.
    pub fn resolve_config_path(cmd_opts: &CmdOpts, run_mode: &str) -> (r: String)
        ensures
            (match cmd_opts.config {
                Some(path) => r@ == path@,
                None => r@ == resolved_config_path(None, run_mode@),
            }),
    {
        match &cmd_opts.config {
            Some(path) => path.clone(),
            None => {
                if str_eq(run_mode, "dev") {
                    String::from_str("./dev")
                } else {
                    String::from_str("/app/conf/prod.yml")
                }
            },
        }
    }
}

} // verus!
