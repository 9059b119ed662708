use vstd::prelude::*;
use vstd::string::StringExecFns;

use crate::logger::LogConfig;
use crate::utils::text::{decimal, decimal_spec};

verus! {

/// The environment the service was built for.
#[derive(Debug, Clone, Copy, PartialEq, Eq, Structural)]
pub enum Env {
    /// Development environment.
    Development,
    /// Release environment.
    Release,
}

impl Env {
    /// The environment for a build: development when debug assertions are
    /// compiled in, release otherwise.
    pub fn current_env(debug_assertions: bool) -> (env: Self)
        ensures
            env == (if debug_assertions { Env::Development } else { Env::Release }),
    {
        if debug_assertions {
            Env::Development
        } else {
            Env::Release
        }
    }

    /// File name of the configuration file of this environment.
    pub fn config_path(self) -> (path: &'static str)
        ensures
            path@ == (match self {
                Env::Development => "development.toml"@,
                Env::Release => "production.toml"@,
            }),
    {
        match self {
            Env::Development => "development.toml",
            Env::Release => "production.toml",
        }
    }
}

} // verus!

verus! {

/// The longest time to idle a cache takes: a thousand years of 365 days, in
/// seconds.
pub const MAX_TIME_TO_IDLE: u64 = 31_536_000_000;

/// Where the server listens.
#[derive(Debug, Clone)]
pub struct Server {
    /// The host address.
    pub host: String,
    /// The port number.
    pub port: u16,
}

/// How the database is reached.
#[derive(Debug, Clone)]
pub struct Database {
    /// The database username.
    pub username: String,
    /// The database password.
    pub password: String,
    /// The database host address.
    pub host: String,
    /// The database port number.
    pub port: u16,
    /// The database name.
    pub dbname: String,
    /// The database pool size.
    pub pool_size: Option<usize>,
}

/// How each cache is bounded.
#[derive(Debug, Clone, Copy)]
pub struct CacheConfig {
    /// Time to idle, in seconds: an entry that is not read for so long is
    /// dropped. Entries do not expire where it is absent.
    pub tti: Option<u64>,
    /// The number of entries a cache holds at most.
    pub max_capacity: u64,
}

impl CacheConfig {
    /// Whether a cache can be built with these bounds: the time to idle, if
    /// there is one, is at most [`MAX_TIME_TO_IDLE`].
    pub open spec fn is_valid(self) -> bool {
        self.tti matches Some(seconds) ==> seconds <= MAX_TIME_TO_IDLE
    }

    /// Tells whether a cache can be built with these bounds.
    pub fn validate(&self) -> (valid: bool)
        ensures
            valid == self.is_valid(),
    {
        match self.tti {
            Some(seconds) => seconds <= MAX_TIME_TO_IDLE,
            None => true,
        }
    }
}

/// How requests are rate limited.
#[derive(Debug, Clone, Copy)]
pub struct Limit {
    /// The number of requests allowed.
    pub request_count: u64,
    /// The duration (in seconds) for the rate limit.
    pub duration: u64,
    /// The buffer size.
    pub buffer_size: Option<usize>,
}

/// The number of requests buffered where the configuration names none.
pub const BUFFER_LIMIT: usize = 1024;

impl Limit {
    /// The number of requests that are buffered.
    pub fn buffer_capacity(&self) -> (capacity: usize)
        ensures
            capacity == (match self.buffer_size {
                Some(size) => size,
                None => BUFFER_LIMIT,
            }),
    {
        match self.buffer_size {
            Some(size) => size,
            None => BUFFER_LIMIT,
        }
    }
}

/// The secrets of the service.
#[derive(Debug, Clone)]
pub struct Secrets {
    /// The secret that tokens are signed with.
    pub jwt_secret: String,
}

/// The configuration of the service.
#[derive(Debug, Clone)]
pub struct Config {
    /// Server configuration.
    pub server: Server,
    /// Database configuration.
    pub database: Database,
    /// Logging configuration.
    pub log: LogConfig,
    /// Cache configuration.
    pub cache: CacheConfig,
    /// Rate limiting configuration.
    pub limit: Limit,
    /// Secrets configuration.
    pub secrets: Secrets,
}

impl Env {
    /// The name of the environment.
    pub open spec fn name_spec(self) -> Seq<char> {
        match self {
            Env::Development => "development"@,
            Env::Release => "release"@,
        }
    }

    /// The name of the environment.
    pub fn name(&self) -> (name: &'static str)
        ensures
            name@ == self.name_spec(),
    {
        match self {
            Env::Development => "development",
            Env::Release => "release",
        }
    }
}

impl Config {
    /// The parts of the path of the configuration file: the path that was
    /// given, or else, below the workspace, the directory `config` and in it
    /// the file of the environment.
    pub fn config_path(
        environment: &Env,
        explicit_config_path: Option<String>,
        workspace_path: String,
    ) -> (parts: Vec<String>)
        ensures
            match explicit_config_path {
                Some(path) => parts@ == seq![path],
                None => {
                    &&& parts@.len() == 3
                    &&& parts@[0] == workspace_path
                    &&& parts@[1]@ == "config"@
                    &&& parts@[2]@ == (match *environment {
                        Env::Development => "development.toml"@,
                        Env::Release => "production.toml"@,
                    })
                },
            },
    {
        let mut parts: Vec<String> = Vec::new();
        match explicit_config_path {
            Some(path) => {
                parts.push(path);
            },
            None => {
                parts.push(workspace_path);
                parts.push(String::from_str("config"));
                parts.push(String::from_str(environment.config_path()));
            },
        }
        parts
    }
}

impl Database {
    /// The address of the database: the scheme `postgres`, the user and the
    /// password, the host and the port, and the name of the database.
    pub open spec fn url_spec(self) -> Seq<char> {
        "postgres://"@ + self.username@ + ":"@ + self.password@ + "@"@ + self.host@ + ":"@
            + decimal_spec(self.port as nat) + "/"@ + self.dbname@
    }

    /// The address of the database.
    pub fn url(&self) -> (url: String)
        ensures
            url@ == self.url_spec(),
    {
        let port = decimal(self.port);
        String::from_str("postgres://").concat(self.username.as_str()).concat(":").concat(
            self.password.as_str(),
        ).concat("@").concat(self.host.as_str()).concat(":").concat(port.as_str()).concat(
            "/",
        ).concat(self.dbname.as_str())
    }
}

} // verus!
