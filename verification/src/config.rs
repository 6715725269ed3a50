use vstd::prelude::*;

use crate::text::{parse_u16, parsed_u16};

verus! {

/// Settings of the service.
#[derive(Clone, Debug)]
pub struct Config {
    pub database_url: String,
    pub read_database_url: String,
    pub redis_url: String,
    pub http_port: u16,
}

/// Why the settings could not be read; each is fatal at start-up.
#[derive(Clone, Copy, Debug, PartialEq, Eq, Structural)]
pub enum ConfigError {
    MissingDatabaseUrl,
    MissingReadDatabaseUrl,
    MissingRedisUrl,
    InvalidHttpPort,
}

/// The text each start-up failure is reported with.
pub open spec fn config_message(e: ConfigError) -> Seq<char> {
    match e {
        ConfigError::MissingDatabaseUrl => "DATABASE_URL missing"@,
        ConfigError::MissingReadDatabaseUrl => "READ_DATABASE_URL missing"@,
        ConfigError::MissingRedisUrl => "REDIS_URL missing"@,
        ConfigError::InvalidHttpPort => "Invalid HTTP_PORT"@,
    }
}

impl ConfigError {
    /// The text the failure is reported with.
    pub fn message(&self) -> (r: String)
        ensures
            r@ == config_message(*self),
    {
        match self {
            ConfigError::MissingDatabaseUrl => String::from_str("DATABASE_URL missing"),
            ConfigError::MissingReadDatabaseUrl => String::from_str("READ_DATABASE_URL missing"),
            ConfigError::MissingRedisUrl => String::from_str("REDIS_URL missing"),
            ConfigError::InvalidHttpPort => String::from_str("Invalid HTTP_PORT"),
        }
    }
}

/// The port the service listens on when `HTTP_PORT` is not set.
pub const DEFAULT_HTTP_PORT: u16 = 8080;

/// The port that an `HTTP_PORT` value selects: 8080 when it is unset,
/// otherwise its decimal value, if it is one.
pub open spec fn port_of(http_port: Option<Seq<char>>) -> Option<u16> {
    match http_port {
        None => Some(8080u16),
        Some(p) => parsed_u16(p),
    }
}

impl Config {
    /// Builds the settings from the values of `DATABASE_URL`,
    /// `READ_DATABASE_URL`, `REDIS_URL` and `HTTP_PORT` (each `None` when
    /// unset), checked in that order.
    pub fn from_values(
        database_url: Option<String>,
        read_database_url: Option<String>,
        redis_url: Option<String>,
        http_port: Option<String>,
    ) -> (r: Result<Config, ConfigError>)
        ensures
            database_url is None ==> r == Err::<Config, ConfigError>(ConfigError::MissingDatabaseUrl),
            database_url is Some && read_database_url is None
                ==> r == Err::<Config, ConfigError>(ConfigError::MissingReadDatabaseUrl),
            database_url is Some && read_database_url is Some && redis_url is None
                ==> r == Err::<Config, ConfigError>(ConfigError::MissingRedisUrl),
            database_url is Some && read_database_url is Some && redis_url is Some
                ==> match port_of(match http_port { Some(p) => Some(p@), None => None }) {
                    None => r == Err::<Config, ConfigError>(ConfigError::InvalidHttpPort),
                    Some(port) => r matches Ok(c) && c.database_url == database_url.unwrap()
                        && c.read_database_url == read_database_url.unwrap()
                        && c.redis_url == redis_url.unwrap() && c.http_port == port,
                },
    {
        let database_url = match database_url {
            Some(v) => v,
            None => return Err(ConfigError::MissingDatabaseUrl),
        };
        let read_database_url = match read_database_url {
            Some(v) => v,
            None => return Err(ConfigError::MissingReadDatabaseUrl),
        };
        let redis_url = match redis_url {
            Some(v) => v,
            None => return Err(ConfigError::MissingRedisUrl),
        };
        let port = match http_port {
            None => Some(DEFAULT_HTTP_PORT),
            Some(p) => parse_u16(p.as_str()),
        };
        match port {
            Some(http_port) => Ok(Config { database_url, read_database_url, redis_url, http_port }),
            None => Err(ConfigError::InvalidHttpPort),
        }
    }
}

} // verus!
