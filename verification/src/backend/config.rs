//! The settings of the marketplace backend.

use crate::error::ValidatorError;
use crate::settings::{
    required_text, required_text_of, signed_or, signed_or_of, text_or, text_or_of, unsigned_or,
    unsigned_or_of, Setting, SettingFault,
};
use vstd::prelude::*;

verus! {

/// Where the backend listens.
#[derive(Debug, Clone)]
pub struct ServerConfig {
    pub port: u16,
    pub host: String,
}

/// The relational store.
#[derive(Debug, Clone)]
pub struct DatabaseConfig {
    pub url: String,
    pub max_connections: u32,
}

/// The signing of session tokens.
#[derive(Debug, Clone)]
pub struct AuthConfig {
    pub jwt_secret: String,
    pub jwt_expiry: i64,
    pub refresh_expiry: i64,
}

/// The key-value store.
#[derive(Debug, Clone)]
pub struct RedisConfig {
    pub url: String,
}

/// The validator service, as the backend reaches it.
#[derive(Debug, Clone)]
pub struct ValidatorConfig {
    pub url: String,
    pub timeout: u64,
}

/// What the backend is started with.
#[derive(Debug, Clone)]
pub struct Config {
    pub server: ServerConfig,
    pub database: DatabaseConfig,
    pub auth: AuthConfig,
    pub redis: RedisConfig,
    pub validator: ValidatorConfig,
}

/// The mathematical value of a [`Config`].
pub struct ConfigView {
    pub server_port: u16,
    pub server_host: Seq<char>,
    pub database_url: Seq<char>,
    pub database_max_connections: u32,
    pub auth_jwt_secret: Seq<char>,
    pub auth_jwt_expiry: i64,
    pub auth_refresh_expiry: i64,
    pub redis_url: Seq<char>,
    pub validator_url: Seq<char>,
    pub validator_timeout: u64,
}

impl View for Config {
    type V = ConfigView;

    open spec fn view(&self) -> ConfigView {
        ConfigView {
            server_port: self.server.port,
            server_host: self.server.host@,
            database_url: self.database.url@,
            database_max_connections: self.database.max_connections,
            auth_jwt_secret: self.auth.jwt_secret@,
            auth_jwt_expiry: self.auth.jwt_expiry,
            auth_refresh_expiry: self.auth.refresh_expiry,
            redis_url: self.redis.url@,
            validator_url: self.validator.url@,
            validator_timeout: self.validator.timeout,
        }
    }
}

/// The port where none is set.
pub const DEFAULT_PORT: u16 = 8000;

/// The size of the connection pool where none is set.
pub const DEFAULT_MAX_CONNECTIONS: u32 = 10;

/// The life of a session token where none is set, in seconds.
pub const DEFAULT_JWT_EXPIRY: i64 = 3600;

/// The life of a refresh token where none is set, in seconds.
pub const DEFAULT_REFRESH_EXPIRY: i64 = 86400;

/// The time allowed to the validator where none is set, in seconds.
pub const DEFAULT_VALIDATOR_TIMEOUT: u64 = 5;

/// The numbers of a configuration, in the order of its fields: the port,
/// the pool's size, the two token lives and the validator's time.
pub open spec fn numbers_of(settings: Seq<Setting>) -> Result<
    (u64, u64, i64, i64, u64),
    SettingFault,
> {
    match unsigned_or_of(settings, "server.port"@, DEFAULT_PORT as u64, u16::MAX as u64) {
        Err(fault) => Err(fault),
        Ok(port) => match unsigned_or_of(
            settings,
            "database.max_connections"@,
            DEFAULT_MAX_CONNECTIONS as u64,
            u32::MAX as u64,
        ) {
            Err(fault) => Err(fault),
            Ok(max_connections) => match signed_or_of(
                settings,
                "auth.jwt_expiry"@,
                DEFAULT_JWT_EXPIRY,
            ) {
                Err(fault) => Err(fault),
                Ok(jwt_expiry) => match signed_or_of(
                    settings,
                    "auth.refresh_expiry"@,
                    DEFAULT_REFRESH_EXPIRY,
                ) {
                    Err(fault) => Err(fault),
                    Ok(refresh_expiry) => match unsigned_or_of(
                        settings,
                        "validator.timeout"@,
                        DEFAULT_VALIDATOR_TIMEOUT,
                        u64::MAX,
                    ) {
                        Err(fault) => Err(fault),
                        Ok(timeout) => Ok(
                            (port, max_connections, jwt_expiry, refresh_expiry, timeout),
                        ),
                    },
                },
            },
        },
    }
}

/// The texts of a configuration that have no default, in the order of its
/// fields: the database, the token secret and the key-value store.
pub open spec fn required_of(settings: Seq<Setting>) -> Result<
    (Seq<char>, Seq<char>, Seq<char>),
    SettingFault,
> {
    match required_text_of(settings, "database.url"@) {
        Err(fault) => Err(fault),
        Ok(database_url) => match required_text_of(settings, "auth.jwt_secret"@) {
            Err(fault) => Err(fault),
            Ok(jwt_secret) => match required_text_of(settings, "redis.url"@) {
                Err(fault) => Err(fault),
                Ok(redis_url) => Ok((database_url, jwt_secret, redis_url)),
            },
        },
    }
}

/// The configuration that a list of settings stands for. A missing text is
/// reported before an unreadable number.
pub open spec fn config_of(settings: Seq<Setting>) -> Result<ConfigView, SettingFault> {
    match required_of(settings) {
        Err(fault) => Err(fault),
        Ok(texts) => match numbers_of(settings) {
            Err(fault) => Err(fault),
            Ok(numbers) => Ok(
                ConfigView {
                    server_port: numbers.0 as u16,
                    server_host: text_or_of(settings, "server.host"@, "0.0.0.0"@),
                    database_url: texts.0,
                    database_max_connections: numbers.1 as u32,
                    auth_jwt_secret: texts.1,
                    auth_jwt_expiry: numbers.2,
                    auth_refresh_expiry: numbers.3,
                    redis_url: texts.2,
                    validator_url: text_or_of(
                        settings,
                        "validator.url"@,
                        "http://localhost:50051"@,
                    ),
                    validator_timeout: numbers.4,
                },
            ),
        },
    }
}

/// Reads the texts that have no default.
fn required(settings: &Vec<Setting>) -> (outcome: Result<(String, String, String), ValidatorError>)
    ensures
        match outcome {
            Ok(texts) => required_of(settings@) == Ok::<
                (Seq<char>, Seq<char>, Seq<char>),
                SettingFault,
            >((texts.0@, texts.1@, texts.2@)),
            Err(error) => required_of(settings@) is Err && error@ == required_of(
                settings@,
            )->Err_0.error(),
        },
{
    let database_url = match required_text(settings, "database.url") {
        Ok(text) => text,
        Err(error) => {
            return Err(error);
        },
    };
    let jwt_secret = match required_text(settings, "auth.jwt_secret") {
        Ok(text) => text,
        Err(error) => {
            return Err(error);
        },
    };
    let redis_url = match required_text(settings, "redis.url") {
        Ok(text) => text,
        Err(error) => {
            return Err(error);
        },
    };
    Ok((database_url, jwt_secret, redis_url))
}

/// Reads the numbers.
fn numbers(settings: &Vec<Setting>) -> (outcome: Result<(u16, u32, i64, i64, u64), ValidatorError>)
    ensures
        match outcome {
            Ok(n) => numbers_of(settings@) == Ok::<(u64, u64, i64, i64, u64), SettingFault>(
                (n.0 as u64, n.1 as u64, n.2, n.3, n.4),
            ),
            Err(error) => numbers_of(settings@) is Err && error@ == numbers_of(
                settings@,
            )->Err_0.error(),
        },
{
    let port = match unsigned_or(settings, "server.port", DEFAULT_PORT as u64, u16::MAX as u64) {
        Ok(value) => value as u16,
        Err(error) => {
            return Err(error);
        },
    };
    let max_connections = match unsigned_or(
        settings,
        "database.max_connections",
        DEFAULT_MAX_CONNECTIONS as u64,
        u32::MAX as u64,
    ) {
        Ok(value) => value as u32,
        Err(error) => {
            return Err(error);
        },
    };
    let jwt_expiry = match signed_or(settings, "auth.jwt_expiry", DEFAULT_JWT_EXPIRY) {
        Ok(value) => value,
        Err(error) => {
            return Err(error);
        },
    };
    let refresh_expiry = match signed_or(settings, "auth.refresh_expiry", DEFAULT_REFRESH_EXPIRY) {
        Ok(value) => value,
        Err(error) => {
            return Err(error);
        },
    };
    let timeout = match unsigned_or(
        settings,
        "validator.timeout",
        DEFAULT_VALIDATOR_TIMEOUT,
        u64::MAX,
    ) {
        Ok(value) => value,
        Err(error) => {
            return Err(error);
        },
    };
    Ok((port, max_connections, jwt_expiry, refresh_expiry, timeout))
}

impl Config {
    /// Builds the configuration from the settings that the environment and
    /// the settings file gave, keyed by section and field with a dot
    /// between, the later of two settings of one key counting. A missing
    /// text and an unreadable number are reported as `ConfigError`.
    pub fn from_env(settings: &Vec<Setting>) -> (config: Result<Config, ValidatorError>)
        ensures
            match config {
                Ok(config) => config_of(settings@) == Ok::<ConfigView, SettingFault>(config@),
                Err(error) => config_of(settings@) is Err && error@ == config_of(
                    settings@,
                )->Err_0.error(),
            },
    {
        let texts = match required(settings) {
            Ok(texts) => texts,
            Err(error) => {
                return Err(error);
            },
        };
        let numbers = match numbers(settings) {
            Ok(numbers) => numbers,
            Err(error) => {
                return Err(error);
            },
        };
        Ok(
            Config {
                server: ServerConfig {
                    port: numbers.0,
                    host: text_or(settings, "server.host", "0.0.0.0"),
                },
                database: DatabaseConfig { url: texts.0, max_connections: numbers.1 },
                auth: AuthConfig {
                    jwt_secret: texts.1,
                    jwt_expiry: numbers.2,
                    refresh_expiry: numbers.3,
                },
                redis: RedisConfig { url: texts.2 },
                validator: ValidatorConfig {
                    url: text_or(settings, "validator.url", "http://localhost:50051"),
                    timeout: numbers.4,
                },
            },
        )
    }
}

} // verus!
