//! The settings of the validator service.

use crate::error::ValidatorError;
use crate::settings::{
    required_text, required_text_of, unsigned_or, unsigned_or_of, Setting, SettingFault,
};
use vstd::prelude::*;

verus! {

/// What the validator service is started with.
#[derive(Debug, Clone)]
pub struct ValidatorConfig {
    /// Where the cache store is reached.
    pub redis_url: String,
    /// Where the ledger is reached.
    pub sui_rpc_url: String,
    /// The address of the entitlement contract on the ledger.
    pub contract_address: String,
    /// How long a cached entitlement lives, in seconds.
    pub cache_ttl: u64,
    /// The length of the rate limiter's trailing window, in seconds.
    pub rate_limit_window: u64,
    /// The number of requests admitted per key inside one window.
    pub rate_limit_max: u64,
    /// The port on which the service listens.
    pub grpc_port: u16,
}

/// The mathematical value of a [`ValidatorConfig`].
pub struct ValidatorConfigView {
    pub redis_url: Seq<char>,
    pub sui_rpc_url: Seq<char>,
    pub contract_address: Seq<char>,
    pub cache_ttl: u64,
    pub rate_limit_window: u64,
    pub rate_limit_max: u64,
    pub grpc_port: u16,
}

impl View for ValidatorConfig {
    type V = ValidatorConfigView;

    open spec fn view(&self) -> ValidatorConfigView {
        ValidatorConfigView {
            redis_url: self.redis_url@,
            sui_rpc_url: self.sui_rpc_url@,
            contract_address: self.contract_address@,
            cache_ttl: self.cache_ttl,
            rate_limit_window: self.rate_limit_window,
            rate_limit_max: self.rate_limit_max,
            grpc_port: self.grpc_port,
        }
    }
}

/// The cache lifetime where none is set, in seconds.
pub const DEFAULT_CACHE_TTL: u64 = 300;

/// The rate limiter's window where none is set, in seconds.
pub const DEFAULT_RATE_LIMIT_WINDOW: u64 = 60;

/// The rate limiter's limit where none is set.
pub const DEFAULT_RATE_LIMIT_MAX: u64 = 1000;

/// The port where none is set.
pub const DEFAULT_GRPC_PORT: u16 = 50051;

/// The configuration that a list of settings stands for. The three
/// addresses have no default; each number has one, and must fit its field
/// where it is given. The fault reported is that of the first field, in the
/// order of the fields, that has one.
pub open spec fn validator_config_of(settings: Seq<Setting>) -> Result<
    ValidatorConfigView,
    SettingFault,
> {
    match required_text_of(settings, "redis_url"@) {
        Err(fault) => Err(fault),
        Ok(redis_url) => match required_text_of(settings, "sui_rpc_url"@) {
            Err(fault) => Err(fault),
            Ok(sui_rpc_url) => match required_text_of(settings, "contract_address"@) {
                Err(fault) => Err(fault),
                Ok(contract_address) => match unsigned_or_of(
                    settings,
                    "cache_ttl"@,
                    DEFAULT_CACHE_TTL,
                    u64::MAX,
                ) {
                    Err(fault) => Err(fault),
                    Ok(cache_ttl) => match unsigned_or_of(
                        settings,
                        "rate_limit_window"@,
                        DEFAULT_RATE_LIMIT_WINDOW,
                        u64::MAX,
                    ) {
                        Err(fault) => Err(fault),
                        Ok(rate_limit_window) => match unsigned_or_of(
                            settings,
                            "rate_limit_max"@,
                            DEFAULT_RATE_LIMIT_MAX,
                            u64::MAX,
                        ) {
                            Err(fault) => Err(fault),
                            Ok(rate_limit_max) => match unsigned_or_of(
                                settings,
                                "grpc_port"@,
                                DEFAULT_GRPC_PORT as u64,
                                u16::MAX as u64,
                            ) {
                                Err(fault) => Err(fault),
                                Ok(grpc_port) => Ok(
                                    ValidatorConfigView {
                                        redis_url,
                                        sui_rpc_url,
                                        contract_address,
                                        cache_ttl,
                                        rate_limit_window,
                                        rate_limit_max,
                                        grpc_port: grpc_port as u16,
                                    },
                                ),
                            },
                        },
                    },
                },
            },
        },
    }
}

impl ValidatorConfig {
    /// Builds the configuration from the settings that the environment and
    /// the settings file gave, the later of two settings of one key
    /// counting. A missing address and an unreadable number are reported as
    /// `ConfigError`.
    pub fn from_env(settings: &Vec<Setting>) -> (config: Result<ValidatorConfig, ValidatorError>)
        ensures
            match config {
                Ok(config) => validator_config_of(settings@) == Ok::<
                    ValidatorConfigView,
                    SettingFault,
                >(config@),
                Err(error) => validator_config_of(settings@) is Err && error@
                    == validator_config_of(settings@)->Err_0.error(),
            },
    {
        let redis_url = match required_text(settings, "redis_url") {
            Ok(text) => text,
            Err(error) => {
                return Err(error);
            },
        };
        let sui_rpc_url = match required_text(settings, "sui_rpc_url") {
            Ok(text) => text,
            Err(error) => {
                return Err(error);
            },
        };
        let contract_address = match required_text(settings, "contract_address") {
            Ok(text) => text,
            Err(error) => {
                return Err(error);
            },
        };
        let cache_ttl = match unsigned_or(settings, "cache_ttl", DEFAULT_CACHE_TTL, u64::MAX) {
            Ok(value) => value,
            Err(error) => {
                return Err(error);
            },
        };
        let rate_limit_window = match unsigned_or(
            settings,
            "rate_limit_window",
            DEFAULT_RATE_LIMIT_WINDOW,
            u64::MAX,
        ) {
            Ok(value) => value,
            Err(error) => {
                return Err(error);
            },
        };
        let rate_limit_max = match unsigned_or(
            settings,
            "rate_limit_max",
            DEFAULT_RATE_LIMIT_MAX,
            u64::MAX,
        ) {
            Ok(value) => value,
            Err(error) => {
                return Err(error);
            },
        };
        let grpc_port = match unsigned_or(
            settings,
            "grpc_port",
            DEFAULT_GRPC_PORT as u64,
            u16::MAX as u64,
        ) {
            Ok(value) => value as u16,
            Err(error) => {
                return Err(error);
            },
        };
        Ok(
            ValidatorConfig {
                redis_url,
                sui_rpc_url,
                contract_address,
                cache_ttl,
                rate_limit_window,
                rate_limit_max,
                grpc_port,
            },
        )
    }
}

} // verus!
