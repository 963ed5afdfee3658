//! The error taxonomy of the validator and of the ledger client.

use vstd::prelude::*;
use vstd::string::StringExecFns;

verus! {

/// Faults of the ledger client.
#[derive(Debug, Clone)]
pub enum BlockchainError {
    /// The ledger endpoint or an address given to the client is unusable.
    ProviderError(String),
    /// The ledger rejected a call, or a value handed to it could not be read.
    ContractCallError(String),
    /// The ledger answered with a payload that is no entitlement.
    InvalidResponseFormat,
    /// The identifier does not resolve to an entitlement.
    EntitlementNotFound,
}

/// The mathematical value of a [`BlockchainError`].
pub enum BlockchainErrorView {
    ProviderError(Seq<char>),
    ContractCallError(Seq<char>),
    InvalidResponseFormat,
    EntitlementNotFound,
}

impl View for BlockchainError {
    type V = BlockchainErrorView;

    open spec fn view(&self) -> BlockchainErrorView {
        match *self {
            BlockchainError::ProviderError(s) => BlockchainErrorView::ProviderError(s@),
            BlockchainError::ContractCallError(s) => BlockchainErrorView::ContractCallError(s@),
            BlockchainError::InvalidResponseFormat => BlockchainErrorView::InvalidResponseFormat,
            BlockchainError::EntitlementNotFound => BlockchainErrorView::EntitlementNotFound,
        }
    }
}

impl BlockchainErrorView {
    /// The text shown for the error.
    pub open spec fn message(self) -> Seq<char> {
        match self {
            BlockchainErrorView::ProviderError(s) => "Provider error: "@ + s,
            BlockchainErrorView::ContractCallError(s) => "Contract call failed: "@ + s,
            BlockchainErrorView::InvalidResponseFormat => "Invalid response format"@,
            BlockchainErrorView::EntitlementNotFound => "Entitlement not found"@,
        }
    }
}

impl BlockchainError {
    /// The text shown for the error.
    pub fn message(&self) -> (text: String)
        ensures
            text@ == self@.message(),
    {
        match self {
            BlockchainError::ProviderError(s) => String::from_str("Provider error: ").concat(
                s.as_str(),
            ),
            BlockchainError::ContractCallError(s) => String::from_str(
                "Contract call failed: ",
            ).concat(s.as_str()),
            BlockchainError::InvalidResponseFormat => String::from_str("Invalid response format"),
            BlockchainError::EntitlementNotFound => String::from_str("Entitlement not found"),
        }
    }
}

/// Faults that the validator reports to its callers.
#[derive(Debug, Clone)]
pub enum ValidatorError {
    /// The entitlement does not exist, is inactive or has expired.
    InvalidEntitlement,
    /// The requested amount does not fit in what is left of the quota.
    QuotaExceeded,
    /// The rate limiter turned the request away.
    RateLimitExceeded,
    /// The ledger client failed.
    BlockchainError(String),
    /// The cache could not be read or written.
    CacheError(String),
    /// A setting is missing or cannot be read.
    ConfigError(String),
    /// The key-value store refused a command.
    RedisError(String),
    /// A signature was checked and found wanting.
    SignatureValidationFailed,
    /// The transport between services failed.
    NetworkError(String),
}

/// The mathematical value of a [`ValidatorError`].
pub enum ValidatorErrorView {
    InvalidEntitlement,
    QuotaExceeded,
    RateLimitExceeded,
    BlockchainError(Seq<char>),
    CacheError(Seq<char>),
    ConfigError(Seq<char>),
    RedisError(Seq<char>),
    SignatureValidationFailed,
    NetworkError(Seq<char>),
}

impl View for ValidatorError {
    type V = ValidatorErrorView;

    open spec fn view(&self) -> ValidatorErrorView {
        match *self {
            ValidatorError::InvalidEntitlement => ValidatorErrorView::InvalidEntitlement,
            ValidatorError::QuotaExceeded => ValidatorErrorView::QuotaExceeded,
            ValidatorError::RateLimitExceeded => ValidatorErrorView::RateLimitExceeded,
            ValidatorError::BlockchainError(s) => ValidatorErrorView::BlockchainError(s@),
            ValidatorError::CacheError(s) => ValidatorErrorView::CacheError(s@),
            ValidatorError::ConfigError(s) => ValidatorErrorView::ConfigError(s@),
            ValidatorError::RedisError(s) => ValidatorErrorView::RedisError(s@),
            ValidatorError::SignatureValidationFailed => ValidatorErrorView::SignatureValidationFailed,
            ValidatorError::NetworkError(s) => ValidatorErrorView::NetworkError(s@),
        }
    }
}

impl ValidatorErrorView {
    /// The text shown for the error.
    pub open spec fn message(self) -> Seq<char> {
        match self {
            ValidatorErrorView::InvalidEntitlement => "Invalid entitlement"@,
            ValidatorErrorView::QuotaExceeded => "Quota exceeded"@,
            ValidatorErrorView::RateLimitExceeded => "Rate limit exceeded"@,
            ValidatorErrorView::BlockchainError(s) => "Blockchain error: "@ + s,
            ValidatorErrorView::CacheError(s) => "Cache error: "@ + s,
            ValidatorErrorView::ConfigError(s) => "Configuration error: "@ + s,
            ValidatorErrorView::RedisError(s) => "Redis error: "@ + s,
            ValidatorErrorView::SignatureValidationFailed => "Signature validation failed"@,
            ValidatorErrorView::NetworkError(s) => "Network error: "@ + s,
        }
    }
}

impl ValidatorError {
    /// The text shown for the error.
    pub fn message(&self) -> (text: String)
        ensures
            text@ == self@.message(),
    {
        match self {
            ValidatorError::InvalidEntitlement => String::from_str("Invalid entitlement"),
            ValidatorError::QuotaExceeded => String::from_str("Quota exceeded"),
            ValidatorError::RateLimitExceeded => String::from_str("Rate limit exceeded"),
            ValidatorError::BlockchainError(s) => String::from_str("Blockchain error: ").concat(
                s.as_str(),
            ),
            ValidatorError::CacheError(s) => String::from_str("Cache error: ").concat(s.as_str()),
            ValidatorError::ConfigError(s) => String::from_str("Configuration error: ").concat(
                s.as_str(),
            ),
            ValidatorError::RedisError(s) => String::from_str("Redis error: ").concat(s.as_str()),
            ValidatorError::SignatureValidationFailed => String::from_str(
                "Signature validation failed",
            ),
            ValidatorError::NetworkError(s) => String::from_str("Network error: ").concat(
                s.as_str(),
            ),
        }
    }

    /// A ledger fault as the validator reports it: the ledger's own text,
    /// kept whole.
    pub fn from_ledger(fault: &BlockchainError) -> (error: ValidatorError)
        ensures
            error@ == ValidatorErrorView::BlockchainError(fault@.message()),
    {
        ValidatorError::BlockchainError(fault.message())
    }
}

} // verus!
