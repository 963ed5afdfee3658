//! What the backend answers to entitlement requests, from what the
//! validator said.

use vstd::prelude::*;
use vstd::string::StringExecFns;

verus! {

/// A request to validate an entitlement.
#[derive(Debug, Clone)]
pub struct ValidateEntitlementRequest {
    pub entitlement_id: String,
    pub signature: String,
    pub message: String,
}

/// The answer to a [`ValidateEntitlementRequest`].
#[derive(Debug, Clone)]
pub struct ValidateEntitlementResponse {
    pub valid: bool,
    pub error: Option<String>,
}

/// A request to consume quota of an entitlement.
#[derive(Debug, Clone)]
pub struct ConsumeEntitlementRequest {
    pub entitlement_id: String,
    pub amount: u64,
    pub signature: String,
    pub message: String,
}

/// The answer to a [`ConsumeEntitlementRequest`].
#[derive(Debug, Clone)]
pub struct ConsumeEntitlementResponse {
    pub success: bool,
    pub remaining_quota: Option<u64>,
    pub error: Option<String>,
}

/// A request to check a signature against an entitlement's buyer.
#[derive(Debug, Clone)]
pub struct ValidateSignatureRequest {
    pub entitlement_id: String,
    pub signature: String,
    pub message: String,
}

/// The answer to a [`ValidateSignatureRequest`].
#[derive(Debug, Clone)]
pub struct ValidateSignatureResponse {
    pub valid: bool,
    pub error: Option<String>,
}

/// The words of a fault behind the words that say what failed, or nothing
/// where nothing failed.
pub open spec fn reported<T>(what: Seq<char>, outcome: Result<T, String>) -> Option<Seq<char>> {
    match outcome {
        Ok(_) => None,
        Err(words) => Some(what + words@),
    }
}

/// The text of an optional string.
pub open spec fn text_of(text: Option<String>) -> Option<Seq<char>> {
    match text {
        Some(text) => Some(text@),
        None => None,
    }
}

/// The answer to a validation: the validator's verdict, or `false` with the
/// words of the fault where the validator could not be asked.
pub fn validate_entitlement(outcome: Result<bool, String>) -> (answer: ValidateEntitlementResponse)
    ensures
        answer.valid == (outcome == Ok::<bool, String>(true)),
        text_of(answer.error) == reported("Validation failed: "@, outcome),
{
    match outcome {
        Ok(valid) => ValidateEntitlementResponse { valid, error: None },
        Err(words) => ValidateEntitlementResponse {
            valid: false,
            error: Some("Validation failed: ".to_owned().concat(words.as_str())),
        },
    }
}

/// The answer to a consumption: what is left of the quota, or the words of
/// the fault.
pub fn consume_entitlement(outcome: Result<u64, String>) -> (answer: ConsumeEntitlementResponse)
    ensures
        answer.success == outcome is Ok,
        answer.remaining_quota == match outcome {
            Ok(remaining) => Some(remaining),
            Err(_) => None::<u64>,
        },
        text_of(answer.error) == reported("Consumption failed: "@, outcome),
{
    match outcome {
        Ok(remaining) => ConsumeEntitlementResponse {
            success: true,
            remaining_quota: Some(remaining),
            error: None,
        },
        Err(words) => ConsumeEntitlementResponse {
            success: false,
            remaining_quota: None,
            error: Some("Consumption failed: ".to_owned().concat(words.as_str())),
        },
    }
}

/// The answer to a signature check: the validator's verdict, or `false`
/// with the words of the fault.
pub fn validate_signature(outcome: Result<bool, String>) -> (answer: ValidateSignatureResponse)
    ensures
        answer.valid == (outcome == Ok::<bool, String>(true)),
        text_of(answer.error) == reported("Signature validation failed: "@, outcome),
{
    match outcome {
        Ok(valid) => ValidateSignatureResponse { valid, error: None },
        Err(words) => ValidateSignatureResponse {
            valid: false,
            error: Some("Signature validation failed: ".to_owned().concat(words.as_str())),
        },
    }
}

} // verus!
