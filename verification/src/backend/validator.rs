//! What the answers of the validator service mean to the backend.

use vstd::prelude::*;
use vstd::string::StringExecFns;

verus! {

/// The outcome of a consumption as the validator answered it: what is left
/// of the quota where it succeeded, the validator's reason otherwise.
pub fn consume_entitlement(success: bool, error: &str, remaining_quota: u64) -> (outcome: Result<
    u64,
    String,
>)
    ensures
        match outcome {
            Ok(remaining) => success && remaining == remaining_quota,
            Err(words) => !success && words@ == "Failed to consume entitlement: "@ + error@,
        },
{
    if !success {
        return Err("Failed to consume entitlement: ".to_owned().concat(error));
    }
    Ok(remaining_quota)
}

} // verus!
