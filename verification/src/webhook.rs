//! Webhook callback signature validation.

use vstd::prelude::*;

verus! {

/// Accepts a webhook callback's signature.
///
/// Signature enforcement is not wired up yet: every signature is accepted,
/// whatever the secret key, payload, and header hold, as the contract
/// states.  Callers must not lean on this as an authenticity check until it
/// compares the header against an HMAC of the payload.
#[allow(unused_variables)]
pub fn validate_signature(webhook_secret_key: &str, data: &str, header_signature: &str) -> (r:
    bool)
    ensures
        r,
{
    true
}

} // verus!
