//! The credential pair that identifies an account to the exchange.

use vstd::prelude::*;
use vstd::string::StringExecFns;

verus! {

/// A public key and its base64-encoded private key.
///
/// The pair is fixed once built; a client replaces it as a whole.
#[derive(Debug, Clone)]
pub struct ApiKeys {
    pub public_key: String,
    pub private_key: String,
}

impl ApiKeys {
    /// Builds the pair from the two keys as the exchange issued them.
    pub fn new(public_key: &str, private_key: &str) -> (keys: Self)
        ensures
            keys.public_key@ == public_key@,
            keys.private_key@ == private_key@,
    {
        ApiKeys {
            public_key: String::from_str(public_key),
            private_key: String::from_str(private_key),
        }
    }
}

} // verus!
