//! The settings that the gateway service is built from.

use vstd::prelude::*;

verus! {

/// Credentials for the payment gateway.
pub struct Config {
    /// The key that authorises calls to the gateway.
    pub stripe_secret_key: String,
    /// The secret that the gateway signs its notifications with.
    pub stripe_webhook_secret: String,
}

} // verus!
