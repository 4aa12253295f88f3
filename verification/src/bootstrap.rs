//! Process-wide crypto-provider bootstrap.
//!
//! The engine's TLS stack needs a process default cryptographic provider.
//! Installing one is idempotent at this layer: a provider that is already
//! installed counts as success, not as an error.

use vstd::prelude::*;
use vstd::string::StringExecFns;

verus! {

/// Relies on `rustls::crypto::CryptoProvider::get_default`: whether a
/// process default provider is already installed.  This is process-global
/// state, so nothing more is promised of the answer.
#[verifier::external_body]
fn provider_installed() -> (r: bool) {
    rustls::crypto::CryptoProvider::get_default().is_some()
}

/// Relies on `rustls::crypto::ring::default_provider().install_default()`:
/// tries to install the ring provider as the process default and reports
/// whether that succeeded.  This mutates process-global state, so nothing
/// more is promised of the answer.
#[verifier::external_body]
fn install_ring_provider() -> (r: bool) {
    rustls::crypto::ring::default_provider().install_default().is_ok()
}

/// Makes sure the process has a default cryptographic provider, installing
/// the ring provider if none is set.  Success — including the
/// already-installed case — reports `true`; only a failed installation is
/// an error.
pub fn set_crypto_default_provider_to_ring() -> (r: String)
    ensures
        r@ == "true"@ || r@ == "Error: Failed to install crypto provider"@,
{
    if provider_installed() {
        String::from_str("true")
    } else if install_ring_provider() {
        String::from_str("true")
    } else {
        String::from_str("Error: Failed to install crypto provider")
    }
}

} // verus!
