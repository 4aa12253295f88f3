//! Tests of the flat-string renderings: error messages, decimal heights,
//! and the server-height query surface.

use zingolib_ffi::bootstrap::set_crypto_default_provider_to_ring;
use zingolib_ffi::config::{get_latest_block_server, try_get_latest_block_server};
use zingolib_ffi::errors::BoundaryError;
use zingolib_ffi::text::u64_to_string;

#[test]
fn decimal_rendering_is_exact() {
    assert_eq!(u64_to_string(0), "0");
    assert_eq!(u64_to_string(7), "7");
    assert_eq!(u64_to_string(10), "10");
    assert_eq!(u64_to_string(12345), "12345");
    assert_eq!(u64_to_string(3000000), "3000000");
    assert_eq!(u64_to_string(u64::MAX), "18446744073709551615");
}

#[test]
fn each_error_variant_renders_its_message() {
    assert_eq!(
        BoundaryError::InvalidChainHint.render(),
        "Error: Not a valid chain hint!"
    );
    assert_eq!(
        BoundaryError::ConfigLoadFailed("missing dir".to_string()).render(),
        "Error: Config load: missing dir"
    );
    assert_eq!(
        BoundaryError::NetworkQueryFailed("timeout".to_string()).render(),
        "Error: timeout"
    );
    assert_eq!(
        BoundaryError::KeyConstructionFailed("bad phrase".to_string()).render(),
        "Error: bad phrase"
    );
    assert_eq!(
        BoundaryError::DecodingFailed("bad symbol".to_string(), "xy".to_string()).render(),
        "Error: Decoding Base64: bad symbol, Size: 2, Content: xy"
    );
    assert_eq!(
        BoundaryError::DeserializationFailed("truncated".to_string()).render(),
        "Error: truncated"
    );
    assert_eq!(
        BoundaryError::SessionNotInitialized.render(),
        "Error: Lightclient is not initialized"
    );
    assert_eq!(
        BoundaryError::EngineOperationFailed("oops".to_string()).render(),
        "Error: oops"
    );
}

#[test]
fn latest_height_renders_height_or_error() {
    assert_eq!(
        get_latest_block_server("https://server:9067".to_string(), Ok(12345)),
        "12345"
    );
    assert_eq!(
        get_latest_block_server("https://server:9067".to_string(), Err("no route".to_string())),
        "Error: no route"
    );
}

#[test]
fn latest_height_checked_rejects_malformed_endpoint() {
    assert_eq!(
        try_get_latest_block_server("https://server:9067".to_string(), Ok(7)),
        Some("7".to_string())
    );
    assert_eq!(
        try_get_latest_block_server("definitely not a uri".to_string(), Ok(7)),
        None
    );
}

#[test]
fn crypto_provider_install_is_idempotent() {
    // First call installs (or finds one installed); the second always finds
    // one installed.  Both count as success.
    assert_eq!(set_crypto_default_provider_to_ring(), "true");
    assert_eq!(set_crypto_default_provider_to_ring(), "true");
}
