//! The failure taxonomy of the boundary layer.
//!
//! Every failure is caught where it occurs and flattened to a string prefixed
//! `Error:` at the outermost entry point; nothing is allowed to abort the
//! calling context.  `error_text` is the single definition of those strings,
//! and `render` produces exactly that text.

use vstd::prelude::*;
use vstd::string::StrSliceExecFns;
use vstd::string::StringExecFns;

use crate::text::dec_of;
use crate::text::u64_to_string;

verus! {

/// Everything that can go wrong inside the boundary layer.
///
/// Engine-owned failures carry the engine's reason verbatim; decoding
/// failures additionally carry the offending payload so the caller can
/// diagnose it, since the flat string is its only channel.
#[derive(Debug)]
pub enum BoundaryError {
    /// The chain hint names none of the known chains.
    InvalidChainHint,
    /// The engine's configuration loader failed with the given reason.
    ConfigLoadFailed(String),
    /// The remote block-data server could not be queried.
    NetworkQueryFailed(String),
    /// The engine could not construct key material.
    KeyConstructionFailed(String),
    /// The text payload is not valid padded base64: decoder detail, then the
    /// payload itself.
    DecodingFailed(String, String),
    /// The engine could not deserialize a wallet from the decoded bytes.
    DeserializationFailed(String),
    /// An entry point that needs an active session found the slot empty.
    SessionNotInitialized,
    /// The engine reported a failure while running an operation.
    EngineOperationFailed(String),
}

/// The flat message reported when the session slot is empty.
pub open spec fn not_initialized_text() -> Seq<char> {
    "Error: Lightclient is not initialized"@
}

/// The flat message for a payload that failed to decode: decoder detail,
/// payload length in characters, and the payload itself.
pub open spec fn decode_failure_text(detail: Seq<char>, payload: Seq<char>) -> Seq<char> {
    "Error: Decoding Base64: "@ + detail + ", Size: "@ + dec_of(payload.len()) + ", Content: "@
        + payload
}

/// The exact flat string each failure crosses the boundary as.
pub open spec fn error_text(e: BoundaryError) -> Seq<char> {
    match e {
        BoundaryError::InvalidChainHint => "Error: Not a valid chain hint!"@,
        BoundaryError::ConfigLoadFailed(d) => "Error: Config load: "@ + d@,
        BoundaryError::NetworkQueryFailed(d) => "Error: "@ + d@,
        BoundaryError::KeyConstructionFailed(d) => "Error: "@ + d@,
        BoundaryError::DecodingFailed(d, payload) => decode_failure_text(d@, payload@),
        BoundaryError::DeserializationFailed(d) => "Error: "@ + d@,
        BoundaryError::SessionNotInitialized => not_initialized_text(),
        BoundaryError::EngineOperationFailed(d) => "Error: "@ + d@,
    }
}

impl BoundaryError {
    /// Flattens the failure to the string that crosses the boundary.
    pub fn render(self) -> (r: String)
        ensures
            r@ == error_text(self),
    {
        match self {
            BoundaryError::InvalidChainHint => String::from_str("Error: Not a valid chain hint!"),
            BoundaryError::ConfigLoadFailed(d) => {
                let mut r = String::from_str("Error: Config load: ");
                r.append(d.as_str());
                r
            },
            BoundaryError::NetworkQueryFailed(d) => {
                let mut r = String::from_str("Error: ");
                r.append(d.as_str());
                r
            },
            BoundaryError::KeyConstructionFailed(d) => {
                let mut r = String::from_str("Error: ");
                r.append(d.as_str());
                r
            },
            BoundaryError::DecodingFailed(d, payload) => {
                let size = u64_to_string(payload.as_str().unicode_len() as u64);
                let mut r = String::from_str("Error: Decoding Base64: ");
                r.append(d.as_str());
                r.append(", Size: ");
                r.append(size.as_str());
                r.append(", Content: ");
                r.append(payload.as_str());
                r
            },
            BoundaryError::DeserializationFailed(d) => {
                let mut r = String::from_str("Error: ");
                r.append(d.as_str());
                r
            },
            BoundaryError::SessionNotInitialized => {
                String::from_str("Error: Lightclient is not initialized")
            },
            BoundaryError::EngineOperationFailed(d) => {
                let mut r = String::from_str("Error: ");
                r.append(d.as_str());
                r
            },
        }
    }
}

} // verus!
