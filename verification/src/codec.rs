//! The persistence round-trip.
//!
//! The engine's save routine produces the wallet's byte-exact serialized
//! state; this module carries those bytes across the boundary as padded
//! base64 text and back.  Padding is always present because host-side
//! decoders require it.

use vstd::prelude::*;
use vstd::string::StringExecFns;

use base64::Engine;

use crate::errors::BoundaryError;
use crate::errors::not_initialized_text;
use crate::session::SessionSlot;

verus! {

/// The padded standard-alphabet base64 text of a byte sequence.  Defined by
/// the `base64` crate's `STANDARD` engine, through `encode_b64`.
pub uninterp spec fn b64_of(bytes: Seq<u8>) -> Seq<char>;

/// What the `base64` crate's `STANDARD` engine makes of a text: the decoded
/// bytes, or the decoder's complaint.  Defined through `decode_b64`.
pub uninterp spec fn b64_decoded(text: Seq<char>) -> Result<Seq<u8>, Seq<char>>;

/// Whether decoding `text` yields exactly `bytes`.
pub open spec fn decodes_to(text: Seq<char>, bytes: Seq<u8>) -> bool {
    b64_decoded(text) matches Ok(b) && b == bytes
}

/// Relies on `base64::engine::general_purpose::STANDARD.encode`: the padded
/// standard-alphabet base64 encoding of the input, a pure function of the
/// bytes alone.  Padded output always has a length divisible by four, and
/// the `STANDARD` decoder recovers the encoded bytes from it exactly.
#[verifier::external_body]
fn encode_b64(bytes: &Vec<u8>) -> (r: String)
    ensures
        r@ == b64_of(bytes@),
        r@.len() % 4 == 0,
        r@ == b64_of(bytes@) ==> decodes_to(r@, bytes@),
{
    base64::engine::general_purpose::STANDARD.encode(bytes)
}

/// Relies on `base64::engine::general_purpose::STANDARD.decode`: a pure
/// function of the text that inverts the `STANDARD` encoding, so decoding
/// any encoder output recovers the encoded bytes exactly.  The decoder's
/// error is carried as its display text.
#[verifier::external_body]
fn decode_b64(text: &String) -> (r: Result<Vec<u8>, String>)
    ensures
        r is Ok <==> b64_decoded(text@) is Ok,
        r matches Ok(v) ==> (b64_decoded(text@) matches Ok(b) && v@ == b),
        r matches Err(d) ==> (b64_decoded(text@) matches Err(m) && d@ == m),
{
    match base64::engine::general_purpose::STANDARD.decode(text.as_str()) {
        Ok(bytes) => Ok(bytes),
        Err(e) => Err(format!("{e}")),
    }
}

/// Decodes a base64 wallet payload to the serialized wallet bytes, or
/// reports why it is malformed.
pub fn decode_wallet_b64(payload: &String) -> (r: Result<Vec<u8>, String>)
    ensures
        r is Ok <==> b64_decoded(payload@) is Ok,
        r matches Ok(v) ==> (b64_decoded(payload@) matches Ok(b) && v@ == b),
        r matches Err(d) ==> (b64_decoded(payload@) matches Err(m) && d@ == m),
{
    decode_b64(payload)
}

/// Serializes the active session's wallet state to padded base64 text.
///
/// The slot is checked first: with no session installed the result is the
/// fixed error string and nothing else happens.  Otherwise the engine's
/// save routine has run against the session — under the caller's exclusive
/// borrow, the same access every command holds — and its outcome enters as
/// `save_result`: fresh bytes are encoded, a save with nothing to write is
/// reported as a distinct non-fatal string, and an engine failure is
/// flattened like every other error.
pub fn save_to_b64(slot: &mut SessionSlot, save_result: Result<Option<Vec<u8>>, String>) -> (r:
    String)
    ensures
        final(slot)@ == old(slot)@,
        old(slot)@ is None ==> r@ == not_initialized_text(),
        old(slot)@ is Some ==> {
            &&& (save_result matches Ok(Some(b)) ==> r@ == b64_of(b@) && r@.len() % 4 == 0)
            &&& (save_result matches Ok(None) ==> r@ == "Error: No need to save the wallet file"@)
            &&& (save_result matches Err(d) ==> r@ == "Error: "@ + d@)
        },
{
    if !slot.is_initialized() {
        return BoundaryError::SessionNotInitialized.render();
    }
    match save_result {
        Ok(Some(bytes)) => encode_b64(&bytes),
        Ok(None) => String::from_str("Error: No need to save the wallet file"),
        Err(reason) => BoundaryError::EngineOperationFailed(reason).render(),
    }
}

/// The persistence round trip: decoding an encoded wallet payload recovers
/// the serialized bytes exactly, whatever they were.
pub fn decode_saved_payload(bytes: &Vec<u8>) -> (r: Vec<u8>)
    ensures
        r@ == bytes@,
{
    let payload = encode_b64(bytes);
    match decode_b64(&payload) {
        Ok(recovered) => recovered,
        Err(_) => vstd::pervasive::unreached(),
    }
}

} // verus!
