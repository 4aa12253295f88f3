//! The session initializer.
//!
//! Four construction paths — fresh wallet, restore from recovery phrase,
//! restore from viewing key, restore from a serialized blob — each resolve
//! the configuration, obtain key material, construct a session, and install
//! it into the slot, replacing and discarding whatever session and
//! synchronization task existed before.  On success each path returns the
//! session's recovery phrase, by dispatching the seed query against the
//! freshly installed session; on failure it returns the flattened error and
//! leaves the slot untouched.
//!
//! The engine's own work — loading the configuration from disk, querying
//! the remote server for the chain height, deriving or deserializing key
//! material — runs outside this library; each verdict enters as a plain
//! `Result` argument, and the contracts state how every verdict is routed.

use vstd::prelude::*;
use vstd::string::StringExecFns;

use crate::codec::b64_decoded;
use crate::codec::decode_wallet_b64;
use crate::config::chain_of_hint;
use crate::config::resolve;
use crate::config::resolved_address;
use crate::dispatch::install_and_report_seed;
use crate::errors::BoundaryError;
use crate::errors::decode_failure_text;
use crate::errors::error_text;
use crate::session::KeyMaterial;
use crate::session::SessionSlot;
use crate::session::WalletSession;

verus! {

/// Reports that platform logging is ready.  Log collection itself is
/// platform plumbing outside this library's scope.
pub fn init_logging() -> (r: String)
    ensures
        r@ == "OK"@,
{
    String::from_str("OK")
}

/// The synchronization start height of a brand-new wallet, given the
/// chain's latest height: 100 blocks below it — a safety margin against
/// short reorganizations — and never below zero.
pub open spec fn fresh_start_spec(latest: u64) -> nat {
    if latest >= 100 {
        (latest - 100) as nat
    } else {
        0
    }
}

/// Computes the synchronization start height for a fresh wallet.  The
/// engine stores heights as 32-bit numbers, so the margin-adjusted height
/// is reduced to that width.
pub fn fresh_sync_start(latest_height: u64) -> (r: u32)
    ensures
        r as nat == fresh_start_spec(latest_height) % 0x1_0000_0000,
        fresh_start_spec(latest_height) <= u32::MAX ==> r as nat == fresh_start_spec(
            latest_height,
        ),
{
    let base: u64 = if latest_height >= 100 {
        latest_height - 100
    } else {
        0
    };
    (base % 0x1_0000_0000u64) as u32
}

/// Whether the session installed by a successful initializer path matches
/// the inputs of that path: configuration resolved from the endpoint, the
/// chain hint and the data directory, and exactly the given key material.
pub open spec fn installed_session(
    sess: WalletSession,
    server_uri: Seq<char>,
    data_dir: Seq<char>,
    chain_hint: Seq<char>,
    keys: KeyMaterial,
) -> bool {
    &&& sess.config.server.uri@ == resolved_address(server_uri)
    &&& Some(sess.config.chain) == chain_of_hint(chain_hint)
    &&& sess.config.data_dir@ == data_dir
    &&& sess.keys == keys
}

/// Initializes a brand-new wallet session and installs it.
///
/// The engine's verdicts enter as arguments: `load_result` from its
/// configuration loader, `latest_height` from the remote server's height
/// query, and `fresh_phrase` from its key generator, which was invoked with
/// the start height `fresh_sync_start` computes from the queried height.
/// Failures are routed in that order, each flattened to its error string
/// with the slot left untouched; on success the new session replaces
/// whatever the slot held, and the returned string is its recovery phrase.
pub fn init_new(
    slot: &mut SessionSlot,
    server_uri: String,
    data_dir: String,
    chain_hint: String,
    load_result: Result<(), String>,
    latest_height: Result<u64, String>,
    fresh_phrase: Result<String, String>,
) -> (r: String)
    ensures
        chain_of_hint(chain_hint@) is None ==> (r@ == error_text(BoundaryError::InvalidChainHint)
            && final(slot)@ == old(slot)@),
        load_result matches Err(d) ==> (chain_of_hint(chain_hint@) is Some ==> r@
            == "Error: Config load: "@ + d@ && final(slot)@ == old(slot)@),
        latest_height matches Err(d) ==> ((chain_of_hint(chain_hint@) is Some && load_result is Ok)
            ==> r@ == "Error: "@ + d@ && final(slot)@ == old(slot)@),
        fresh_phrase matches Err(d) ==> ((chain_of_hint(chain_hint@) is Some && load_result is Ok
            && latest_height is Ok) ==> r@ == "Error: "@ + d@ && final(slot)@ == old(slot)@),
        latest_height matches Ok(h) ==> (fresh_phrase matches Ok(p) ==> ((chain_of_hint(
            chain_hint@,
        ) is Some && load_result is Ok) ==> {
            &&& final(slot)@ matches Some(sess)
            &&& installed_session(
                sess,
                server_uri@,
                data_dir@,
                chain_hint@,
                (KeyMaterial {
                    seed_reply: p,
                    birthday: sess.keys.birthday,
                    spend_capable: true,
                }),
            )
            &&& sess.keys.birthday as nat == fresh_start_spec(h) % 0x1_0000_0000
            &&& r@ == p@
        })),
{
    let (config, _address) = match resolve(server_uri, data_dir, chain_hint, load_result) {
        Ok(resolved) => resolved,
        Err(e) => {
            return e.render();
        },
    };
    let latest = match latest_height {
        Ok(h) => h,
        Err(reason) => {
            return BoundaryError::NetworkQueryFailed(reason).render();
        },
    };
    let phrase = match fresh_phrase {
        Ok(p) => p,
        Err(reason) => {
            return BoundaryError::KeyConstructionFailed(reason).render();
        },
    };
    let birthday = fresh_sync_start(latest);
    let session = WalletSession {
        config,
        keys: KeyMaterial { seed_reply: phrase, birthday, spend_capable: true },
    };
    install_and_report_seed(slot, session)
}

/// Restores a session deterministically from a recovery phrase and a
/// birthday height; no network call is needed to create it.
///
/// `key_check` is the engine's verdict on constructing key material from
/// the phrase.  On success the installed session's key material carries the
/// phrase itself as the seed reply, the birthday reduced to the engine's
/// 32-bit height width, and the ability to spend.
pub fn init_from_seed(
    slot: &mut SessionSlot,
    server_uri: String,
    seed: String,
    birthday: u64,
    data_dir: String,
    chain_hint: String,
    load_result: Result<(), String>,
    key_check: Result<(), String>,
) -> (r: String)
    ensures
        chain_of_hint(chain_hint@) is None ==> (r@ == error_text(BoundaryError::InvalidChainHint)
            && final(slot)@ == old(slot)@),
        load_result matches Err(d) ==> (chain_of_hint(chain_hint@) is Some ==> r@
            == "Error: Config load: "@ + d@ && final(slot)@ == old(slot)@),
        key_check matches Err(d) ==> ((chain_of_hint(chain_hint@) is Some && load_result is Ok)
            ==> r@ == "Error: "@ + d@ && final(slot)@ == old(slot)@),
        (chain_of_hint(chain_hint@) is Some && load_result is Ok && key_check is Ok) ==> {
            &&& final(slot)@ matches Some(sess)
            &&& installed_session(
                sess,
                server_uri@,
                data_dir@,
                chain_hint@,
                (KeyMaterial {
                    seed_reply: seed,
                    birthday: sess.keys.birthday,
                    spend_capable: true,
                }),
            )
            &&& sess.keys.birthday as nat == birthday as nat % 0x1_0000_0000
            &&& r@ == seed@
        },
{
    let (config, _address) = match resolve(server_uri, data_dir, chain_hint, load_result) {
        Ok(resolved) => resolved,
        Err(e) => {
            return e.render();
        },
    };
    if let Err(reason) = key_check {
        return BoundaryError::KeyConstructionFailed(reason).render();
    }
    let birthday32: u32 = (birthday % 0x1_0000_0000u64) as u32;
    let session = WalletSession {
        config,
        keys: KeyMaterial { seed_reply: seed, birthday: birthday32, spend_capable: true },
    };
    install_and_report_seed(slot, session)
}

/// Restores a view-only session from a unified full viewing key and a
/// birthday height.  Such a session can observe but not spend, and it has
/// no recovery phrase of its own: `key_result` carries what the engine
/// reports for the seed query after constructing key material from the
/// viewing key, and that report is the success payload.
pub fn init_from_ufvk(
    slot: &mut SessionSlot,
    server_uri: String,
    ufvk: String,
    birthday: u64,
    data_dir: String,
    chain_hint: String,
    load_result: Result<(), String>,
    key_result: Result<String, String>,
) -> (r: String)
    ensures
        chain_of_hint(chain_hint@) is None ==> (r@ == error_text(BoundaryError::InvalidChainHint)
            && final(slot)@ == old(slot)@),
        load_result matches Err(d) ==> (chain_of_hint(chain_hint@) is Some ==> r@
            == "Error: Config load: "@ + d@ && final(slot)@ == old(slot)@),
        key_result matches Err(d) ==> ((chain_of_hint(chain_hint@) is Some && load_result is Ok)
            ==> r@ == "Error: "@ + d@ && final(slot)@ == old(slot)@),
        key_result matches Ok(reply) ==> ((chain_of_hint(chain_hint@) is Some && load_result is Ok)
            ==> {
            &&& final(slot)@ matches Some(sess)
            &&& installed_session(
                sess,
                server_uri@,
                data_dir@,
                chain_hint@,
                (KeyMaterial {
                    seed_reply: reply,
                    birthday: sess.keys.birthday,
                    spend_capable: false,
                }),
            )
            &&& sess.keys.birthday as nat == birthday as nat % 0x1_0000_0000
            &&& r@ == reply@
        }),
{
    let (config, _address) = match resolve(server_uri, data_dir, chain_hint, load_result) {
        Ok(resolved) => resolved,
        Err(e) => {
            return e.render();
        },
    };
    let _ = ufvk;
    let reply = match key_result {
        Ok(reply) => reply,
        Err(reason) => {
            return BoundaryError::KeyConstructionFailed(reason).render();
        },
    };
    let birthday32: u32 = (birthday % 0x1_0000_0000u64) as u32;
    let session = WalletSession {
        config,
        keys: KeyMaterial { seed_reply: reply, birthday: birthday32, spend_capable: false },
    };
    install_and_report_seed(slot, session)
}

/// Restores a full session from a base64-encoded serialized wallet.
///
/// The payload is decoded here; a malformed payload is reported with the
/// decoder's detail, the payload's length and the payload itself, since the
/// flat string is the caller's only diagnostic channel.  The engine reads
/// the session from the decoded bytes outside this library, and its verdict
/// enters as `wallet_read`: the key material of the deserialized wallet, or
/// the reason reading failed.
pub fn init_from_b64(
    slot: &mut SessionSlot,
    server_uri: String,
    base64_data: String,
    data_dir: String,
    chain_hint: String,
    load_result: Result<(), String>,
    wallet_read: Result<KeyMaterial, String>,
) -> (r: String)
    ensures
        chain_of_hint(chain_hint@) is None ==> (r@ == error_text(BoundaryError::InvalidChainHint)
            && final(slot)@ == old(slot)@),
        load_result matches Err(d) ==> (chain_of_hint(chain_hint@) is Some ==> r@
            == "Error: Config load: "@ + d@ && final(slot)@ == old(slot)@),
        b64_decoded(base64_data@) matches Err(m) ==> ((chain_of_hint(chain_hint@) is Some
            && load_result is Ok) ==> r@ == decode_failure_text(m, base64_data@) && final(slot)@
            == old(slot)@),
        wallet_read matches Err(d) ==> ((chain_of_hint(chain_hint@) is Some && load_result is Ok
            && b64_decoded(base64_data@) is Ok) ==> r@ == "Error: "@ + d@ && final(slot)@ == old(
            slot,
        )@),
        wallet_read matches Ok(keys) ==> ((chain_of_hint(chain_hint@) is Some && load_result is Ok
            && b64_decoded(base64_data@) is Ok) ==> {
            &&& final(slot)@ matches Some(sess)
            &&& installed_session(sess, server_uri@, data_dir@, chain_hint@, keys)
            &&& r@ == keys.seed_reply@
        }),
{
    let (config, _address) = match resolve(server_uri, data_dir, chain_hint, load_result) {
        Ok(resolved) => resolved,
        Err(e) => {
            return e.render();
        },
    };
    if let Err(detail) = decode_wallet_b64(&base64_data) {
        return BoundaryError::DecodingFailed(detail, base64_data).render();
    }
    let keys = match wallet_read {
        Ok(keys) => keys,
        Err(reason) => {
            return BoundaryError::DeserializationFailed(reason).render();
        },
    };
    let session = WalletSession { config, keys };
    install_and_report_seed(slot, session)
}

} // verus!
