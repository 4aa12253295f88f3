//! End-to-end tests of the boundary layer: the session lifecycle, the
//! dispatcher, the poller, and the persistence round trip, exercised with
//! the real outside crates linked.

use base64::Engine;

use zingolib_ffi::config::{resolve, ChainType};
use zingolib_ffi::dispatch::{execute_command, split_args, Dispatch};
use zingolib_ffi::errors::BoundaryError;
use zingolib_ffi::init::{
    fresh_sync_start, init_from_b64, init_from_seed, init_from_ufvk, init_logging, init_new,
};
use zingolib_ffi::codec::{decode_saved_payload, decode_wallet_b64, save_to_b64};
use zingolib_ffi::poll::{poll_sync, PollReport, SyncOutcome};
use zingolib_ffi::session::{KeyMaterial, SessionSlot};

const NOT_INITIALIZED: &str = "Error: Lightclient is not initialized";

#[test]
fn init_logging_reports_ok() {
    assert_eq!(init_logging(), "OK");
}

#[test]
fn resolve_rejects_bogus_hint() {
    let r = resolve(
        "https://server".to_string(),
        "/tmp/data".to_string(),
        "bogus".to_string(),
        Ok(()),
    );
    assert!(matches!(r, Err(BoundaryError::InvalidChainHint)));
    // The hint is checked before the loader's verdict is even looked at.
    let r = resolve(
        String::new(),
        String::new(),
        "bogus".to_string(),
        Err("disk on fire".to_string()),
    );
    assert!(matches!(r, Err(BoundaryError::InvalidChainHint)));
}

#[test]
fn resolve_accepts_each_known_hint() {
    for (hint, chain) in [
        ("main", ChainType::Mainnet),
        ("test", ChainType::Testnet),
        ("regtest", ChainType::Regtest),
    ] {
        let (config, address) = resolve(
            "https://server:9067".to_string(),
            "/tmp/data".to_string(),
            hint.to_string(),
            Ok(()),
        )
        .unwrap();
        assert_eq!(config.chain, chain);
        assert_eq!(config.server.uri, "https://server:9067");
        assert_eq!(config.data_dir, "/tmp/data");
        assert_eq!(address.uri, "https://server:9067");
    }
}

#[test]
fn resolve_empty_server_means_offline_placeholder() {
    let (config, address) = resolve(
        String::new(),
        "/tmp/data".to_string(),
        "main".to_string(),
        Ok(()),
    )
    .unwrap();
    assert_eq!(config.server.uri, "/");
    assert_eq!(address.uri, "/");
    // The placeholder is itself a structurally valid endpoint.
    assert!(address.uri.parse::<http::Uri>().is_ok());
}

#[test]
fn resolve_surfaces_load_failure() {
    let r = resolve(
        "https://server".to_string(),
        "/tmp/data".to_string(),
        "main".to_string(),
        Err("bad config file".to_string()),
    );
    match r {
        Err(BoundaryError::ConfigLoadFailed(reason)) => assert_eq!(reason, "bad config file"),
        other => panic!("expected ConfigLoadFailed, got {other:?}"),
    }
}

#[test]
fn empty_slot_short_circuits_every_entry_point() {
    let mut slot = SessionSlot::new();
    match execute_command(&mut slot, "balance".to_string(), String::new()) {
        Dispatch::Handled(s) => assert_eq!(s, NOT_INITIALIZED),
        Dispatch::ToEngine(_, _) => panic!("nothing may reach the engine without a session"),
    }
    assert_eq!(save_to_b64(&mut slot, Ok(Some(vec![1, 2, 3]))), NOT_INITIALIZED);
    assert_eq!(poll_sync(&mut slot, PollReport::NoHandle), NOT_INITIALIZED);
    assert_eq!(
        zingolib_ffi::dispatch::get_transaction_summaries(&mut slot, "{}".to_string()),
        NOT_INITIALIZED
    );
    assert_eq!(
        zingolib_ffi::dispatch::get_value_transfers(&mut slot, "{}".to_string()),
        NOT_INITIALIZED
    );
    assert!(!slot.is_initialized());
}

#[test]
fn init_new_uses_hundred_block_margin() {
    let mut slot = SessionSlot::new();
    let r = init_new(
        &mut slot,
        "https://server".to_string(),
        "/tmp/data".to_string(),
        "test".to_string(),
        Ok(()),
        Ok(1000),
        Ok("ripe banana crumble".to_string()),
    );
    assert_eq!(r, "ripe banana crumble");
    match execute_command(&mut slot, "seed".to_string(), String::new()) {
        Dispatch::Handled(s) => assert_eq!(s, r),
        Dispatch::ToEngine(_, _) => panic!("the seed query is answered by the layer itself"),
    }
    let session = slot.current().as_ref().unwrap();
    assert_eq!(session.keys.birthday, 900);
    assert!(session.keys.spend_capable);
    assert_eq!(session.config.server.uri, "https://server");
}

#[test]
fn init_new_propagates_each_failure_in_order() {
    let mut slot = SessionSlot::new();
    let r = init_new(
        &mut slot,
        String::new(),
        String::new(),
        "main".to_string(),
        Err("no config".to_string()),
        Ok(1000),
        Ok("p".to_string()),
    );
    assert_eq!(r, "Error: Config load: no config");
    let r = init_new(
        &mut slot,
        String::new(),
        String::new(),
        "main".to_string(),
        Ok(()),
        Err("server unreachable".to_string()),
        Ok("p".to_string()),
    );
    assert_eq!(r, "Error: server unreachable");
    let r = init_new(
        &mut slot,
        String::new(),
        String::new(),
        "main".to_string(),
        Ok(()),
        Ok(1000),
        Err("entropy failure".to_string()),
    );
    assert_eq!(r, "Error: entropy failure");
    assert!(!slot.is_initialized());
}

#[test]
fn fresh_sync_start_edges() {
    assert_eq!(fresh_sync_start(0), 0);
    assert_eq!(fresh_sync_start(99), 0);
    assert_eq!(fresh_sync_start(100), 0);
    assert_eq!(fresh_sync_start(101), 1);
    assert_eq!(fresh_sync_start(1000), 900);
    // The engine stores heights in 32 bits; larger values are reduced.
    assert_eq!(fresh_sync_start(0x1_0000_0000u64 + 104), 4);
}

#[test]
fn seed_query_returns_what_initializer_returned() {
    let mut slot = SessionSlot::new();
    let phrase = "abandon ability able about above absent absorb abstract";
    let r = init_from_seed(
        &mut slot,
        "https://server".to_string(),
        phrase.to_string(),
        419200,
        "/tmp/data".to_string(),
        "main".to_string(),
        Ok(()),
        Ok(()),
    );
    assert_eq!(r, phrase);
    assert!(slot.is_initialized());
    match execute_command(&mut slot, "seed".to_string(), String::new()) {
        Dispatch::Handled(s) => assert_eq!(s, r),
        Dispatch::ToEngine(_, _) => panic!("the seed query is answered by the layer itself"),
    }
    let session = slot.current().as_ref().unwrap();
    assert_eq!(session.keys.birthday, 419200);
    assert!(session.keys.spend_capable);
}

#[test]
fn init_from_ufvk_builds_view_only_session() {
    let mut slot = SessionSlot::new();
    let r = init_from_ufvk(
        &mut slot,
        "https://server".to_string(),
        "uview1qqqqqq".to_string(),
        419200,
        "/tmp/data".to_string(),
        "main".to_string(),
        Ok(()),
        Ok("Error: This wallet is watch-only.".to_string()),
    );
    assert_eq!(r, "Error: This wallet is watch-only.");
    match execute_command(&mut slot, "seed".to_string(), String::new()) {
        Dispatch::Handled(s) => assert_eq!(s, r),
        Dispatch::ToEngine(_, _) => panic!("the seed query is answered by the layer itself"),
    }
    let session = slot.current().as_ref().unwrap();
    assert!(!session.keys.spend_capable);
    // The key failure path flattens the engine's reason.
    let r = init_from_ufvk(
        &mut slot,
        "https://server".to_string(),
        "garbage".to_string(),
        419200,
        "/tmp/data".to_string(),
        "main".to_string(),
        Ok(()),
        Err("invalid viewing key".to_string()),
    );
    assert_eq!(r, "Error: invalid viewing key");
}

#[test]
fn new_session_replaces_old_one() {
    let mut slot = SessionSlot::new();
    init_from_seed(
        &mut slot,
        String::new(),
        "first phrase".to_string(),
        1,
        String::new(),
        "main".to_string(),
        Ok(()),
        Ok(()),
    );
    let r = init_from_seed(
        &mut slot,
        String::new(),
        "second phrase".to_string(),
        2,
        String::new(),
        "test".to_string(),
        Ok(()),
        Ok(()),
    );
    assert_eq!(r, "second phrase");
    let session = slot.current().as_ref().unwrap();
    assert_eq!(session.keys.seed_reply, "second phrase");
    assert_eq!(session.keys.birthday, 2);
}

#[test]
fn init_from_b64_rejects_malformed_payload() {
    let mut slot = SessionSlot::new();
    let r = init_from_b64(
        &mut slot,
        "https://server".to_string(),
        "not-base64!!".to_string(),
        "/tmp/data".to_string(),
        "main".to_string(),
        Ok(()),
        Ok(KeyMaterial {
            seed_reply: "unused".to_string(),
            birthday: 0,
            spend_capable: true,
        }),
    );
    assert!(r.starts_with("Error: Decoding Base64"), "got: {r}");
    assert!(r.contains(", Size: 12, Content: not-base64!!"), "got: {r}");
    assert!(!slot.is_initialized());
}

#[test]
fn init_from_b64_surfaces_wallet_read_failure() {
    let mut slot = SessionSlot::new();
    // "AAAA" is valid base64, so the decoder passes and the engine's
    // deserialization verdict decides.
    let r = init_from_b64(
        &mut slot,
        String::new(),
        "AAAA".to_string(),
        String::new(),
        "main".to_string(),
        Ok(()),
        Err("corrupt wallet".to_string()),
    );
    assert_eq!(r, "Error: corrupt wallet");
    assert!(!slot.is_initialized());
}

#[test]
fn init_from_seed_surfaces_key_failure() {
    let mut slot = SessionSlot::new();
    let r = init_from_seed(
        &mut slot,
        String::new(),
        "not a real phrase".to_string(),
        1,
        String::new(),
        "main".to_string(),
        Ok(()),
        Err("word not in list".to_string()),
    );
    assert_eq!(r, "Error: word not in list");
    assert!(!slot.is_initialized());
}

#[test]
fn save_and_restore_round_trip() {
    let wallet_bytes: Vec<u8> = (0u8..=255).chain(0u8..=41).collect();

    // Save from an active session: the payload is the padded standard
    // encoding of exactly the engine's bytes.
    let mut slot = SessionSlot::new();
    init_from_seed(
        &mut slot,
        String::new(),
        "phrase".to_string(),
        1,
        String::new(),
        "main".to_string(),
        Ok(()),
        Ok(()),
    );
    let payload = save_to_b64(&mut slot, Ok(Some(wallet_bytes.clone())));
    assert_eq!(
        payload,
        base64::engine::general_purpose::STANDARD.encode(&wallet_bytes)
    );
    assert_eq!(payload.len() % 4, 0);
    assert!(payload.ends_with('='), "padding must be present");

    // Decoding the payload recovers the saved bytes exactly.
    assert_eq!(decode_wallet_b64(&payload).unwrap(), wallet_bytes);
    assert_eq!(decode_saved_payload(&wallet_bytes), wallet_bytes);

    // Restoring from the payload and saving again yields byte-identical
    // content.
    let mut restored = SessionSlot::new();
    let r = init_from_b64(
        &mut restored,
        String::new(),
        payload.clone(),
        String::new(),
        "main".to_string(),
        Ok(()),
        Ok(KeyMaterial {
            seed_reply: "phrase".to_string(),
            birthday: 1,
            spend_capable: true,
        }),
    );
    assert_eq!(r, "phrase");
    match execute_command(&mut restored, "seed".to_string(), String::new()) {
        Dispatch::Handled(s) => assert_eq!(s, r),
        Dispatch::ToEngine(_, _) => panic!("the seed query is answered by the layer itself"),
    }
    let second = save_to_b64(&mut restored, Ok(Some(wallet_bytes.clone())));
    assert_eq!(second, payload);
    assert_eq!(decode_wallet_b64(&second).unwrap(), wallet_bytes);
}

#[test]
fn save_reports_nothing_to_save_and_failures() {
    let mut slot = SessionSlot::new();
    init_from_seed(
        &mut slot,
        String::new(),
        "phrase".to_string(),
        1,
        String::new(),
        "main".to_string(),
        Ok(()),
        Ok(()),
    );
    assert_eq!(
        save_to_b64(&mut slot, Ok(None)),
        "Error: No need to save the wallet file"
    );
    assert_eq!(
        save_to_b64(&mut slot, Err("write failed".to_string())),
        "Error: write failed"
    );
}

#[test]
fn poll_reports_each_state() {
    let mut slot = SessionSlot::new();
    init_from_seed(
        &mut slot,
        String::new(),
        "phrase".to_string(),
        1,
        String::new(),
        "main".to_string(),
        Ok(()),
        Ok(()),
    );
    assert_eq!(
        poll_sync(&mut slot, PollReport::NoHandle),
        "Sync task has not been launched."
    );
    assert_eq!(
        poll_sync(&mut slot, PollReport::NotReady),
        "Sync task is not complete."
    );
    assert_eq!(
        poll_sync(
            &mut slot,
            PollReport::Ready(SyncOutcome::Failure("peer hung up".to_string()))
        ),
        "Error: peer hung up"
    );
    let mut expected = json::JsonValue::new_object();
    expected.insert("sync_complete", "scanned 42 blocks").unwrap();
    assert_eq!(
        poll_sync(
            &mut slot,
            PollReport::Ready(SyncOutcome::Success("scanned 42 blocks".to_string()))
        ),
        expected.pretty(2)
    );
}

#[test]
fn split_args_is_empty_or_single_token() {
    assert!(split_args(&String::new()).is_empty());
    assert_eq!(split_args(&"addr,memo".to_string()), vec!["addr,memo".to_string()]);
}

#[test]
fn unknown_commands_go_to_the_engine_verbatim() {
    let mut slot = SessionSlot::new();
    init_from_seed(
        &mut slot,
        String::new(),
        "phrase".to_string(),
        1,
        String::new(),
        "main".to_string(),
        Ok(()),
        Ok(()),
    );
    match execute_command(&mut slot, "balance".to_string(), "zs1abc".to_string()) {
        Dispatch::ToEngine(cmd, args) => {
            assert_eq!(cmd, "balance");
            assert_eq!(args, vec!["zs1abc".to_string()]);
        }
        Dispatch::Handled(s) => panic!("expected engine dispatch, got reply {s}"),
    }
    // The seed command with an argument also goes to the engine.
    assert!(matches!(
        execute_command(&mut slot, "seed".to_string(), "x".to_string()),
        Dispatch::ToEngine(_, _)
    ));
}

#[test]
fn session_reply_passthrough_needs_session() {
    let mut slot = SessionSlot::new();
    init_from_seed(
        &mut slot,
        String::new(),
        "phrase".to_string(),
        1,
        String::new(),
        "main".to_string(),
        Ok(()),
        Ok(()),
    );
    assert_eq!(
        zingolib_ffi::dispatch::get_transaction_summaries(&mut slot, "{\"txs\":[]}".to_string()),
        "{\"txs\":[]}"
    );
    assert_eq!(
        zingolib_ffi::dispatch::get_value_transfers(&mut slot, "{\"vt\":[]}".to_string()),
        "{\"vt\":[]}"
    );
}
