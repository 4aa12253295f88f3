//! The configuration resolver.
//!
//! Turns a server endpoint string and a chain-identifier string into a
//! validated engine configuration plus a server address.  Pure: it touches no
//! shared state and never looks at the session slot.  The engine's own
//! configuration loader runs outside this library; its verdict enters
//! `resolve` as a plain `Result` and a failure is surfaced as a
//! `ConfigLoadFailed` error.

use vstd::prelude::*;
use vstd::string::StringExecFns;

use crate::errors::BoundaryError;
use crate::text::dec_of;
use crate::text::u64_to_string;

verus! {

/// The closed set of chain identities a session can run against.
#[derive(Clone, Copy, Debug, PartialEq, Eq, Structural)]
pub enum ChainType {
    Mainnet,
    Testnet,
    Regtest,
}

/// The chain identity a hint string names, if any.
pub open spec fn chain_of_hint(hint: Seq<char>) -> Option<ChainType> {
    if hint == "main"@ {
        Some(ChainType::Mainnet)
    } else if hint == "test"@ {
        Some(ChainType::Testnet)
    } else if hint == "regtest"@ {
        Some(ChainType::Regtest)
    } else {
        None
    }
}

/// Maps a chain hint to its chain identity; every other hint is rejected.
pub fn chain_from_hint(hint: &String) -> (r: Option<ChainType>)
    ensures
        r == chain_of_hint(hint@),
{
    let main_hint = String::from_str("main");
    let test_hint = String::from_str("test");
    let regtest_hint = String::from_str("regtest");
    if *hint == main_hint {
        Some(ChainType::Mainnet)
    } else if *hint == test_hint {
        Some(ChainType::Testnet)
    } else if *hint == regtest_hint {
        Some(ChainType::Regtest)
    } else {
        None
    }
}

/// The placeholder endpoint used when the caller passes an empty server
/// string: offline mode still yields a structurally valid address.
pub open spec fn offline_placeholder() -> Seq<char> {
    "/"@
}

/// The address a server endpoint string resolves to: the string itself, or
/// the offline placeholder when it is empty.
pub open spec fn resolved_address(server_uri: Seq<char>) -> Seq<char> {
    if server_uri.len() == 0 {
        offline_placeholder()
    } else {
        server_uri
    }
}

/// A server endpoint as the boundary layer carries it.  Empty input never
/// reaches this type: an offline session carries the placeholder instead.
#[derive(Debug)]
pub struct ServerAddress {
    pub uri: String,
}

/// The engine configuration: resolved server address, chain identity, and
/// the local data directory.  Immutable after construction.
#[derive(Debug)]
pub struct EngineConfig {
    pub server: ServerAddress,
    pub chain: ChainType,
    pub data_dir: String,
}

/// Whether a string is a well-formed URI.  Defined by the parser of the
/// `http` crate, through `uri_parses`.
pub uninterp spec fn uri_ok(s: Seq<char>) -> bool;

/// Relies on `http::Uri`'s parser (`str::parse::<http::Uri>`): reports
/// whether the string is a well-formed URI.  The parser is a pure function
/// of its input.
#[verifier::external_body]
fn uri_parses(s: &String) -> (r: bool)
    ensures
        r == uri_ok(s@),
{
    s.parse::<http::Uri>().is_ok()
}

/// Resolves an endpoint string, a data directory, and a chain hint into an
/// engine configuration and a server address.
///
/// `load_result` is the verdict of the engine's own configuration loader,
/// which runs outside this library; it is consulted only after the chain
/// hint has resolved, and its failure is surfaced as `ConfigLoadFailed`.
/// The data directory is set on the configuration here, after the load.
pub fn resolve(
    server_uri: String,
    data_dir: String,
    chain_hint: String,
    load_result: Result<(), String>,
) -> (r: Result<(EngineConfig, ServerAddress), BoundaryError>)
    ensures
        chain_of_hint(chain_hint@) is None <==> r matches Err(BoundaryError::InvalidChainHint),
        load_result matches Err(d) ==> (chain_of_hint(chain_hint@) is Some ==> (r matches Err(
            BoundaryError::ConfigLoadFailed(e),
        ) && e@ == d@)),
        r is Ok <==> chain_of_hint(chain_hint@) is Some && load_result is Ok,
        r matches Ok(p) ==> {
            &&& p.0.server.uri@ == resolved_address(server_uri@)
            &&& Some(p.0.chain) == chain_of_hint(chain_hint@)
            &&& p.0.data_dir@ == data_dir@
            &&& p.1.uri@ == resolved_address(server_uri@)
        },
{
    let chain = match chain_from_hint(&chain_hint) {
        Some(c) => c,
        None => {
            return Err(BoundaryError::InvalidChainHint);
        },
    };
    if let Err(reason) = load_result {
        return Err(BoundaryError::ConfigLoadFailed(reason));
    }
    let uri = if server_uri.as_str().is_empty() {
        String::from_str("/")
    } else {
        server_uri
    };
    let address = ServerAddress { uri: uri.clone() };
    let config = EngineConfig { server: ServerAddress { uri }, chain, data_dir };
    Ok((config, address))
}

/// Reports the latest block height of the remote server, or the failure, as
/// a flat string.  The endpoint must be a well-formed URI: the engine's
/// network layer demands one and this layer does not tolerate anything else.
/// The query itself runs outside this library against that endpoint; its
/// outcome enters as `height_query`.
pub fn get_latest_block_server(server_uri: String, height_query: Result<u64, String>) -> (r:
    String)
    requires
        uri_ok(server_uri@),
    ensures
        height_query matches Ok(h) ==> r@ == dec_of(h as nat),
        height_query matches Err(d) ==> r@ == "Error: "@ + d@,
{
    match height_query {
        Ok(height) => u64_to_string(height),
        Err(reason) => BoundaryError::NetworkQueryFailed(reason).render(),
    }
}

/// Like `get_latest_block_server`, but checks the endpoint first and returns
/// `None` instead of demanding a well-formed URI from the caller.
pub fn try_get_latest_block_server(server_uri: String, height_query: Result<u64, String>) -> (r:
    Option<String>)
    ensures
        r is Some <==> uri_ok(server_uri@),
        r matches Some(s) ==> {
            &&& (height_query matches Ok(h) ==> s@ == dec_of(h as nat))
            &&& (height_query matches Err(d) ==> s@ == "Error: "@ + d@)
        },
{
    if uri_parses(&server_uri) {
        Some(get_latest_block_server(server_uri, height_query))
    } else {
        None
    }
}

} // verus!
