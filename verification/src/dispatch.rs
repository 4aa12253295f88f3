//! The command dispatcher.
//!
//! Routes a textual command name and argument list against the active
//! session.  The slot is checked first: with no session installed every
//! route collapses to the same error string and nothing else happens.  The
//! argument list is split into zero or one token — an empty string means no
//! arguments; this layer is deliberately not a general CSV parser.
//!
//! Commands the session model can answer (the `seed` query) are answered
//! here; every other command is handed to the wallet engine verbatim, and
//! the engine's reply — its error taxonomy included — crosses the boundary
//! unchanged.

use vstd::prelude::*;
use vstd::string::StringExecFns;

use crate::errors::BoundaryError;
use crate::errors::not_initialized_text;
use crate::session::SessionSlot;
use crate::session::WalletSession;

verus! {

/// Where a command goes: answered by the session model, or handed to the
/// engine with its split argument list.
#[derive(Debug)]
pub enum Dispatch {
    /// The layer's own answer; nothing reaches the engine.
    Handled(String),
    /// Command name and argument tokens for the engine to run.
    ToEngine(String, Vec<String>),
}

/// The argument tokens an argument-list string splits into: none when it is
/// empty, otherwise the whole string as the single token.
pub open spec fn split_args_spec(args_list: Seq<char>) -> Seq<Seq<char>> {
    if args_list.len() == 0 {
        Seq::empty()
    } else {
        seq![args_list]
    }
}

/// Splits an argument-list string into zero or one argument token.
pub fn split_args(args_list: &String) -> (r: Vec<String>)
    ensures
        r@.map_values(|s: String| s@) == split_args_spec(args_list@),
{
    let mut tokens: Vec<String> = Vec::new();
    if !args_list.as_str().is_empty() {
        tokens.push(args_list.clone());
    }
    proof {
        assert(tokens@.map_values(|s: String| s@) =~= split_args_spec(args_list@));
    }
    tokens
}

/// Whether a dispatched command is the seed query this layer answers itself.
pub open spec fn is_seed_query(cmd: Seq<char>, args_list: Seq<char>) -> bool {
    cmd == "seed"@ && args_list.len() == 0
}

/// What the dispatcher answers a seed query with: the active session's
/// recovery-phrase report, or the fixed error string when the slot is
/// empty.
pub open spec fn seed_query_reply(slot: Option<WalletSession>) -> Seq<char> {
    match slot {
        None => not_initialized_text(),
        Some(sess) => sess.keys.seed_reply@,
    }
}

/// Routes one command against the active session.
///
/// The caller's exclusive borrow of the slot lasts for the whole call, so
/// concurrent dispatches serialize on it.  The slot itself is never altered
/// here: with no session installed the result is the fixed error string and
/// there is no other effect.
pub fn execute_command(slot: &mut SessionSlot, cmd: String, args_list: String) -> (r: Dispatch)
    ensures
        final(slot)@ == old(slot)@,
        old(slot)@ is None ==> (r matches Dispatch::Handled(s) && s@ == not_initialized_text()),
        old(slot)@ matches Some(sess) ==> (is_seed_query(cmd@, args_list@) ==> (r matches
            Dispatch::Handled(s) && s@ == seed_query_reply(old(slot)@) && s@
            == sess.keys.seed_reply@)),
        (old(slot)@ is Some && !is_seed_query(cmd@, args_list@)) ==> (r matches Dispatch::ToEngine(
            c,
            a,
        ) && c@ == cmd@ && a@.map_values(|s: String| s@) == split_args_spec(args_list@)),
{
    let session = match slot.current() {
        Some(session) => session,
        None => {
            return Dispatch::Handled(BoundaryError::SessionNotInitialized.render());
        },
    };
    let seed_cmd = String::from_str("seed");
    if cmd == seed_cmd && args_list.as_str().is_empty() {
        Dispatch::Handled(session.keys.seed_reply.clone())
    } else {
        let args = split_args(&args_list);
        Dispatch::ToEngine(cmd, args)
    }
}

/// Reports the engine's transaction summaries for the active session, or
/// the fixed error string when no session is installed.  The summaries are
/// produced by the engine while the caller holds the slot; they pass
/// through unchanged.
pub fn get_transaction_summaries(slot: &mut SessionSlot, engine_reply: String) -> (r: String)
    ensures
        final(slot)@ == old(slot)@,
        old(slot)@ is None ==> r@ == not_initialized_text(),
        old(slot)@ is Some ==> r@ == engine_reply@,
{
    if slot.is_initialized() {
        engine_reply
    } else {
        BoundaryError::SessionNotInitialized.render()
    }
}

/// Reports the engine's value transfers for the active session, or the
/// fixed error string when no session is installed.
pub fn get_value_transfers(slot: &mut SessionSlot, engine_reply: String) -> (r: String)
    ensures
        final(slot)@ == old(slot)@,
        old(slot)@ is None ==> r@ == not_initialized_text(),
        old(slot)@ is Some ==> r@ == engine_reply@,
{
    if slot.is_initialized() {
        engine_reply
    } else {
        BoundaryError::SessionNotInitialized.render()
    }
}

/// Installs a freshly constructed session — replacing and discarding any
/// previous one — and reports its recovery phrase by dispatching the seed
/// query against the slot, exactly as every successful initializer path
/// does.
pub fn install_and_report_seed(slot: &mut SessionSlot, session: WalletSession) -> (r: String)
    ensures
        final(slot)@ == Some(session),
        r@ == session.keys.seed_reply@,
{
    slot.install(session);
    let reply = execute_command(slot, String::from_str("seed"), String::new());
    match reply {
        Dispatch::Handled(s) => s,
        Dispatch::ToEngine(_, _) => vstd::pervasive::unreached(),
    }
}

/// After a successful initializer call the slot holds exactly the session
/// that path constructed, and the initializer's reply is the session's
/// recovery-phrase report — so the seed query, dispatched immediately
/// afterwards against that slot, returns the very string the initializer
/// returned, for every session and every phrase.
pub proof fn lemma_init_reply_matches_seed_query(sess: WalletSession, reply: Seq<char>)
    requires
        reply == sess.keys.seed_reply@,
    ensures
        seed_query_reply(Some(sess)) == reply,
{
}

} // verus!
