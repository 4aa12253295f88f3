//! The wallet session and the process-wide session slot.
//!
//! The slot holds at most one active session.  A caller reaches it only
//! through an exclusive `&mut` borrow — in a process this borrow comes from
//! one lock guarding the single slot — so no two callers ever observe or
//! mutate it at the same time, and replacing its contents is atomic for
//! every other caller: nobody sees a partially constructed session.

use vstd::prelude::*;

use crate::config::EngineConfig;

verus! {

/// Key material as this layer sees it: the flat values the contracts read.
/// The cryptographic keys themselves live in the engine.
#[derive(Debug)]
pub struct KeyMaterial {
    /// What the `seed` command reports for this session: the recovery phrase
    /// for a session created from a phrase, or the engine's report for a
    /// session that has none.
    pub seed_reply: String,
    /// The height synchronization starts from.
    pub birthday: u32,
    /// Whether the session can spend.  A session restored from a viewing key
    /// can observe but not spend.
    pub spend_capable: bool,
}

/// One logical wallet instance: its configuration and its key material.
/// Created by exactly one initializer path; lives in the slot until replaced
/// by a new initialization or the process ends.
#[derive(Debug)]
pub struct WalletSession {
    pub config: EngineConfig,
    pub keys: KeyMaterial,
}

/// The single slot holding zero or one active wallet session.
///
/// Whoever holds the `&mut` borrow holds the session exclusively for the
/// duration of the call, so engine operations driven by two callers can
/// never interleave against the same session: the second caller's borrow
/// begins only after the first caller's result is returned.
#[derive(Debug)]
pub struct SessionSlot {
    session: Option<WalletSession>,
}

impl View for SessionSlot {
    type V = Option<WalletSession>;

    closed spec fn view(&self) -> Option<WalletSession> {
        self.session
    }
}

impl SessionSlot {
    /// A fresh, empty slot.
    pub fn new() -> (r: SessionSlot)
        ensures
            r@ is None,
    {
        SessionSlot { session: None }
    }

    /// Installs a session, replacing and discarding whatever was there.
    pub fn install(&mut self, session: WalletSession)
        ensures
            final(self)@ == Some(session),
    {
        self.session = Some(session);
    }

    /// Whether the slot currently holds a session.
    pub fn is_initialized(&self) -> (r: bool)
        ensures
            r == (self@ is Some),
    {
        self.session.is_some()
    }

    /// The slot's contents, for reading.
    pub fn current(&self) -> (r: &Option<WalletSession>)
        ensures
            *r == self@,
    {
        &self.session
    }
}

} // verus!
