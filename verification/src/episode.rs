//! The generic per-identity state-machine contract: a stateful "episode" is
//! initialized once, executes commands one at a time, and can roll a single
//! application back with the token that `execute` returned.

use vstd::prelude::*;

use crate::pki::PubKey;

verus! {

/// Metadata that travels with every command (e.g., block acceptance time,
/// in seconds since the epoch).
#[derive(Debug, Clone, Copy)]
pub struct PayloadMetadata {
    pub accepting_time: u64,
}

/// Errors an episode can return: a domain error of the concrete command
/// type, or a protocol-level failure described by a message.
#[derive(Debug, PartialEq)]
pub enum EpisodeError<E> {
    CommandError(E),
    InternalError(String),
}

/// A stateful, per-identity episode of the game.
///
/// Each implementer supplies spec functions that pin down what its
/// `initialize`, `execute` and `rollback` do; the executable methods are
/// verified against them. `execute` either applies one command and returns a
/// token sufficient to undo exactly this application, or fails without
/// mutating state.
pub trait Episode: Sized {
    type Command;
    type CommandError;
    type CommandRollback;

    /// What holds of a freshly initialized state.
    spec fn init_ens(participants: Seq<PubKey>, metadata: PayloadMetadata, s: Self) -> bool;

    /// The condition a caller must establish before `execute` (machine
    /// limits only, e.g. that an awarded delta still fits the score type).
    spec fn execute_req(
        &self,
        cmd: &Self::Command,
        auth: Option<PubKey>,
        metadata: &PayloadMetadata,
    ) -> bool;

    /// How the state after `execute` and its result relate to the state
    /// before.
    spec fn execute_ens(
        &self,
        cmd: &Self::Command,
        auth: Option<PubKey>,
        metadata: &PayloadMetadata,
        new_state: Self,
        r: Result<Self::CommandRollback, EpisodeError<Self::CommandError>>,
    ) -> bool;

    /// How the state after `rollback` and its success flag relate to the
    /// state before.
    spec fn rollback_ens(
        &self,
        token: Self::CommandRollback,
        new_state: Self,
        ok: bool,
    ) -> bool;

    /// Constructs a fresh state with zero score. `participants` and
    /// `metadata` are accepted for interface generality.
    fn initialize(participants: Vec<PubKey>, metadata: &PayloadMetadata) -> (s: Self)
        ensures
            Self::init_ens(participants@, *metadata, s),
    ;

    /// Applies one command, returning a token sufficient to undo exactly
    /// this application, or fails with an error without mutating state.
    fn execute(
        &mut self,
        cmd: &Self::Command,
        auth: Option<PubKey>,
        metadata: &PayloadMetadata,
    ) -> (r: Result<Self::CommandRollback, EpisodeError<Self::CommandError>>)
        requires
            old(self).execute_req(cmd, auth, metadata),
        ensures
            old(self).execute_ens(cmd, auth, metadata, *final(self), r),
    ;

    /// Attempts to reverse a previously returned token; returns false (and
    /// leaves state untouched) if reversal is impossible.
    fn rollback(&mut self, token: Self::CommandRollback) -> (ok: bool)
        ensures
            old(self).rollback_ens(token, *final(self), ok),
    ;
}

} // verus!
