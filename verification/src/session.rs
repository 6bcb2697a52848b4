//! The per-identity session: translates an untrusted superblock event into
//! a validated scoring command — verifying the Merkle inclusion proof for
//! witness claims first — and delegates it to the wrapped scoring engine.

use vstd::prelude::*;

use crate::episode::{Episode, EpisodeError, PayloadMetadata};
use crate::game::{
    command_delta, game_execute_spec, game_rollback_spec, initial_game, Game, GameCommand,
    GameCommandError, MIN_LEVEL,
};
use crate::merkle::{
    blake2b512_of, compute_leaf_from_wallet, merkle_fold, node_views, verify_merkle_proof,
};
use crate::pki::PubKey;
use crate::tier::{rank_label_of, rank_label_spec};

verus! {

/// The Merkle data of a witness claim, present in full or not at all.
#[derive(Debug, Clone)]
pub enum WitnessProof {
    Missing,
    Present { root: [u8; 64], siblings: Vec<[u8; 64]>, index: usize },
}

/// An untrusted inbound claim: a mined or witnessed superblock of some
/// difficulty level, with the Merkle data a witness claim must carry.
#[derive(Debug, Clone)]
pub struct SuperblockEvent {
    pub mu_level: u8,
    pub is_witness: bool,
    pub witness_proof: WitnessProof,
    pub block_height: u64,
}

/// The session's own domain-error type, wrapping the engine's.
#[derive(Debug, Clone, Copy, PartialEq, Eq)]
pub enum MueError {
    Game(GameCommandError),
}

/// One identity's game session: wraps a scoring engine instance.
#[derive(Clone, Copy, Default)]
pub struct MueHeroSession {
    game: Game,
}

impl View for MueHeroSession {
    type V = Game;

    closed spec fn view(&self) -> Game {
        self.game
    }
}

/// The scoring command an event translates to.
pub open spec fn event_command(ev: SuperblockEvent) -> GameCommand {
    if ev.is_witness {
        GameCommand::WitnessPoints { level: ev.mu_level }
    } else {
        GameCommand::AddPoints { level: ev.mu_level }
    }
}

/// The score delta an accepted event awards.
pub open spec fn event_delta(ev: SuperblockEvent) -> u32 {
    command_delta(event_command(ev))
}

/// Whether a witness event's Merkle data authenticates the claimed
/// identity: the leaf computed from the identity folds along the siblings
/// to the claimed root.
pub open spec fn witness_verifies(ev: SuperblockEvent, auth: Option<PubKey>) -> bool {
    match (ev.witness_proof, auth) {
        (WitnessProof::Present { root, siblings, index }, Some(pk)) => merkle_fold(
            blake2b512_of(pk@),
            node_views(siblings@),
            index as nat,
        ) == root@,
        _ => false,
    }
}

/// Whether an event passes the session's authentication: mined claims
/// always do, witness claims only with a verifying proof.
pub open spec fn event_authorized(ev: SuperblockEvent, auth: Option<PubKey>) -> bool {
    ev.is_witness ==> witness_verifies(ev, auth)
}

/// A protocol-level rejection carrying the given message.
pub open spec fn is_protocol_err<T>(r: Result<T, EpisodeError<MueError>>, msg: Seq<char>) -> bool {
    r matches Err(EpisodeError::InternalError(m)) && m@ == msg
}

/// The machine-limit condition for one session step: when the event would
/// be accepted, its delta must still fit the score type.
pub open spec fn session_execute_req(g0: Game, cmd: SuperblockEvent, auth: Option<PubKey>) -> bool {
    (event_authorized(cmd, auth) && cmd.mu_level >= MIN_LEVEL) ==> g0.score + event_delta(cmd)
        <= u32::MAX
}

/// One session step, as a relation between the game state before, the game
/// state after, and the result: witness claims without complete Merkle data,
/// without an authenticator, or with a failing proof are rejected at the
/// protocol level with the state untouched; everything else is delegated to
/// the scoring engine's transition.
pub open spec fn session_execute_ens(
    g0: Game,
    cmd: SuperblockEvent,
    auth: Option<PubKey>,
    accepting_time: u64,
    g1: Game,
    r: Result<u32, EpisodeError<MueError>>,
) -> bool {
    if cmd.is_witness && !(cmd.witness_proof matches WitnessProof::Present { .. }) {
        g1 == g0 && is_protocol_err(r, "missing Merkle data"@)
    } else if cmd.is_witness && auth is None {
        g1 == g0 && is_protocol_err(r, "missing authenticator"@)
    } else if cmd.is_witness && !witness_verifies(cmd, auth) {
        g1 == g0 && is_protocol_err(r, "invalid Merkle witness proof"@)
    } else {
        let (g2, rr) = game_execute_spec(g0, event_command(cmd), accepting_time);
        &&& g1 == g2
        &&& r == match rr {
            Ok(d) => Ok::<u32, EpisodeError<MueError>>(d),
            Err(e) => Err::<u32, EpisodeError<MueError>>(
                EpisodeError::CommandError(MueError::Game(e)),
            ),
        }
    }
}

/// Copies a vector of 64-byte nodes.
fn copy_nodes(v: &Vec<[u8; 64]>) -> (r: Vec<[u8; 64]>)
    ensures
        r@ == v@,
{
    let mut r: Vec<[u8; 64]> = Vec::new();
    let mut i: usize = 0;
    while i < v.len()
        invariant
            i <= v@.len(),
            r@ =~= v@.take(i as int),
        decreases v@.len() - i,
    {
        r.push(v[i]);
        i += 1;
    }
    proof {
        assert(r@ =~= v@);
    }
    r
}

impl Episode for MueHeroSession {
    type Command = SuperblockEvent;

    type CommandError = MueError;

    type CommandRollback = u32;

    open spec fn init_ens(participants: Seq<PubKey>, metadata: PayloadMetadata, s: Self) -> bool {
        s@ == initial_game()
    }

    open spec fn execute_req(
        &self,
        cmd: &SuperblockEvent,
        auth: Option<PubKey>,
        metadata: &PayloadMetadata,
    ) -> bool {
        session_execute_req(self@, *cmd, auth)
    }

    open spec fn execute_ens(
        &self,
        cmd: &SuperblockEvent,
        auth: Option<PubKey>,
        metadata: &PayloadMetadata,
        new_state: Self,
        r: Result<u32, EpisodeError<MueError>>,
    ) -> bool {
        session_execute_ens(self@, *cmd, auth, metadata.accepting_time, new_state@, r)
    }

    open spec fn rollback_ens(&self, token: u32, new_state: Self, ok: bool) -> bool {
        let (g2, ok2) = game_rollback_spec(self@, token);
        new_state@ == g2 && ok == ok2
    }

    /// A new game session for an identity's first accepted event.
    fn initialize(participants: Vec<PubKey>, metadata: &PayloadMetadata) -> (s: Self) {
        Self { game: Game::default() }
    }

    /// Routes the superblock event into the scoring engine, authenticating
    /// witness claims with their Merkle proof first.
    fn execute(
        &mut self,
        cmd: &SuperblockEvent,
        auth: Option<PubKey>,
        metadata: &PayloadMetadata,
    ) -> (r: Result<u32, EpisodeError<MueError>>) {
        let game_cmd = if cmd.is_witness {
            match &cmd.witness_proof {
                WitnessProof::Missing => {
                    return Err(EpisodeError::InternalError("missing Merkle data".to_owned()));
                },
                WitnessProof::Present { root, siblings, index } => {
                    match &auth {
                        None => {
                            return Err(
                                EpisodeError::InternalError("missing authenticator".to_owned()),
                            );
                        },
                        Some(pk) => {
                            let leaf = compute_leaf_from_wallet(pk);
                            let sib = copy_nodes(siblings);
                            let ok = verify_merkle_proof(leaf, sib, *root, *index);
                            if !ok {
                                return Err(
                                    EpisodeError::InternalError(
                                        "invalid Merkle witness proof".to_owned(),
                                    ),
                                );
                            }
                            GameCommand::WitnessPoints { level: cmd.mu_level }
                        },
                    }
                },
            }
        } else {
            GameCommand::AddPoints { level: cmd.mu_level }
        };
        match self.game.execute(&game_cmd, auth, metadata) {
            Ok(delta) => Ok(delta),
            Err(EpisodeError::CommandError(e)) => Err(
                EpisodeError::CommandError(MueError::Game(e)),
            ),
            Err(EpisodeError::InternalError(m)) => Err(EpisodeError::InternalError(m)),
        }
    }

    /// Reverts a previously awarded delta (e.g., after a chain
    /// reorganization).
    fn rollback(&mut self, token: u32) -> (ok: bool) {
        self.game.rollback(token)
    }
}

/// Law: at the session too, rolling back the token a successful `execute`
/// returned succeeds and restores the score held immediately before it.
pub proof fn lemma_session_execute_then_rollback(
    g0: Game,
    cmd: SuperblockEvent,
    auth: Option<PubKey>,
    accepting_time: u64,
    g1: Game,
    d: u32,
)
    requires
        session_execute_req(g0, cmd, auth),
        session_execute_ens(g0, cmd, auth, accepting_time, g1, Ok(d)),
    ensures
        game_rollback_spec(g1, d).1,
        game_rollback_spec(g1, d).0.score == g0.score,
{
}

impl MueHeroSession {
    /// The session's cumulative score.
    pub fn get_score(&self) -> (s: u32)
        ensures
            s == self@.score,
    {
        self.game.score
    }

    /// The session's rank label: the tier of the last accepted level, or
    /// the fallback when nothing has been accepted yet.
    pub fn get_rank(&self) -> (r: String)
        ensures
            r@ == rank_label_spec(self@),
    {
        rank_label_of(&self.game)
    }

    /// The wrapped game state.
    pub fn game_state(&self) -> (g: Game)
        ensures
            g == self@,
    {
        self.game
    }
}

} // verus!
