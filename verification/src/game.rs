//! The scoring engine: cumulative score plus bookkeeping, a tiered point
//! table, and the rollback/undo rule.
//!
//! Policy (the canonical point table of this crate): a mined superblock of
//! difficulty level `15, 16, 17, 18` awards `10, 25, 50, 100` points, and any
//! level of `19` or above awards `250`; a witnessed superblock awards half
//! the mined value at the same level, rounded down. Levels below
//! [`MIN_LEVEL`] are rejected with [`GameCommandError::InvalidLevel`] and no
//! state changes.

use vstd::prelude::*;

use crate::episode::{Episode, EpisodeError, PayloadMetadata};
use crate::pki::PubKey;

verus! {

/// The lowest difficulty level that earns points.
pub const MIN_LEVEL: u8 = 15;

/// Game state: cumulative score, time of the last accepted command, and the
/// level it carried.
#[derive(Clone, Copy, Debug)]
pub struct Game {
    pub score: u32,
    pub last_update: Option<u64>,
    pub last_level: Option<u8>,
}

/// A player action: points for a superblock the player mined, or the
/// (smaller) witness reward for one the player only attested to.
#[derive(Debug, Clone, Copy)]
pub enum GameCommand {
    AddPoints { level: u8 },
    WitnessPoints { level: u8 },
}

/// Domain errors: the command is well-formed but outside policy.
#[derive(Debug, Clone, Copy, PartialEq, Eq)]
pub enum GameCommandError {
    InvalidLevel,
}

/// The canonical point table for a mined superblock; 0 stands for "below
/// the accepted range".
pub open spec fn points_for_level_spec(level: u8) -> u32 {
    if level < MIN_LEVEL {
        0
    } else if level == 15 {
        10
    } else if level == 16 {
        25
    } else if level == 17 {
        50
    } else if level == 18 {
        100
    } else {
        250
    }
}

/// The witness reward: half the mined value at the same level, rounded down.
pub open spec fn witness_points_spec(level: u8) -> u32 {
    points_for_level_spec(level) / 2
}

/// The difficulty level a command carries.
pub open spec fn command_level(cmd: GameCommand) -> u8 {
    match cmd {
        GameCommand::AddPoints { level } => level,
        GameCommand::WitnessPoints { level } => level,
    }
}

/// The score delta an accepted command awards.
pub open spec fn command_delta(cmd: GameCommand) -> u32 {
    match cmd {
        GameCommand::AddPoints { level } => points_for_level_spec(level),
        GameCommand::WitnessPoints { level } => witness_points_spec(level),
    }
}

/// The state a fresh game starts in.
pub open spec fn initial_game() -> Game {
    Game { score: 0, last_update: None, last_level: None }
}

/// The transition `execute` performs: either the command's level is below
/// [`MIN_LEVEL`] and nothing changes, or the delta is added and the
/// bookkeeping fields record this command.
pub open spec fn game_execute_spec(g: Game, cmd: GameCommand, accepting_time: u64) -> (
    Game,
    Result<u32, GameCommandError>,
) {
    if command_level(cmd) < MIN_LEVEL {
        (g, Err(GameCommandError::InvalidLevel))
    } else {
        let d = command_delta(cmd);
        (
            Game {
                score: (g.score + d) as u32,
                last_update: Some(accepting_time),
                last_level: Some(command_level(cmd)),
            },
            Ok(d),
        )
    }
}

/// The transition `rollback` performs: subtract when the balance suffices,
/// otherwise leave the state untouched and report failure.
pub open spec fn game_rollback_spec(g: Game, amount: u32) -> (Game, bool) {
    if g.score >= amount {
        (Game { score: (g.score - amount) as u32, ..g }, true)
    } else {
        (g, false)
    }
}

impl Game {
    /// The canonical point table for a mined superblock.
    pub fn points_for_level(mu: u8) -> (p: u32)
        ensures
            p == points_for_level_spec(mu),
    {
        if mu < MIN_LEVEL {
            0
        } else if mu == 15 {
            10
        } else if mu == 16 {
            25
        } else if mu == 17 {
            50
        } else if mu == 18 {
            100
        } else {
            250
        }
    }
}

impl Default for Game {
    fn default() -> (g: Self)
        ensures
            g == initial_game(),
    {
        Game { score: 0, last_update: None, last_level: None }
    }
}

impl Episode for Game {
    type Command = GameCommand;

    type CommandError = GameCommandError;

    type CommandRollback = u32;

    open spec fn init_ens(participants: Seq<PubKey>, metadata: PayloadMetadata, s: Self) -> bool {
        s == initial_game()
    }

    open spec fn execute_req(
        &self,
        cmd: &GameCommand,
        auth: Option<PubKey>,
        metadata: &PayloadMetadata,
    ) -> bool {
        command_level(*cmd) >= MIN_LEVEL ==> self.score + command_delta(*cmd) <= u32::MAX
    }

    open spec fn execute_ens(
        &self,
        cmd: &GameCommand,
        auth: Option<PubKey>,
        metadata: &PayloadMetadata,
        new_state: Self,
        r: Result<u32, EpisodeError<GameCommandError>>,
    ) -> bool {
        let (g2, rr) = game_execute_spec(*self, *cmd, metadata.accepting_time);
        &&& new_state == g2
        &&& r == match rr {
            Ok(d) => Ok::<u32, EpisodeError<GameCommandError>>(d),
            Err(e) => Err::<u32, EpisodeError<GameCommandError>>(EpisodeError::CommandError(e)),
        }
    }

    open spec fn rollback_ens(&self, token: u32, new_state: Self, ok: bool) -> bool {
        let (g2, ok2) = game_rollback_spec(*self, token);
        new_state == g2 && ok == ok2
    }

    fn initialize(participants: Vec<PubKey>, metadata: &PayloadMetadata) -> (s: Self) {
        Game { score: 0, last_update: None, last_level: None }
    }

    fn execute(
        &mut self,
        cmd: &GameCommand,
        auth: Option<PubKey>,
        metadata: &PayloadMetadata,
    ) -> (r: Result<u32, EpisodeError<GameCommandError>>) {
        let level = match cmd {
            GameCommand::AddPoints { level } => *level,
            GameCommand::WitnessPoints { level } => *level,
        };
        if level < MIN_LEVEL {
            return Err(EpisodeError::CommandError(GameCommandError::InvalidLevel));
        }
        let delta = match cmd {
            GameCommand::AddPoints { level } => Game::points_for_level(*level),
            GameCommand::WitnessPoints { level } => Game::points_for_level(*level) / 2,
        };
        self.score = self.score + delta;
        self.last_update = Some(metadata.accepting_time);
        self.last_level = Some(level);
        Ok(delta)
    }

    fn rollback(&mut self, token: u32) -> (ok: bool) {
        if self.score >= token {
            self.score = self.score - token;
            true
        } else {
            false
        }
    }
}

/// Law: the reward table is monotone — of two accepted levels, the higher
/// one never awards fewer points, for mined and for witnessed claims alike.
pub proof fn lemma_points_monotonic(l1: u8, l2: u8)
    requires
        MIN_LEVEL <= l1,
        l1 <= l2,
    ensures
        points_for_level_spec(l1) <= points_for_level_spec(l2),
        witness_points_spec(l1) <= witness_points_spec(l2),
{
}

/// Law: a command whose level lies below the accepted range is rejected
/// with `InvalidLevel` and leaves the state exactly as it was.
pub proof fn lemma_below_threshold_rejected(g: Game, cmd: GameCommand, t: u64)
    requires
        command_level(cmd) < MIN_LEVEL,
    ensures
        game_execute_spec(g, cmd, t) == (g, Err::<u32, GameCommandError>(
            GameCommandError::InvalidLevel,
        )),
{
}

/// Law: rolling back the token a successful `execute` returned succeeds and
/// restores the score to its value immediately before that `execute`.
pub proof fn lemma_execute_then_rollback(g: Game, cmd: GameCommand, t: u64)
    requires
        command_level(cmd) >= MIN_LEVEL ==> g.score + command_delta(cmd) <= u32::MAX,
    ensures
        ({
            let (g1, r) = game_execute_spec(g, cmd, t);
            r matches Ok(d) ==> {
                let (g2, ok) = game_rollback_spec(g1, d);
                ok && g2.score == g.score
            }
        }),
{
}

/// Law: a rollback of more than the current score fails and leaves the
/// state exactly as it was.
pub proof fn lemma_rollback_insufficient(g: Game, amount: u32)
    requires
        amount > g.score,
    ensures
        game_rollback_spec(g, amount) == (g, false),
{
}

} // verus!
