//! The game record and its command handlers.
//!
//! `PebblesService` owns the single mutable `GameState` record, as the
//! hosting process does. Commands arrive as plain values; randomness arrives
//! as raw 32-bit draws supplied by the caller, so every handler is a
//! deterministic function of its arguments. `spec_handle` is the transition
//! relation the handlers are proved against.

use vstd::prelude::*;
use crate::strategy::{
    choose_easy, choose_hard, lemma_hard_strategy_optimal, spec_choose_easy, spec_choose_hard,
};
use vstd::arithmetic::div_mod::lemma_mod_division_less_than_divisor;

verus! {

/// How the automated player selects its moves. Fixed for the lifetime of a
/// game; replaceable only by a restart.
#[derive(Clone, Copy, PartialEq, Eq, Structural, Debug)]
pub enum DifficultyLevel {
    Easy,
    Hard,
}

/// A participant: the human user or the automated program. Names both the
/// opening player and the winner.
#[derive(Clone, Copy, PartialEq, Eq, Structural, Debug)]
pub enum Player {
    User,
    Program,
}

/// The single persisted game record.
#[derive(Clone, Copy, PartialEq, Eq, Debug)]
pub struct GameState {
    /// Total pebbles at game start; constant until a restart.
    pub pebbles_count: u32,
    /// Upper bound on pebbles removable in one move.
    pub max_pebbles_per_turn: u32,
    /// Pebbles still on the pile; non-increasing within a game.
    pub pebbles_remaining: u32,
    /// Governs the automated player's strategy.
    pub difficulty: DifficultyLevel,
    /// Who moves first, drawn at random on initialization and restart.
    pub first_player: Player,
    /// `None` while the game is ongoing; the winner once it is decided.
    pub winner: Option<Player>,
}

/// Parameters of an initialization command.
#[derive(Clone, Copy, PartialEq, Eq, Debug)]
pub struct PebblesInit {
    pub difficulty: DifficultyLevel,
    pub pebbles_count: u32,
    pub max_pebbles_per_turn: u32,
}

/// A command delivered to the running service.
#[derive(Clone, Copy, PartialEq, Eq, Debug)]
pub enum PebblesAction {
    /// The user removes this many pebbles.
    Turn(u32),
    /// The user concedes; the program wins at once.
    GiveUp,
    /// Discard the record and start a fresh game.
    Restart { difficulty: DifficultyLevel, pebbles_count: u32, max_pebbles_per_turn: u32 },
}

/// An event the service emits in reply to a command.
#[derive(Clone, Copy, PartialEq, Eq, Debug)]
pub enum PebblesEvent {
    /// The automated player removed this many pebbles.
    CounterTurn(u32),
    /// The game is over and this player won.
    Won(Player),
}

/// Why a command was rejected. Every rejection leaves the stored record
/// unchanged.
#[derive(Clone, Copy, PartialEq, Eq, Structural, Debug)]
pub enum GameError {
    /// Initialize or Restart parameters out of range.
    InvalidConfiguration,
    /// A turn's pebble count outside the legal range.
    InvalidMove,
    /// A command arrived before any initialization succeeded.
    UninitializedState,
}

/// A playable configuration: a non-empty pile, and a turn cap between one
/// pebble and the whole pile.
pub open spec fn valid_config(pebbles_count: int, max_per_turn: int) -> bool {
    &&& 0 < pebbles_count
    &&& 1 <= max_per_turn <= pebbles_count
}

/// The record invariant: the configuration is playable, the pile never holds
/// more than it started with, and an emptied pile always has a winner
/// recorded.
pub open spec fn state_inv(g: GameState) -> bool {
    &&& valid_config(g.pebbles_count as int, g.max_pebbles_per_turn as int)
    &&& g.pebbles_remaining <= g.pebbles_count
    &&& (g.pebbles_remaining == 0 ==> g.winner is Some)
}

/// The opening player, drawn from one raw 32-bit draw: even picks the user,
/// odd picks the program.
pub open spec fn spec_first_player(rand: int) -> Player {
    if rand % 2 == 0 {
        Player::User
    } else {
        Player::Program
    }
}

/// The move the automated player makes: the strategy's choice for the given
/// difficulty, clamped to the pile so that it is always applicable.
pub open spec fn spec_program_move(
    d: DifficultyLevel,
    remaining: int,
    max_per_turn: int,
    rand: int,
) -> int {
    let chosen: int = match d {
        DifficultyLevel::Easy => spec_choose_easy(max_per_turn, rand),
        DifficultyLevel::Hard => spec_choose_hard(remaining, max_per_turn),
    };
    if chosen <= remaining {
        chosen
    } else {
        remaining
    }
}

/// One automated move applied to a running record: subtract the program's
/// move and record the program as winner when it empties the pile.
pub open spec fn spec_apply_program_move(g: GameState, rand: u32) -> GameState {
    let mv: int = spec_program_move(
        g.difficulty,
        g.pebbles_remaining as int,
        g.max_pebbles_per_turn as int,
        rand as int,
    );
    let rem: int = g.pebbles_remaining - mv;
    GameState {
        pebbles_remaining: rem as u32,
        winner: if rem == 0 {
            Some(Player::Program)
        } else {
            g.winner
        },
        ..g
    }
}

/// The fresh record an Initialize or Restart command produces: a full pile,
/// no winner, the opening player drawn from `player_rand`. When the program
/// moves first, its opening move (drawn from `move_rand` on easy difficulty)
/// is applied at once; no event reports that move.
pub open spec fn spec_new_game(
    difficulty: DifficultyLevel,
    pebbles_count: u32,
    max_pebbles_per_turn: u32,
    player_rand: u32,
    move_rand: u32,
) -> GameState {
    let base = GameState {
        pebbles_count,
        max_pebbles_per_turn,
        pebbles_remaining: pebbles_count,
        difficulty,
        first_player: spec_first_player(player_rand as int),
        winner: None,
    };
    if base.first_player is Program {
        spec_apply_program_move(base, move_rand)
    } else {
        base
    }
}

/// A turn command is accepted exactly here: the game is still running and
/// the requested removal is within both the turn cap and the pile.
pub open spec fn spec_turn_ok(g: GameState, k: u32) -> bool {
    &&& g.winner is None
    &&& 1 <= k <= g.max_pebbles_per_turn
    &&& k <= g.pebbles_remaining
}

/// The transition relation of the state machine, one command at a time: the
/// next record and the emitted event, or the error that leaves the record
/// unchanged.
pub open spec fn spec_handle(
    g: GameState,
    action: PebblesAction,
    player_rand: u32,
    move_rand: u32,
) -> Result<(GameState, Option<PebblesEvent>), GameError> {
    match action {
        PebblesAction::Turn(k) => {
            if !spec_turn_ok(g, k) {
                Err(GameError::InvalidMove)
            } else {
                let after_user = GameState {
                    pebbles_remaining: (g.pebbles_remaining - k) as u32,
                    ..g
                };
                if after_user.pebbles_remaining == 0 {
                    Ok(
                        (
                            GameState { winner: Some(Player::User), ..after_user },
                            Some(PebblesEvent::Won(Player::User)),
                        ),
                    )
                } else {
                    let counter: int = spec_program_move(
                        g.difficulty,
                        after_user.pebbles_remaining as int,
                        g.max_pebbles_per_turn as int,
                        move_rand as int,
                    );
                    let after_program = spec_apply_program_move(after_user, move_rand);
                    if after_program.pebbles_remaining == 0 {
                        Ok((after_program, Some(PebblesEvent::Won(Player::Program))))
                    } else {
                        Ok((after_program, Some(PebblesEvent::CounterTurn(counter as u32))))
                    }
                }
            }
        },
        PebblesAction::GiveUp => Ok(
            (
                GameState { winner: Some(Player::Program), ..g },
                Some(PebblesEvent::Won(Player::Program)),
            ),
        ),
        PebblesAction::Restart { difficulty, pebbles_count, max_pebbles_per_turn } => {
            if !valid_config(pebbles_count as int, max_pebbles_per_turn as int) {
                Err(GameError::InvalidConfiguration)
            } else {
                Ok(
                    (
                        spec_new_game(
                            difficulty,
                            pebbles_count,
                            max_pebbles_per_turn,
                            player_rand,
                            move_rand,
                        ),
                        None,
                    ),
                )
            }
        },
    }
}

/// The program's move is always legal: at least one pebble, at most the turn
/// cap, and never more than the pile holds.
pub proof fn lemma_program_move_legal(
    d: DifficultyLevel,
    remaining: int,
    max_per_turn: int,
    rand: int,
)
    requires
        1 <= remaining,
        1 <= max_per_turn,
    ensures
        1 <= spec_program_move(d, remaining, max_per_turn, rand) <= remaining,
        spec_program_move(d, remaining, max_per_turn, rand) <= max_per_turn,
{
    match d {
        DifficultyLevel::Easy => {
            lemma_mod_division_less_than_divisor(rand, max_per_turn);
        },
        DifficultyLevel::Hard => {
            lemma_hard_strategy_optimal(remaining, max_per_turn);
        },
    }
}

/// Invariant establishment: a valid configuration always initializes to a
/// record satisfying the invariant, opening move included.
pub proof fn lemma_new_game_inv(
    difficulty: DifficultyLevel,
    pebbles_count: u32,
    max_pebbles_per_turn: u32,
    player_rand: u32,
    move_rand: u32,
)
    requires
        valid_config(pebbles_count as int, max_pebbles_per_turn as int),
    ensures
        state_inv(spec_new_game(difficulty, pebbles_count, max_pebbles_per_turn, player_rand, move_rand)),
{
    if spec_first_player(player_rand as int) is Program {
        lemma_program_move_legal(
            difficulty,
            pebbles_count as int,
            max_pebbles_per_turn as int,
            move_rand as int,
        );
    }
}

/// Invariant preservation: every command that succeeds leads from a record
/// satisfying the invariant to another one. Together with
/// `lemma_new_game_inv` this covers every reachable record.
pub proof fn lemma_handle_preserves_inv(
    g: GameState,
    action: PebblesAction,
    player_rand: u32,
    move_rand: u32,
)
    requires
        state_inv(g),
        spec_handle(g, action, player_rand, move_rand) is Ok,
    ensures
        state_inv(spec_handle(g, action, player_rand, move_rand)->Ok_0.0),
{
    match action {
        PebblesAction::Turn(k) => {
            if spec_turn_ok(g, k) && g.pebbles_remaining - k > 0 {
                lemma_program_move_legal(
                    g.difficulty,
                    g.pebbles_remaining - k,
                    g.max_pebbles_per_turn as int,
                    move_rand as int,
                );
            }
        },
        PebblesAction::GiveUp => {},
        PebblesAction::Restart { difficulty, pebbles_count, max_pebbles_per_turn } => {
            lemma_new_game_inv(
                difficulty,
                pebbles_count,
                max_pebbles_per_turn,
                player_rand,
                move_rand,
            );
        },
    }
}

/// Termination correctness: when a successful turn empties the pile, the
/// recorded winner is exactly the player whose removal emptied it, and the
/// emitted event names that player; while pebbles remain there is no winner
/// and the event reports the program's counter-move.
pub proof fn lemma_turn_termination(g: GameState, k: u32, player_rand: u32, move_rand: u32)
    requires
        state_inv(g),
        spec_handle(g, PebblesAction::Turn(k), player_rand, move_rand) is Ok,
    ensures
        ({
            let (g2, ev) = spec_handle(g, PebblesAction::Turn(k), player_rand, move_rand)->Ok_0;
            &&& (g2.pebbles_remaining == 0 ==> g2.winner is Some)
            &&& (g.pebbles_remaining == k ==> g2.pebbles_remaining == 0 && g2.winner == Some(
                Player::User,
            ) && ev == Some(PebblesEvent::Won(Player::User)))
            &&& (g.pebbles_remaining != k && g2.pebbles_remaining == 0 ==> g2.winner == Some(
                Player::Program,
            ) && ev == Some(PebblesEvent::Won(Player::Program)))
            &&& (g2.pebbles_remaining > 0 ==> g2.winner is None && ev == Some(
                PebblesEvent::CounterTurn((g.pebbles_remaining - k - g2.pebbles_remaining) as u32),
            ))
        }),
{
    lemma_handle_preserves_inv(g, PebblesAction::Turn(k), player_rand, move_rand);
    if spec_turn_ok(g, k) && g.pebbles_remaining - k > 0 {
        lemma_program_move_legal(
            g.difficulty,
            g.pebbles_remaining - k,
            g.max_pebbles_per_turn as int,
            move_rand as int,
        );
    }
}

/// Give-up idempotence: giving up succeeds in any record, records the
/// program as winner with a `Won(Program)` event, and a second give-up
/// yields the same event and leaves the record unchanged.
pub proof fn lemma_give_up_idempotent(g: GameState, r1: u32, r2: u32, r3: u32, r4: u32)
    ensures
        ({
            let first = spec_handle(g, PebblesAction::GiveUp, r1, r2);
            &&& first is Ok
            &&& first->Ok_0.1 == Some(PebblesEvent::Won(Player::Program))
            &&& first->Ok_0.0.winner == Some(Player::Program)
            &&& spec_handle(first->Ok_0.0, PebblesAction::GiveUp, r3, r4) == Ok::<
                (GameState, Option<PebblesEvent>),
                GameError,
            >((first->Ok_0.0, Some(PebblesEvent::Won(Player::Program))))
        }),
{
}

/// The service owning the single game record, as the hosting process does:
/// commands are handed to it one at a time and each either commits its whole
/// effect or fails leaving the record untouched.
pub struct PebblesService {
    pub game: Option<GameState>,
}

/// The opening player from one raw 32-bit draw: even picks the user, odd
/// picks the program.
pub fn first_player_from(rand: u32) -> (p: Player)
    ensures
        p == spec_first_player(rand as int),
{
    if rand % 2 == 0 {
        Player::User
    } else {
        Player::Program
    }
}

/// Apply one automated move to a running record, returning the new record
/// and how many pebbles the program removed.
fn apply_program_move(g: GameState, rand: u32) -> (r: (GameState, u32))
    requires
        1 <= g.max_pebbles_per_turn,
        1 <= g.pebbles_remaining,
    ensures
        r.0 == spec_apply_program_move(g, rand),
        r.1 as int == spec_program_move(
            g.difficulty,
            g.pebbles_remaining as int,
            g.max_pebbles_per_turn as int,
            rand as int,
        ),
{
    let chosen: u32 = match g.difficulty {
        DifficultyLevel::Easy => choose_easy(g.max_pebbles_per_turn, rand),
        DifficultyLevel::Hard => choose_hard(g.pebbles_remaining, g.max_pebbles_per_turn),
    };
    let mv: u32 = if chosen <= g.pebbles_remaining {
        chosen
    } else {
        g.pebbles_remaining
    };
    let rem: u32 = g.pebbles_remaining - mv;
    let next = GameState {
        pebbles_remaining: rem,
        winner: if rem == 0 {
            Some(Player::Program)
        } else {
            g.winner
        },
        ..g
    };
    (next, mv)
}

impl PebblesService {
    /// The service invariant: whatever record is stored satisfies the record
    /// invariant.
    pub open spec fn wf(&self) -> bool {
        self.game matches Some(g) ==> state_inv(g)
    }

    /// A fresh service with no record: every command is rejected with
    /// `UninitializedState` until `init` succeeds.
    pub fn new() -> (s: Self)
        ensures
            s.game is None,
            s.wf(),
    {
        PebblesService { game: None }
    }

    /// Initialize: validate the configuration, store a fresh record, and
    /// when the program is drawn as the opening player apply its opening
    /// move at once. On rejection no record is created and any prior record
    /// stays as it was.
    pub fn init(&mut self, params: PebblesInit, player_rand: u32, move_rand: u32) -> (r: Result<
        (),
        GameError,
    >)
        requires
            old(self).wf(),
        ensures
            final(self).wf(),
            valid_config(params.pebbles_count as int, params.max_pebbles_per_turn as int) ==> r
                == Ok::<(), GameError>(()) && final(self).game == Some(
                spec_new_game(
                    params.difficulty,
                    params.pebbles_count,
                    params.max_pebbles_per_turn,
                    player_rand,
                    move_rand,
                ),
            ),
            !valid_config(params.pebbles_count as int, params.max_pebbles_per_turn as int) ==> r
                == Err::<(), GameError>(GameError::InvalidConfiguration) && *final(self) == *old(self),
    {
        if params.pebbles_count == 0 || params.max_pebbles_per_turn == 0
            || params.max_pebbles_per_turn > params.pebbles_count {
            return Err(GameError::InvalidConfiguration);
        }
        let first_player: Player = first_player_from(player_rand);
        let mut g = GameState {
            pebbles_count: params.pebbles_count,
            max_pebbles_per_turn: params.max_pebbles_per_turn,
            pebbles_remaining: params.pebbles_count,
            difficulty: params.difficulty,
            first_player,
            winner: None,
        };
        if g.first_player == Player::Program {
            let moved = apply_program_move(g, move_rand);
            g = moved.0;
        }
        proof {
            lemma_new_game_inv(
                params.difficulty,
                params.pebbles_count,
                params.max_pebbles_per_turn,
                player_rand,
                move_rand,
            );
        }
        self.game = Some(g);
        Ok(())
    }

    /// Process one command against the stored record: Turn plays the user's
    /// move and, when the game goes on, the automated counter-move; GiveUp
    /// concedes to the program; Restart replaces the record wholesale. The
    /// returned event is the reply the service sends, `None` where it sends
    /// none.
    pub fn handle(&mut self, action: PebblesAction, player_rand: u32, move_rand: u32) -> (r:
        Result<Option<PebblesEvent>, GameError>)
        requires
            old(self).wf(),
        ensures
            final(self).wf(),
            old(self).game is None ==> r == Err::<Option<PebblesEvent>, GameError>(
                GameError::UninitializedState,
            ) && *final(self) == *old(self),
            old(self).game matches Some(g) ==> (match spec_handle(
                g,
                action,
                player_rand,
                move_rand,
            ) {
                Ok(p) => r == Ok::<Option<PebblesEvent>, GameError>(p.1) && final(self).game
                    == Some(p.0),
                Err(e) => r == Err::<Option<PebblesEvent>, GameError>(e) && *final(self) == *old(self),
            }),
    {
        let g: GameState = match self.game {
            Some(stored) => stored,
            None => {
                return Err(GameError::UninitializedState);
            },
        };
        proof {
            if spec_handle(g, action, player_rand, move_rand) is Ok {
                lemma_handle_preserves_inv(g, action, player_rand, move_rand);
            }
        }
        match action {
            PebblesAction::Turn(k) => {
                if g.winner.is_some() || k < 1 || k > g.max_pebbles_per_turn
                    || k > g.pebbles_remaining {
                    return Err(GameError::InvalidMove);
                }
                let mut g2: GameState = g;
                g2.pebbles_remaining = g.pebbles_remaining - k;
                if g2.pebbles_remaining == 0 {
                    g2.winner = Some(Player::User);
                    self.game = Some(g2);
                    Ok(Some(PebblesEvent::Won(Player::User)))
                } else {
                    let moved = apply_program_move(g2, move_rand);
                    g2 = moved.0;
                    self.game = Some(g2);
                    if g2.pebbles_remaining == 0 {
                        Ok(Some(PebblesEvent::Won(Player::Program)))
                    } else {
                        Ok(Some(PebblesEvent::CounterTurn(moved.1)))
                    }
                }
            },
            PebblesAction::GiveUp => {
                let mut g2: GameState = g;
                g2.winner = Some(Player::Program);
                self.game = Some(g2);
                Ok(Some(PebblesEvent::Won(Player::Program)))
            },
            PebblesAction::Restart { difficulty, pebbles_count, max_pebbles_per_turn } => {
                if pebbles_count == 0 || max_pebbles_per_turn == 0
                    || max_pebbles_per_turn > pebbles_count {
                    return Err(GameError::InvalidConfiguration);
                }
                let first_player: Player = first_player_from(player_rand);
                let mut g2 = GameState {
                    pebbles_count,
                    max_pebbles_per_turn,
                    pebbles_remaining: pebbles_count,
                    difficulty,
                    first_player,
                    winner: None,
                };
                if g2.first_player == Player::Program {
                    let moved = apply_program_move(g2, move_rand);
                    g2 = moved.0;
                }
                self.game = Some(g2);
                Ok(None)
            },
        }
    }

    /// A read-only snapshot of the stored record.
    pub fn state(&self) -> (r: Result<GameState, GameError>)
        ensures
            self.game matches Some(g) ==> r == Ok::<GameState, GameError>(g),
            self.game is None ==> r == Err::<GameState, GameError>(
                GameError::UninitializedState,
            ),
    {
        match self.game {
            Some(g) => Ok(g),
            None => Err(GameError::UninitializedState),
        }
    }
}

} // verus!

