use pebbles_game::game::{
    first_player_from, DifficultyLevel, GameError, PebblesAction, PebblesEvent, PebblesInit,
    PebblesService, Player,
};
use pebbles_game::strategy::{choose_easy, choose_hard, winning_strategy};

fn easy_init(pebbles_count: u32, max_pebbles_per_turn: u32) -> PebblesInit {
    PebblesInit { difficulty: DifficultyLevel::Easy, pebbles_count, max_pebbles_per_turn }
}

#[test]
fn test_first_player_draw() {
    assert_eq!(first_player_from(0), Player::User);
    assert_eq!(first_player_from(1), Player::Program);
    assert_eq!(first_player_from(2), Player::User);
    assert_eq!(first_player_from(u32::MAX), Player::Program);
}

#[test]
fn test_easy_strategy_bounds() {
    let mut rand: u32 = 0;
    while rand < 20 {
        let mv = choose_easy(5, rand);
        assert!(1 <= mv && mv <= 5);
        rand += 1;
    }
    assert_eq!(choose_easy(3, 7), 2);
    assert_eq!(choose_easy(1, 12345), 1);
}

#[test]
fn test_hard_strategy_values() {
    // With a cap of 3 the strategy leaves piles congruent to 1 modulo 4.
    assert_eq!(winning_strategy(10, 3), 1);
    assert_eq!(winning_strategy(12, 3), 3);
    assert_eq!(winning_strategy(15, 3), 2);
    assert_eq!(winning_strategy(5, 4), 4);
    assert_eq!(choose_hard(10, 3), 1);
    assert_eq!(choose_hard(12, 3), 3);
}

#[test]
fn test_hard_strategy_cold_position() {
    // From a pile already congruent to 1 modulo cap + 1 the formula yields
    // 0, and the applied move falls back to a single pebble.
    assert_eq!(winning_strategy(9, 3), 0);
    assert_eq!(choose_hard(9, 3), 1);
    assert_eq!(winning_strategy(1, 5), 0);
    assert_eq!(choose_hard(1, 5), 1);
}

#[test]
fn test_scenario_program_opening() {
    // The program is drawn first on hard difficulty: its opening move is the
    // closed-form move for a pile of 10 and a cap of 3, one pebble.
    let mut service = PebblesService::new();
    let params = PebblesInit {
        difficulty: DifficultyLevel::Hard,
        pebbles_count: 10,
        max_pebbles_per_turn: 3,
    };
    assert!(service.init(params, 1, 0).is_ok());
    let game_state = service.state().expect("Failed to read game state");
    assert_eq!(game_state.first_player, Player::Program);
    assert_eq!(game_state.pebbles_remaining, 9);
    assert_eq!(game_state.winner, None);
}

#[test]
fn test_give_up_twice() {
    let mut service = PebblesService::new();
    assert!(service.init(easy_init(15, 3), 0, 0).is_ok());

    let first = service.handle(PebblesAction::GiveUp, 0, 0);
    assert_eq!(first, Ok(Some(PebblesEvent::Won(Player::Program))));
    let after_first = service.state().expect("Failed to read game state");
    assert_eq!(after_first.winner, Some(Player::Program));

    let second = service.handle(PebblesAction::GiveUp, 5, 6);
    assert_eq!(second, Ok(Some(PebblesEvent::Won(Player::Program))));
    let after_second = service.state().expect("Failed to read game state");
    assert_eq!(after_second, after_first);
}

#[test]
fn test_turn_after_finish_rejected() {
    let mut service = PebblesService::new();
    assert!(service.init(easy_init(15, 3), 0, 0).is_ok());
    assert!(service.handle(PebblesAction::GiveUp, 0, 0).is_ok());
    let res = service.handle(PebblesAction::Turn(1), 0, 0);
    assert_eq!(res, Err(GameError::InvalidMove));
    let game_state = service.state().expect("Failed to read game state");
    assert_eq!(game_state.pebbles_remaining, 15);
    assert_eq!(game_state.winner, Some(Player::Program));
}

#[test]
fn test_commands_before_init_rejected() {
    let mut service = PebblesService::new();
    assert_eq!(service.state(), Err(GameError::UninitializedState));
    assert_eq!(service.handle(PebblesAction::Turn(1), 0, 0), Err(GameError::UninitializedState));
    assert_eq!(service.handle(PebblesAction::GiveUp, 0, 0), Err(GameError::UninitializedState));
}

#[test]
fn test_user_wins_on_emptying_move() {
    let mut service = PebblesService::new();
    assert!(service.init(easy_init(3, 3), 0, 0).is_ok());
    let res = service.handle(PebblesAction::Turn(3), 0, 0);
    assert_eq!(res, Ok(Some(PebblesEvent::Won(Player::User))));
    let game_state = service.state().expect("Failed to read game state");
    assert_eq!(game_state.pebbles_remaining, 0);
    assert_eq!(game_state.winner, Some(Player::User));
}

#[test]
fn test_program_wins_by_counter_move() {
    // After the user's move two pebbles are left; the draw maps to an easy
    // move of 2, which empties the pile and the program wins.
    let mut service = PebblesService::new();
    assert!(service.init(easy_init(4, 3), 0, 0).is_ok());
    let res = service.handle(PebblesAction::Turn(2), 0, 1);
    assert_eq!(res, Ok(Some(PebblesEvent::Won(Player::Program))));
    let game_state = service.state().expect("Failed to read game state");
    assert_eq!(game_state.pebbles_remaining, 0);
    assert_eq!(game_state.winner, Some(Player::Program));
}

#[test]
fn test_easy_move_clamped_to_pile() {
    // One pebble is left for the program but the draw maps to 2: the applied
    // move is clamped to the pile, the program takes the last pebble and
    // wins.
    let mut service = PebblesService::new();
    assert!(service.init(easy_init(2, 2), 0, 0).is_ok());
    let res = service.handle(PebblesAction::Turn(1), 0, 1);
    assert_eq!(res, Ok(Some(PebblesEvent::Won(Player::Program))));
    let game_state = service.state().expect("Failed to read game state");
    assert_eq!(game_state.pebbles_remaining, 0);
    assert_eq!(game_state.winner, Some(Player::Program));
}

#[test]
fn test_restart_replaces_record() {
    let mut service = PebblesService::new();
    assert!(service.init(easy_init(15, 3), 0, 0).is_ok());
    assert!(service.handle(PebblesAction::Turn(3), 0, 0).is_ok());

    // Restart discards the old record wholesale; with the program drawn
    // first on hard difficulty, its opening move is applied at once and no
    // event reports it.
    let res = service.handle(
        PebblesAction::Restart {
            difficulty: DifficultyLevel::Hard,
            pebbles_count: 10,
            max_pebbles_per_turn: 3,
        },
        1,
        0,
    );
    assert_eq!(res, Ok(None));
    let game_state = service.state().expect("Failed to read game state");
    assert_eq!(game_state.pebbles_count, 10);
    assert_eq!(game_state.max_pebbles_per_turn, 3);
    assert_eq!(game_state.pebbles_remaining, 9);
    assert_eq!(game_state.difficulty, DifficultyLevel::Hard);
    assert_eq!(game_state.first_player, Player::Program);
    assert_eq!(game_state.winner, None);

    // An invalid restart is rejected and the record stays as it was.
    let res = service.handle(
        PebblesAction::Restart {
            difficulty: DifficultyLevel::Easy,
            pebbles_count: 0,
            max_pebbles_per_turn: 3,
        },
        0,
        0,
    );
    assert_eq!(res, Err(GameError::InvalidConfiguration));
    let unchanged = service.state().expect("Failed to read game state");
    assert_eq!(unchanged, game_state);
}

#[test]
fn test_invalid_configuration_variants() {
    let mut service = PebblesService::new();
    let zero_cap = PebblesInit {
        difficulty: DifficultyLevel::Easy,
        pebbles_count: 5,
        max_pebbles_per_turn: 0,
    };
    assert_eq!(service.init(zero_cap, 0, 0), Err(GameError::InvalidConfiguration));
    let cap_over_pile = PebblesInit {
        difficulty: DifficultyLevel::Easy,
        pebbles_count: 5,
        max_pebbles_per_turn: 6,
    };
    assert_eq!(service.init(cap_over_pile, 0, 0), Err(GameError::InvalidConfiguration));
    assert_eq!(service.state(), Err(GameError::UninitializedState));
}
