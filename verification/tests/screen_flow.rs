use imposter_game::GameError;
use imposter_game::player::Player;
use imposter_game::round::GameCard;
use imposter_game::screen::{GameScreen, GameState};

fn roster(names: &[&str]) -> Vec<Player> {
    let mut players = Vec::new();
    for name in names {
        players.push(Player::new(name.to_string()));
    }
    players
}

fn started_game(names: &[&str], random_value: usize) -> GameState {
    let mut game = GameState::new(roster(names));
    game.select_category(
        "Animals".to_string(),
        "icon".to_string(),
        "otter".to_string(),
        random_value,
    )
    .unwrap();
    game
}

fn game_at_voting(names: &[&str], random_value: usize) -> GameState {
    let mut game = started_game(names, random_value);
    game.start_round();
    for _ in 0..names.len() {
        game.advance_card();
    }
    assert!(matches!(game.screen, GameScreen::Voting));
    game
}

#[test]
fn a_new_game_shows_category_selection() {
    let game = GameState::new(roster(&["A", "B", "C"]));
    assert!(matches!(game.screen, GameScreen::CategorySelection));
    assert!(game.round.cards.is_empty());
    assert_eq!(game.round.current_category, None);
    assert!(!game.restart_requested);
}

#[test]
fn selecting_a_category_deals_cards_and_reveals_it() {
    let game = started_game(&["A", "B", "C"], 7);
    match &game.screen {
        GameScreen::CategoryReveal {
            category_name,
            category_icon,
        } => {
            assert_eq!(category_name, "Animals");
            assert_eq!(category_icon, "icon");
        }
        other => panic!("expected the category reveal screen, got {other:?}"),
    }
    assert_eq!(game.round.imposter_index, 7 % 3);
    assert_eq!(game.round.cards.len(), 3);
}

#[test]
fn selecting_a_category_needs_three_players() {
    let mut game = GameState::new(roster(&["A", "B"]));
    let r = game.select_category(
        "Animals".to_string(),
        "icon".to_string(),
        "otter".to_string(),
        0,
    );
    assert_eq!(r, Err(GameError::InsufficientPlayers));
    assert!(matches!(game.screen, GameScreen::CategorySelection));
    assert!(game.round.cards.is_empty());
}

#[test]
fn selecting_a_category_is_ignored_off_the_selection_screen() {
    let mut game = started_game(&["A", "B", "C"], 0);
    let cards_before = game.round.cards.len();
    let r = game.select_category(
        "Food".to_string(),
        "icon".to_string(),
        "bread".to_string(),
        1,
    );
    assert_eq!(r, Ok(()));
    assert!(matches!(game.screen, GameScreen::CategoryReveal { .. }));
    assert_eq!(game.round.cards.len(), cards_before);
    assert_eq!(
        game.round.current_category,
        Some(("Animals".to_string(), "icon".to_string()))
    );
}

#[test]
fn hard_mode_toggles_only_on_the_reveal_screen() {
    let mut game = GameState::new(roster(&["A", "B", "C"]));
    game.toggle_hard_mode(true);
    assert!(!game.round.hide_imposter_identity);

    let mut game = started_game(&["A", "B", "C"], 0);
    game.toggle_hard_mode(true);
    assert!(game.round.hide_imposter_identity);
    assert!(matches!(game.screen, GameScreen::CategoryReveal { .. }));
    game.toggle_hard_mode(false);
    assert!(!game.round.hide_imposter_identity);
}

#[test]
fn back_returns_to_category_selection() {
    let mut game = started_game(&["A", "B", "C"], 0);
    game.back_to_categories();
    assert!(matches!(game.screen, GameScreen::CategorySelection));
}

#[test]
fn starting_the_round_shows_the_first_card() {
    let mut game = started_game(&["A", "B", "C"], 0);
    game.start_round();
    assert!(matches!(
        game.screen,
        GameScreen::CardView {
            current_player_index: 0
        }
    ));
}

#[test]
fn advancing_walks_the_cards_then_reaches_voting() {
    let mut game = started_game(&["A", "B", "C"], 0);
    game.start_round();
    game.advance_card();
    assert!(matches!(
        game.screen,
        GameScreen::CardView {
            current_player_index: 1
        }
    ));
    game.advance_card();
    assert!(matches!(
        game.screen,
        GameScreen::CardView {
            current_player_index: 2
        }
    ));
    game.advance_card();
    assert!(matches!(game.screen, GameScreen::Voting));
}

#[test]
fn advancing_past_the_last_of_three_active_players_goes_to_voting() {
    let mut game = GameState::new(roster(&["A", "B", "C"]));
    game.screen = GameScreen::CardView {
        current_player_index: 2,
    };
    game.advance_card();
    assert!(matches!(game.screen, GameScreen::Voting));
}

#[test]
fn evicting_the_imposter_resolves_the_round() {
    let mut game = game_at_voting(&["A", "B", "C"], 1);
    assert_eq!(game.round.imposter_index, 1);
    let r = game.request_evict(1);
    assert_eq!(r, Ok(()));
    assert!(matches!(
        game.screen,
        GameScreen::Elimination {
            eliminated_index: 1,
            was_imposter: true
        }
    ));
    assert!(game.players[1].is_eliminated);
    assert!(!game.players[0].is_eliminated);
    assert!(!game.players[2].is_eliminated);
}

#[test]
fn evicting_an_innocent_player_is_not_flagged_as_imposter() {
    let mut game = game_at_voting(&["A", "B", "C"], 1);
    let r = game.request_evict(2);
    assert_eq!(r, Ok(()));
    assert!(matches!(
        game.screen,
        GameScreen::Elimination {
            eliminated_index: 2,
            was_imposter: false
        }
    ));
}

#[test]
fn evicting_out_of_range_is_rejected_and_changes_nothing() {
    let mut game = game_at_voting(&["A", "B", "C"], 0);
    let r = game.request_evict(7);
    assert_eq!(r, Err(GameError::InvalidIndex));
    assert!(matches!(game.screen, GameScreen::Voting));
    assert!(game.players.iter().all(|p| !p.is_eliminated));
}

#[test]
fn evicting_an_eliminated_player_is_rejected() {
    let mut game = game_at_voting(&["A", "B", "C", "D"], 0);
    game.players[3].is_eliminated = true;
    let r = game.request_evict(3);
    assert_eq!(r, Err(GameError::InvalidIndex));
    assert!(matches!(game.screen, GameScreen::Voting));
}

#[test]
fn evicting_is_ignored_off_the_voting_screen() {
    let mut game = started_game(&["A", "B", "C"], 0);
    let r = game.request_evict(1);
    assert_eq!(r, Ok(()));
    assert!(matches!(game.screen, GameScreen::CategoryReveal { .. }));
    assert!(!game.players[1].is_eliminated);
}

#[test]
fn the_discussion_order_follows_the_rotation_seed() {
    let mut game = game_at_voting(&["A", "B", "C", "D"], 0);
    game.round.starting_player_index = 2;
    assert_eq!(game.discussion_order().unwrap(), vec![2, 3, 0, 1]);
}

#[test]
fn the_discussion_order_fails_once_nobody_is_active() {
    let mut game = game_at_voting(&["A", "B", "C"], 0);
    for p in game.players.iter_mut() {
        p.is_eliminated = true;
    }
    assert_eq!(game.discussion_order(), Err(GameError::NoActivePlayers));
}

#[test]
fn restarting_takes_a_confirmation_and_keeps_eliminations() {
    let mut game = game_at_voting(&["A", "B", "C", "D"], 0);
    game.players[2].is_eliminated = true;
    game.round.hide_imposter_identity = true;

    game.request_restart_round();
    assert!(game.restart_requested);
    assert!(matches!(game.screen, GameScreen::Voting));
    assert!(!game.round.cards.is_empty());

    game.cancel_restart_round();
    assert!(!game.restart_requested);
    assert!(matches!(game.screen, GameScreen::Voting));
    assert!(!game.round.cards.is_empty());

    game.confirm_restart_round();
    assert!(matches!(game.screen, GameScreen::Voting));

    game.request_restart_round();
    game.confirm_restart_round();
    assert!(matches!(game.screen, GameScreen::CategorySelection));
    assert!(!game.restart_requested);
    assert!(game.round.cards.is_empty());
    assert_eq!(game.round.current_category, None);
    assert!(game.players[2].is_eliminated);
    assert!(game.round.hide_imposter_identity);
}

#[test]
fn unrelated_intents_leave_other_screens_alone() {
    let mut game = GameState::new(roster(&["A", "B", "C"]));
    game.advance_card();
    assert!(matches!(game.screen, GameScreen::CategorySelection));
    game.back_to_categories();
    assert!(matches!(game.screen, GameScreen::CategorySelection));
    game.start_round();
    assert!(matches!(game.screen, GameScreen::CategorySelection));
    game.request_restart_round();
    assert!(!game.restart_requested);
}

#[test]
fn the_imposter_card_carries_no_word() {
    let game = started_game(&["A", "B", "C"], 5);
    let imposter = game.round.imposter_index;
    assert_eq!(imposter, 5 % 3);
    for (i, card) in game.round.cards.iter().enumerate() {
        if i == imposter {
            assert!(matches!(card, GameCard::Imposter));
        } else {
            match card {
                GameCard::Word(w) => assert_eq!(w, "otter"),
                GameCard::Imposter => panic!("only one imposter card may be dealt"),
            }
        }
    }
}
