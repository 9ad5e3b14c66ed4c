use card_wager::game::GameState;

// Game-flow operations can be invoked without a prior start_game; these
// calls are expected to be rejected, so the optimistic assertions panic.

#[test]
#[should_panic]
fn test_bussiness_logic_join_game() {
    let mut game_state2 = GameState::new();

    let result = game_state2.join_game("Alice".to_string());
    assert!(result.is_ok(), "Error joining game: {:?}", result.unwrap_err());
}

#[test]
#[should_panic]
fn test_bussiness_logic_reveal_cards() {
    let mut game_state2 = GameState::new();

    let result = game_state2.reveal_cards();
    assert!(result.is_ok(), "Error revealing cards: {:?}", result.unwrap_err());
}

#[test]
#[should_panic]
fn test_bussiness_logic_withdraw() {
    let mut game_state2 = GameState::new();

    let result = game_state2.withdraw_stake("Alice".to_string(), 100);
    assert!(result.is_ok(), "Error witdhrawing tokens: {:?}", result.unwrap_err());
}

#[test]
#[should_panic]
fn test_bussiness_logic_start() {
    let mut game_state2 = GameState::new();

    let status = game_state2.start_game("Alice".to_string(), 0);
    assert!(status.is_ok(), "Error starting game: {:?}", status.unwrap_err());

    let result = game_state2.reveal_cards();
    assert!(result.is_ok(), "Error revealing cards: {:?}", result.unwrap_err());
}

// Staking a zero amount is legal (protocol griefing, kept as designed).

#[test]
fn test_zero_stake() {
    let mut game_state3 = GameState::new();

    let stake1 = game_state3.stake_tokens("Alice".to_string(), 0);
    assert!(stake1.is_ok(), "Error in stake: {:?}", stake1.unwrap_err());
    let stake2 = game_state3.stake_tokens("Bob".to_string(), 0);
    assert!(stake2.is_ok(), "Error in stake: {:?}", stake2.unwrap_err());
}

// Withdrawing a zero amount is legal and succeeds trivially.

#[test]
fn test_withdraw_zero_amount() {
    let mut game_state3 = GameState::new();

    let stake1 = game_state3.stake_tokens("Alice".to_string(), 10);
    assert!(stake1.is_ok(), "Error in stake: {:?}", stake1.unwrap_err());

    let withdraw = game_state3.withdraw_stake("Alice".to_string(), 0);
    assert!(withdraw.is_ok(), "Error revealing cards: {:?}", withdraw.unwrap_err());
}

// A zero-amount bet can be placed and the game played to completion.

#[test]
fn test_bets_and_amount_with_zero() {
    let mut game_state3 = GameState::new();

    let stake1 = game_state3.stake_tokens("Alice".to_string(), 0);
    assert!(stake1.is_ok(), "Error in stake: {:?}", stake1.unwrap_err());
    let stake2 = game_state3.stake_tokens("Bob".to_string(), 0);
    assert!(stake2.is_ok(), "Error in stake: {:?}", stake2.unwrap_err());
    let start1 = game_state3.start_game("Alice".to_string(), 0);
    assert!(start1.is_ok(), "Error starting game: {:?}", start1.unwrap_err());
    let join1 = game_state3.join_game("Bob".to_string());
    assert!(join1.is_ok(), "Error joining game: {:?}", join1.unwrap_err());
    let reveal = game_state3.reveal_cards();
    assert!(reveal.is_ok(), "Error revealing cards: {:?}", reveal.unwrap_err());

    let withdraw = game_state3.withdraw_stake("Alice".to_string(), 0);
    assert!(withdraw.is_ok(), "Error revealing cards: {:?}", withdraw.unwrap_err());
}

// A settled game within the window reports Ok, so asserting the opposite
// panics; the stakes stay with the game until it settles.

#[test]
#[should_panic]
fn test_bets_are_lost() {
    let mut game_state3 = GameState::new();

    let stake1 = game_state3.stake_tokens("Alice".to_string(), 100);
    assert!(stake1.is_ok(), "Error in stake: {:?}", stake1.unwrap_err());
    let stake2 = game_state3.stake_tokens("Bob".to_string(), 200);
    assert!(stake2.is_ok(), "Error in stake: {:?}", stake2.unwrap_err());

    let start1 = game_state3.start_game("Alice".to_string(), 10);
    assert!(start1.is_ok(), "Error starting game: {:?}", start1.unwrap_err());
    let join1 = game_state3.join_game("Bob".to_string());
    assert!(join1.is_ok(), "Error joining game: {:?}", join1.unwrap_err());

    let reveal = game_state3.reveal_cards();

    let _result = game_state3.withdraw_stake("Alice".to_string(), 0);
    let _result = game_state3.withdraw_stake("Bob".to_string(), 0);

    assert!(!reveal.is_ok(), "Error time expired: {:?}", reveal.unwrap_err());
}

// Anyone can reset a freshly started game out from under its creator.

#[test]
#[should_panic]
fn test_initialize_dos_opponent() {
    let mut game_state3 = GameState::new();

    let stake1 = game_state3.stake_tokens("Alice".to_string(), 100);
    assert!(stake1.is_ok(), "Error in stake: {:?}", stake1.unwrap_err());
    let stake2 = game_state3.stake_tokens("Bob".to_string(), 200);
    assert!(stake2.is_ok(), "Error in stake: {:?}", stake2.unwrap_err());

    let start1 = game_state3.start_game("Alice".to_string(), 10);
    assert!(start1.is_ok(), "Error starting game: {:?}", start1.unwrap_err());

    game_state3.initialize();
    let join1 = game_state3.join_game("Bob".to_string());
    assert!(join1.is_ok(), "Error joining game: {:?}", join1.unwrap_err());

    let reveal = game_state3.reveal_cards();

    assert!(reveal.is_ok(), "Error time expired: {:?}", reveal.unwrap_err());
}

// Anyone can reset a joined game before its cards are revealed.

#[test]
#[should_panic]
fn test_initialize_dos_reveal() {
    let mut game_state3 = GameState::new();

    let stake1 = game_state3.stake_tokens("Alice".to_string(), 100);
    assert!(stake1.is_ok(), "Error in stake: {:?}", stake1.unwrap_err());
    let stake2 = game_state3.stake_tokens("Bob".to_string(), 200);
    assert!(stake2.is_ok(), "Error in stake: {:?}", stake2.unwrap_err());

    let start1 = game_state3.start_game("Alice".to_string(), 10);
    assert!(start1.is_ok(), "Error starting game: {:?}", start1.unwrap_err());

    let join1 = game_state3.join_game("Bob".to_string());
    assert!(join1.is_ok(), "Error joining game: {:?}", join1.unwrap_err());

    game_state3.initialize();

    let reveal = game_state3.reveal_cards();

    assert!(reveal.is_ok(), "Error time expired: {:?}", reveal.unwrap_err());
}

// A second join is rejected, which the optimistic assertion turns into a
// panic.

#[test]
#[should_panic]
fn test_join_fails() {
    let mut game_state3 = GameState::new();

    let stake1 = game_state3.stake_tokens("Alice".to_string(), 0);
    assert!(stake1.is_ok(), "Error in stake: {:?}", stake1.unwrap_err());
    let stake2 = game_state3.stake_tokens("Bob".to_string(), 0);
    assert!(stake2.is_ok(), "Error in stake: {:?}", stake2.unwrap_err());
    let start1 = game_state3.start_game("Alice".to_string(), 0);
    assert!(start1.is_ok(), "Error starting game: {:?}", start1.unwrap_err());
    let join1 = game_state3.join_game("Bob".to_string());
    assert!(join1.is_ok(), "Error joining game: {:?}", join1.unwrap_err());
    let join1 = game_state3.join_game("Bob".to_string());
    assert!(join1.is_ok(), "Error joining game: {:?}", join1.unwrap_err());

    let reveal = game_state3.reveal_cards();
    assert!(reveal.is_ok(), "Error revealing cards: {:?}", reveal.unwrap_err());
}
