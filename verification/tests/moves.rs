//! Single-move submission: replay protection, floor-card flow, suit
//! exclusivity, rebuttals, and the terminal phase.

use ocentra_games::create_match::create_match;
use ocentra_games::errors::GameError;
use ocentra_games::game_registry::{GameDefinition, GameRegistry};
use ocentra_games::join_match::join_match;
use ocentra_games::match_state::Match;
use ocentra_games::move_state::MoveLedger;
use ocentra_games::start_match::start_match;
use ocentra_games::submit_move::submit_move;

fn registry(min_players: u8, max_players: u8) -> GameRegistry {
    let mut name = b"CLAIM".to_vec();
    name.resize(20, 0);
    GameRegistry {
        games: vec![GameDefinition {
            game_id: 0,
            name,
            min_players,
            max_players,
            rule_engine_url: vec![0u8; 200],
            version: 1,
            enabled: 1,
        }],
    }
}

fn match_id() -> Vec<u8> {
    b"11111111-2222-4333-8444-555555555555".to_vec()
}

fn authority() -> Vec<u8> {
    vec![7u8; 32]
}

fn signer_for(user: &[u8]) -> Vec<u8> {
    vec![user[0]; 32]
}

/// A playing two-player match (alice, then bob) created at time 1000.
fn playing() -> (Match, MoveLedger, GameRegistry) {
    let reg = registry(2, 4);
    let mut m = create_match(&reg, &match_id(), 0, 42, &authority(), 1_000).unwrap();
    join_match(&mut m, &reg, &match_id(), &b"alice".to_vec()).unwrap();
    join_match(&mut m, &reg, &match_id(), &b"bob".to_vec()).unwrap();
    start_match(&mut m, &reg, &match_id(), &authority()).unwrap();
    (m, MoveLedger::new(), reg)
}

fn submit(
    m: &mut Match,
    led: &mut MoveLedger,
    reg: &GameRegistry,
    user: &[u8],
    action: u8,
    payload: Vec<u8>,
    nonce: u64,
) -> Result<(), GameError> {
    submit_move(
        m,
        led,
        reg,
        &match_id(),
        &user.to_vec(),
        &signer_for(user),
        action,
        &payload,
        nonce,
        1_010,
    )
}

#[test]
fn reveal_then_pick_up_clears_floor() {
    let (mut m, mut led, reg) = playing();
    let hash = vec![9u8; 32];
    assert!(submit(&mut m, &mut led, &reg, b"alice", 5, hash.clone(), 1).is_ok());
    assert!(m.floor_card_revealed());
    assert_eq!(m.floor_card_hash, hash);

    assert!(submit(&mut m, &mut led, &reg, b"alice", 0, hash, 2).is_ok());
    assert!(!m.floor_card_revealed());
    assert!(m.floor_card_hash.iter().all(|&b| b == 0));
    assert_eq!(m.hand_sizes[0], 1);
    assert_eq!(m.current_player, 1);
    assert_eq!(m.move_count, 2);
}

#[test]
fn pick_up_with_wrong_hash_fails() {
    let (mut m, mut led, reg) = playing();
    let hash = vec![9u8; 32];
    assert!(submit(&mut m, &mut led, &reg, b"alice", 5, hash, 1).is_ok());
    let wrong = vec![8u8; 32];
    let r = submit(&mut m, &mut led, &reg, b"alice", 0, wrong, 2);
    assert_eq!(r.err(), Some(GameError::InvalidPayload));
    assert!(m.floor_card_revealed());
    assert_eq!(m.hand_sizes[0], 0);
}

#[test]
fn pick_up_without_reveal_fails_phase() {
    let (mut m, mut led, reg) = playing();
    let r = submit(&mut m, &mut led, &reg, b"alice", 0, vec![9u8; 32], 1);
    assert_eq!(r.err(), Some(GameError::InvalidPhase));
}

#[test]
fn decline_keeps_floor_and_advances_turn() {
    let (mut m, mut led, reg) = playing();
    let hash = vec![9u8; 32];
    assert!(submit(&mut m, &mut led, &reg, b"alice", 5, hash.clone(), 1).is_ok());
    assert!(submit(&mut m, &mut led, &reg, b"alice", 1, vec![], 2).is_ok());
    assert!(m.floor_card_revealed());
    assert_eq!(m.floor_card_hash, hash);
    assert_eq!(m.current_player, 1);
}

#[test]
fn out_of_turn_pick_up_fails() {
    let (mut m, mut led, reg) = playing();
    let hash = vec![9u8; 32];
    assert!(submit(&mut m, &mut led, &reg, b"alice", 5, hash.clone(), 1).is_ok());
    let r = submit(&mut m, &mut led, &reg, b"bob", 0, hash, 1);
    assert_eq!(r.err(), Some(GameError::NotPlayerTurn));
}

#[test]
fn replayed_nonce_fails() {
    let (mut m, mut led, reg) = playing();
    assert!(submit(&mut m, &mut led, &reg, b"alice", 2, vec![0], 5).is_ok());
    // The same nonce again, and anything below it, is refused.
    let r = submit(&mut m, &mut led, &reg, b"alice", 5, vec![9u8; 32], 5);
    assert_eq!(r.err(), Some(GameError::InvalidNonce));
    let r = submit(&mut m, &mut led, &reg, b"alice", 5, vec![9u8; 32], 4);
    assert_eq!(r.err(), Some(GameError::InvalidNonce));
    // A higher nonce goes through; gaps are allowed.
    assert!(submit(&mut m, &mut led, &reg, b"alice", 5, vec![9u8; 32], 100).is_ok());
    assert_eq!(m.last_nonce[0], 100);
}

#[test]
fn nonce_counters_are_per_player() {
    let (mut m, mut led, reg) = playing();
    assert!(submit(&mut m, &mut led, &reg, b"alice", 2, vec![0], 5).is_ok());
    // Bob's counter is independent of alice's.
    assert!(submit(&mut m, &mut led, &reg, b"bob", 2, vec![1], 1).is_ok());
    assert_eq!(m.last_nonce[0], 5);
    assert_eq!(m.last_nonce[1], 1);
}

#[test]
fn occupied_ledger_key_fails_even_with_fresh_counters() {
    let (mut m, mut led, reg) = playing();
    assert!(submit(&mut m, &mut led, &reg, b"alice", 2, vec![0], 7).is_ok());
    assert_eq!(led.len(), 1);

    // A fresh match record under the same identifier resets every nonce
    // counter, but the ledger still holds the key (match, signer, 7).
    let mut m2 = create_match(&reg, &match_id(), 0, 42, &authority(), 1_000).unwrap();
    join_match(&mut m2, &reg, &match_id(), &b"alice".to_vec()).unwrap();
    join_match(&mut m2, &reg, &match_id(), &b"bob".to_vec()).unwrap();
    start_match(&mut m2, &reg, &match_id(), &authority()).unwrap();

    let r = submit(&mut m2, &mut led, &reg, b"alice", 2, vec![1], 7);
    assert_eq!(r.err(), Some(GameError::InvalidNonce));
    assert_eq!(led.len(), 1);
    // A key with a different nonce is free.
    assert!(submit(&mut m2, &mut led, &reg, b"alice", 2, vec![1], 8).is_ok());
}

#[test]
fn suit_exclusivity() {
    let (mut m, mut led, reg) = playing();
    // Alice claims suit 2.
    assert!(submit(&mut m, &mut led, &reg, b"alice", 2, vec![2], 1).is_ok());
    assert_eq!(m.get_declared_suit(0), Some(2));
    // Bob cannot claim the same suit...
    let r = submit(&mut m, &mut led, &reg, b"bob", 2, vec![2], 1);
    assert_eq!(r.err(), Some(GameError::InvalidAction));
    // ...and alice cannot claim a second one.
    let r = submit(&mut m, &mut led, &reg, b"alice", 2, vec![1], 2);
    assert_eq!(r.err(), Some(GameError::InvalidAction));
    // Another suit is open to bob.
    assert!(submit(&mut m, &mut led, &reg, b"bob", 2, vec![3], 2).is_ok());
    assert_eq!(m.get_declared_suit(1), Some(3));
}

#[test]
fn declare_rejects_bad_suit_value() {
    let (mut m, mut led, reg) = playing();
    let r = submit(&mut m, &mut led, &reg, b"alice", 2, vec![4], 1);
    assert_eq!(r.err(), Some(GameError::InvalidPayload));
}

#[test]
fn showdown_needs_a_declaration() {
    let (mut m, mut led, reg) = playing();
    let r = submit(&mut m, &mut led, &reg, b"alice", 3, vec![], 1);
    assert_eq!(r.err(), Some(GameError::InvalidAction));
}

#[test]
fn showdown_ends_the_match() {
    let (mut m, mut led, reg) = playing();
    assert!(submit(&mut m, &mut led, &reg, b"alice", 2, vec![2], 1).is_ok());
    assert!(submit(&mut m, &mut led, &reg, b"alice", 3, vec![], 2).is_ok());
    assert_eq!(m.phase, 2);
    assert_eq!(m.ended_at, 1_010);
    assert!(m.is_ended());
}

#[test]
fn ended_match_refuses_everything() {
    let (mut m, mut led, reg) = playing();
    assert!(submit(&mut m, &mut led, &reg, b"alice", 2, vec![2], 1).is_ok());
    assert!(submit(&mut m, &mut led, &reg, b"alice", 3, vec![], 2).is_ok());
    // Even a perfectly valid declaration by the other player is refused.
    let r = submit(&mut m, &mut led, &reg, b"bob", 2, vec![1], 1);
    assert_eq!(r.err(), Some(GameError::MatchAlreadyEnded));
    // So is garbage.
    let r = submit(&mut m, &mut led, &reg, b"bob", 99, vec![255; 5], 2);
    assert_eq!(r.err(), Some(GameError::MatchAlreadyEnded));
}

#[test]
fn rebuttal_through_submission() {
    let (mut m, mut led, reg) = playing();
    // Bob, undeclared, proves a consecutive run of one suit.
    assert!(submit(&mut m, &mut led, &reg, b"bob", 4, vec![0, 5, 0, 6, 0, 7], 1).is_ok());
    // A mixed-suit run is refused.
    let r = submit(&mut m, &mut led, &reg, b"bob", 4, vec![0, 5, 0, 6, 1, 7], 2);
    assert_eq!(r.err(), Some(GameError::InvalidPayload));
}

#[test]
fn declared_player_cannot_rebut() {
    let (mut m, mut led, reg) = playing();
    assert!(submit(&mut m, &mut led, &reg, b"alice", 2, vec![2], 1).is_ok());
    let r = submit(&mut m, &mut led, &reg, b"alice", 4, vec![0, 5, 0, 6, 0, 7], 2);
    assert_eq!(r.err(), Some(GameError::InvalidAction));
}

#[test]
fn unknown_action_fails() {
    let (mut m, mut led, reg) = playing();
    let r = submit(&mut m, &mut led, &reg, b"alice", 6, vec![], 1);
    assert_eq!(r.err(), Some(GameError::InvalidAction));
}

#[test]
fn outsider_cannot_move() {
    let (mut m, mut led, reg) = playing();
    let r = submit(&mut m, &mut led, &reg, b"carol", 2, vec![0], 1);
    assert_eq!(r.err(), Some(GameError::PlayerNotInMatch));
}

#[test]
fn move_before_start_fails_phase() {
    let reg = registry(2, 4);
    let mut m = create_match(&reg, &match_id(), 0, 42, &authority(), 1_000).unwrap();
    join_match(&mut m, &reg, &match_id(), &b"alice".to_vec()).unwrap();
    join_match(&mut m, &reg, &match_id(), &b"bob".to_vec()).unwrap();
    let mut led = MoveLedger::new();
    let r = submit(&mut m, &mut led, &reg, b"alice", 2, vec![0], 1);
    assert_eq!(r.err(), Some(GameError::InvalidPhase));
}

#[test]
fn timestamp_before_creation_fails() {
    let (mut m, mut led, reg) = playing();
    let r = submit_move(
        &mut m,
        &mut led,
        &reg,
        &match_id(),
        &b"alice".to_vec(),
        &signer_for(b"alice"),
        2,
        &vec![0],
        1,
        999,
    );
    assert_eq!(r.err(), Some(GameError::InvalidTimestamp));
}

#[test]
fn stale_timestamp_fails_once_moves_exist() {
    let (mut m, mut led, reg) = playing();
    // The first move may arrive late: 3000 seconds past creation is fine,
    // and even later is fine while no move exists.
    assert!(
        submit_move(
            &mut m,
            &mut led,
            &reg,
            &match_id(),
            &b"alice".to_vec(),
            &signer_for(b"alice"),
            2,
            &vec![0],
            1,
            9_000,
        )
        .is_ok()
    );
    // Once a move exists, a submission beyond the window is refused.
    let r = submit_move(
        &mut m,
        &mut led,
        &reg,
        &match_id(),
        &b"bob".to_vec(),
        &signer_for(b"bob"),
        2,
        &vec![1],
        1,
        4_001,
    );
    assert_eq!(r.err(), Some(GameError::InvalidTimestamp));
    // Inside the window it goes through.
    assert!(
        submit_move(
            &mut m,
            &mut led,
            &reg,
            &match_id(),
            &b"bob".to_vec(),
            &signer_for(b"bob"),
            2,
            &vec![1],
            1,
            4_000,
        )
        .is_ok()
    );
}

#[test]
fn oversized_payload_fails() {
    let (mut m, mut led, reg) = playing();
    let r = submit(&mut m, &mut led, &reg, b"alice", 2, vec![0u8; 129], 1);
    assert_eq!(r.err(), Some(GameError::InvalidPayload));
}

#[test]
fn too_few_players_fails() {
    let (mut m, mut led, _) = playing();
    // The registry is external state: if it now demands three players, the
    // two-player match cannot accept moves.
    let stricter = registry(3, 4);
    let r = submit(&mut m, &mut led, &stricter, b"alice", 2, vec![0], 1);
    assert_eq!(r.err(), Some(GameError::InsufficientPlayers));
}

#[test]
fn ledger_records_the_move() {
    let (mut m, mut led, reg) = playing();
    assert!(submit(&mut m, &mut led, &reg, b"alice", 2, vec![3], 9).is_ok());
    assert_eq!(led.len(), 1);
    let entry = &led.entries[0];
    assert_eq!(entry.nonce, 9);
    assert_eq!(entry.record.match_id, match_id());
    assert_eq!(entry.record.player, signer_for(b"alice"));
    assert_eq!(entry.record.move_index, 0);
    assert_eq!(entry.record.action_type, 2);
    assert_eq!(entry.record.payload_len, 1);
    assert_eq!(entry.record.get_payload_slice(), &[3u8][..]);
    assert_eq!(entry.record.timestamp, 1_010);
    assert_eq!(m.move_count, 1);
}
