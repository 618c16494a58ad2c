//! Batched submission: single-step turn advancement and atomicity.

use ocentra_games::create_match::create_match;
use ocentra_games::errors::GameError;
use ocentra_games::game_registry::{GameDefinition, GameRegistry};
use ocentra_games::join_match::join_match;
use ocentra_games::match_state::Match;
use ocentra_games::move_state::MoveLedger;
use ocentra_games::start_match::start_match;
use ocentra_games::submit_batch_moves::{submit_batch_moves, BatchMove};

fn registry(min_players: u8, max_players: u8) -> GameRegistry {
    let mut name = b"CLAIM".to_vec();
    name.resize(20, 0);
    GameRegistry {
        games: vec![GameDefinition {
            game_id: 0,
            name,
            min_players,
            max_players,
            rule_engine_url: vec![0u8; 200],
            version: 1,
            enabled: 1,
        }],
    }
}

fn match_id() -> Vec<u8> {
    b"11111111-2222-4333-8444-555555555555".to_vec()
}

fn authority() -> Vec<u8> {
    vec![7u8; 32]
}

fn signer() -> Vec<u8> {
    vec![1u8; 32]
}

/// A playing three-player match (alice, bob, carol) created at time 1000.
fn playing() -> (Match, MoveLedger, GameRegistry) {
    let reg = registry(2, 4);
    let mut m = create_match(&reg, &match_id(), 0, 42, &authority(), 1_000).unwrap();
    join_match(&mut m, &reg, &match_id(), &b"alice".to_vec()).unwrap();
    join_match(&mut m, &reg, &match_id(), &b"bob".to_vec()).unwrap();
    join_match(&mut m, &reg, &match_id(), &b"carol".to_vec()).unwrap();
    start_match(&mut m, &reg, &match_id(), &authority()).unwrap();
    (m, MoveLedger::new(), reg)
}

fn entry(action_type: u8, payload: Vec<u8>, nonce: u64) -> BatchMove {
    BatchMove { action_type, payload, nonce }
}

fn submit_batch(
    m: &mut Match,
    led: &mut MoveLedger,
    reg: &GameRegistry,
    user: &[u8],
    moves: Vec<BatchMove>,
) -> Result<(), GameError> {
    submit_batch_moves(m, led, reg, &match_id(), &user.to_vec(), &signer(), &moves, 1_010)
}

#[test]
fn five_entry_batch_advances_turn_once() {
    let (mut m, mut led, reg) = playing();
    let hash = vec![9u8; 32];
    // Five entries in alice's turn: three rebuttal proofs, a floor-card
    // reveal, and a pick-up of the revealed card as the turn-consuming
    // last entry.
    let moves = vec![
        entry(4, vec![0, 5, 0, 6, 0, 7], 1),
        entry(4, vec![1, 9, 1, 10, 1, 11], 2),
        entry(4, vec![2, 2, 2, 13, 2, 14], 3),
        entry(5, hash.clone(), 4),
        entry(0, hash.clone(), 5),
    ];
    assert!(submit_batch(&mut m, &mut led, &reg, b"alice", moves).is_ok());
    // Five entries were accepted...
    assert_eq!(m.move_count, 5);
    assert_eq!(led.len(), 5);
    // ...but the turn moved exactly one step, to bob — not five.
    assert_eq!(m.current_player, 1);
    assert_eq!(m.hand_sizes[0], 1);
    assert!(!m.floor_card_revealed());
}

#[test]
fn batch_ending_in_side_move_keeps_turn() {
    let (mut m, mut led, reg) = playing();
    // A rebuttal proof while still undeclared, then a suit declaration:
    // neither consumes the turn.
    let moves = vec![
        entry(4, vec![0, 5, 0, 6, 0, 7], 1),
        entry(2, vec![2], 2),
    ];
    assert!(submit_batch(&mut m, &mut led, &reg, b"alice", moves).is_ok());
    // Neither entry consumed the turn: alice still holds it.
    assert_eq!(m.current_player, 0);
    assert_eq!(m.move_count, 2);
}

#[test]
fn batch_from_non_turn_holder_fails_before_any_entry() {
    let (mut m, mut led, reg) = playing();
    let moves = vec![entry(2, vec![2], 1)];
    let r = submit_batch(&mut m, &mut led, &reg, b"bob", moves);
    assert_eq!(r.err(), Some(GameError::NotPlayerTurn));
    assert_eq!(m.move_count, 0);
    assert_eq!(led.len(), 0);
}

#[test]
fn failing_entry_rolls_back_the_whole_batch() {
    let (mut m, mut led, reg) = playing();
    let hash = vec![9u8; 32];
    let moves = vec![
        entry(5, hash.clone(), 1),
        entry(2, vec![2], 2),
        entry(2, vec![2], 3),  // alice declaring twice: fails
    ];
    let r = submit_batch(&mut m, &mut led, &reg, b"alice", moves);
    assert_eq!(r.err(), Some(GameError::InvalidAction));
    // Nothing of the earlier entries survives.
    assert_eq!(m.move_count, 0);
    assert_eq!(led.len(), 0);
    assert!(!m.floor_card_revealed());
    assert_eq!(m.get_declared_suit(0), None);
    assert_eq!(m.last_nonce[0], 0);
}

#[test]
fn empty_and_oversized_batches_fail() {
    let (mut m, mut led, reg) = playing();
    let r = submit_batch(&mut m, &mut led, &reg, b"alice", vec![]);
    assert_eq!(r.err(), Some(GameError::InvalidPayload));
    let moves = vec![
        entry(2, vec![0], 1),
        entry(2, vec![1], 2),
        entry(2, vec![2], 3),
        entry(2, vec![3], 4),
        entry(4, vec![0, 5, 0, 6, 0, 7], 5),
        entry(1, vec![], 6),
    ];
    let r = submit_batch(&mut m, &mut led, &reg, b"alice", moves);
    assert_eq!(r.err(), Some(GameError::InvalidPayload));
}

#[test]
fn batch_nonces_must_increase_within_the_batch() {
    let (mut m, mut led, reg) = playing();
    let moves = vec![
        entry(4, vec![0, 5, 0, 6, 0, 7], 2),
        entry(4, vec![1, 9, 1, 10, 1, 11], 2),  // same nonce again
    ];
    let r = submit_batch(&mut m, &mut led, &reg, b"alice", moves);
    assert_eq!(r.err(), Some(GameError::InvalidNonce));
    assert_eq!(m.move_count, 0);
    assert_eq!(led.len(), 0);
}

#[test]
fn showdown_inside_batch_ends_match_and_blocks_later_entries() {
    let (mut m, mut led, reg) = playing();
    let moves = vec![
        entry(2, vec![2], 1),
        entry(3, vec![], 2),
    ];
    assert!(submit_batch(&mut m, &mut led, &reg, b"alice", moves).is_ok());
    assert_eq!(m.phase, 2);
    assert_eq!(m.ended_at, 1_010);
    // A batch whose showdown is followed by another entry fails whole.
    let (mut m2, mut led2, reg2) = playing();
    let moves = vec![
        entry(2, vec![2], 1),
        entry(3, vec![], 2),
        entry(2, vec![1], 3),
    ];
    let r = submit_batch(&mut m2, &mut led2, &reg2, b"alice", moves);
    assert_eq!(r.err(), Some(GameError::InvalidPhase));
    assert_eq!(m2.phase, 1);
    assert_eq!(m2.move_count, 0);
    assert_eq!(led2.len(), 0);
}

#[test]
fn batch_records_carry_sequential_indices() {
    let (mut m, mut led, reg) = playing();
    let moves = vec![
        entry(4, vec![0, 5, 0, 6, 0, 7], 10),
        entry(4, vec![1, 9, 1, 10, 1, 11], 20),
    ];
    assert!(submit_batch(&mut m, &mut led, &reg, b"alice", moves).is_ok());
    assert_eq!(led.len(), 2);
    assert_eq!(led.entries[0].record.move_index, 0);
    assert_eq!(led.entries[1].record.move_index, 1);
    assert_eq!(led.entries[0].nonce, 10);
    assert_eq!(led.entries[1].nonce, 20);
    assert_eq!(m.last_nonce[0], 20);
}
