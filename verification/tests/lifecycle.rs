//! Match lifecycle: creation, joining, and starting.

use ocentra_games::create_match::create_match;
use ocentra_games::errors::GameError;
use ocentra_games::game_registry::{GameDefinition, GameRegistry};
use ocentra_games::join_match::join_match;
use ocentra_games::match_state::Match;
use ocentra_games::start_match::start_match;

fn registry(min_players: u8, max_players: u8) -> GameRegistry {
    let mut name = b"CLAIM".to_vec();
    name.resize(20, 0);
    GameRegistry {
        games: vec![GameDefinition {
            game_id: 0,
            name,
            min_players,
            max_players,
            rule_engine_url: vec![0u8; 200],
            version: 1,
            enabled: 1,
        }],
    }
}

fn match_id() -> Vec<u8> {
    b"11111111-2222-4333-8444-555555555555".to_vec()
}

fn authority() -> Vec<u8> {
    vec![7u8; 32]
}

fn new_match(reg: &GameRegistry) -> Match {
    create_match(reg, &match_id(), 0, 42, &authority(), 1_000).unwrap()
}

#[test]
fn create_fills_defaults() {
    let reg = registry(2, 4);
    let m = new_match(&reg);
    assert_eq!(m.match_id, match_id());
    assert_eq!(m.game_type, 0);
    assert_eq!(m.seed, 42);
    assert_eq!(m.phase, 0);
    assert_eq!(m.current_player, 0);
    assert_eq!(m.player_count, 0);
    assert_eq!(m.move_count, 0);
    assert_eq!(m.created_at, 1_000);
    assert_eq!(m.ended_at, 0);
    assert_eq!(m.authority, authority());
    assert_eq!(m.flags, 0);
    assert_eq!(m.version[..5], *b"1.0.0");
    assert_eq!(m.game_name[..5], *b"CLAIM");
    assert!(m.floor_card_hash.iter().all(|&b| b == 0));
    assert_eq!(m.last_nonce, vec![0u64; 10]);
}

#[test]
fn create_rejects_bad_id_length() {
    let reg = registry(2, 4);
    let r = create_match(&reg, &b"short".to_vec(), 0, 1, &authority(), 1_000);
    assert_eq!(r.err(), Some(GameError::InvalidPayload));
}

#[test]
fn create_rejects_unknown_game() {
    let reg = registry(2, 4);
    let r = create_match(&reg, &match_id(), 9, 1, &authority(), 1_000);
    assert_eq!(r.err(), Some(GameError::InvalidPayload));
}

#[test]
fn create_rejects_disabled_game() {
    let mut reg = registry(2, 4);
    reg.games[0].enabled = 0;
    let r = create_match(&reg, &match_id(), 0, 1, &authority(), 1_000);
    assert_eq!(r.err(), Some(GameError::InvalidPayload));
}

#[test]
fn join_seats_players_in_order() {
    let reg = registry(2, 4);
    let mut m = new_match(&reg);
    assert!(join_match(&mut m, &reg, &match_id(), &b"alice".to_vec()).is_ok());
    assert!(join_match(&mut m, &reg, &match_id(), &b"bob".to_vec()).is_ok());
    assert_eq!(m.player_count, 2);
    assert_eq!(m.player_ids[0][..5], *b"alice");
    assert!(m.player_ids[0][5..].iter().all(|&b| b == 0));
    assert_eq!(m.player_ids[1][..3], *b"bob");
}

#[test]
fn fifth_join_fails_match_full() {
    let reg = registry(2, 4);
    let mut m = new_match(&reg);
    for id in [b"p1".to_vec(), b"p2".to_vec(), b"p3".to_vec(), b"p4".to_vec()] {
        assert!(join_match(&mut m, &reg, &match_id(), &id).is_ok());
    }
    let r = join_match(&mut m, &reg, &match_id(), &b"p5".to_vec());
    assert_eq!(r.err(), Some(GameError::MatchFull));
    assert_eq!(m.player_count, 4);
}

#[test]
fn duplicate_join_fails_duplicate_guard() {
    let reg = registry(2, 4);
    let mut m = new_match(&reg);
    assert!(join_match(&mut m, &reg, &match_id(), &b"alice".to_vec()).is_ok());
    let r = join_match(&mut m, &reg, &match_id(), &b"alice".to_vec());
    assert_eq!(r.err(), Some(GameError::PlayerNotInMatch));
    assert_eq!(m.player_count, 1);
}

#[test]
fn join_rejects_wrong_match_id() {
    let reg = registry(2, 4);
    let mut m = new_match(&reg);
    let other = b"99999999-2222-4333-8444-555555555555".to_vec();
    let r = join_match(&mut m, &reg, &other, &b"alice".to_vec());
    assert_eq!(r.err(), Some(GameError::InvalidPayload));
}

#[test]
fn join_rejects_oversized_identity() {
    let reg = registry(2, 4);
    let mut m = new_match(&reg);
    let long_id = vec![b'x'; 65];
    let r = join_match(&mut m, &reg, &match_id(), &long_id);
    assert_eq!(r.err(), Some(GameError::InvalidPayload));
}

#[test]
fn join_after_start_fails_phase() {
    let reg = registry(2, 4);
    let mut m = new_match(&reg);
    assert!(join_match(&mut m, &reg, &match_id(), &b"alice".to_vec()).is_ok());
    assert!(join_match(&mut m, &reg, &match_id(), &b"bob".to_vec()).is_ok());
    assert!(start_match(&mut m, &reg, &match_id(), &authority()).is_ok());
    let r = join_match(&mut m, &reg, &match_id(), &b"carol".to_vec());
    assert_eq!(r.err(), Some(GameError::InvalidPhase));
}

#[test]
fn start_moves_to_playing() {
    let reg = registry(2, 4);
    let mut m = new_match(&reg);
    assert!(join_match(&mut m, &reg, &match_id(), &b"alice".to_vec()).is_ok());
    assert!(join_match(&mut m, &reg, &match_id(), &b"bob".to_vec()).is_ok());
    assert!(start_match(&mut m, &reg, &match_id(), &authority()).is_ok());
    assert_eq!(m.phase, 1);
    assert!(m.all_players_joined());
    assert_eq!(m.current_player, 0);
}

#[test]
fn start_requires_authority() {
    let reg = registry(2, 4);
    let mut m = new_match(&reg);
    assert!(join_match(&mut m, &reg, &match_id(), &b"alice".to_vec()).is_ok());
    assert!(join_match(&mut m, &reg, &match_id(), &b"bob".to_vec()).is_ok());
    let wrong = vec![8u8; 32];
    let r = start_match(&mut m, &reg, &match_id(), &wrong);
    assert_eq!(r.err(), Some(GameError::Unauthorized));
    assert_eq!(m.phase, 0);
}

#[test]
fn start_needs_minimum_players() {
    let reg = registry(2, 4);
    let mut m = new_match(&reg);
    assert!(join_match(&mut m, &reg, &match_id(), &b"alice".to_vec()).is_ok());
    let r = start_match(&mut m, &reg, &match_id(), &authority());
    assert_eq!(r.err(), Some(GameError::InsufficientPlayers));
    assert_eq!(m.phase, 0);
}

#[test]
fn registry_lookup_finds_by_tag() {
    let reg = registry(2, 4);
    assert!(reg.find_game(0).is_some());
    assert!(reg.find_game(1).is_none());
    let g = reg.find_game(0).unwrap();
    assert_eq!(g.min_players, 2);
    assert_eq!(g.max_players, 4);
}
