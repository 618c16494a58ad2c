//! Component-level checks: the packed encodings, the run validator, the
//! roster scan, and the small validators.

use ocentra_games::card_validation::CardGameValidation;
use ocentra_games::claim_validation::is_valid_run;
use ocentra_games::create_match::create_match;
use ocentra_games::dispatcher::{apply_action_state, validate_move};
use ocentra_games::errors::GameError;
use ocentra_games::game_registry::{GameDefinition, GameRegistry};
use ocentra_games::game_rules::{ClaimRules, GameRules};
use ocentra_games::hand_management::HandManagement;
use ocentra_games::join_match::join_match;
use ocentra_games::match_state::Match;
use ocentra_games::move_state::{Move, MoveLedger};
use ocentra_games::replay_protection::ReplayProtection;
use ocentra_games::suit_declarations::SuitDeclarations;
use ocentra_games::validation_base::CommonValidation;

fn registry(min_players: u8, max_players: u8) -> GameRegistry {
    let mut name = b"CLAIM".to_vec();
    name.resize(20, 0);
    GameRegistry {
        games: vec![GameDefinition {
            game_id: 0,
            name,
            min_players,
            max_players,
            rule_engine_url: vec![0u8; 200],
            version: 1,
            enabled: 1,
        }],
    }
}

fn match_id() -> Vec<u8> {
    b"11111111-2222-4333-8444-555555555555".to_vec()
}

fn fresh_match() -> Match {
    let reg = registry(2, 10);
    create_match(&reg, &match_id(), 0, 1, &vec![7u8; 32], 1_000).unwrap()
}

#[test]
fn run_validation_cases() {
    // A consecutive same-suit run passes.
    assert!(is_valid_run((0, 5), (0, 6), (0, 7)));
    // A mixed-suit run fails.
    assert!(!is_valid_run((0, 5), (0, 6), (1, 7)));
    // The ace-low / king / ace-high wraparound passes.
    assert!(is_valid_run((0, 2), (0, 13), (0, 14)));
    // A gapped run fails.
    assert!(!is_valid_run((0, 2), (0, 4), (0, 6)));
    // Order of the cards does not matter.
    assert!(is_valid_run((3, 7), (3, 5), (3, 6)));
    assert!(is_valid_run((1, 13), (1, 2), (1, 14)));
    // Pairs are not runs.
    assert!(!is_valid_run((0, 5), (0, 5), (0, 6)));
}

#[test]
fn declared_suits_pack_per_player() {
    let mut m = fresh_match();
    assert_eq!(m.get_declared_suit(0), None);
    m.set_declared_suit(0, 3);
    m.set_declared_suit(1, 0);
    m.set_declared_suit(9, 2);
    assert_eq!(m.get_declared_suit(0), Some(3));
    assert_eq!(m.get_declared_suit(1), Some(0));
    assert_eq!(m.get_declared_suit(9), Some(2));
    assert_eq!(m.get_declared_suit(2), None);
    // Players 0 and 1 share one packed byte: suit 3 as nibble 4, suit 0 as
    // nibble 1.
    assert_eq!(m.declared_suits[0], 0x14);
    assert!(m.has_declared_suit(9));
    assert!(!m.has_declared_suit(8));
    // Out-of-range indexes read as undeclared and write nothing.
    assert_eq!(m.get_declared_suit(10), None);
    m.set_declared_suit(10, 1);
    assert!(!m.is_suit_locked(1));
}

#[test]
fn suit_locking_scans_every_nibble() {
    let mut m = fresh_match();
    assert!(!m.is_suit_locked(2));
    m.set_declared_suit(5, 2);
    assert!(m.is_suit_locked(2));
    assert!(!m.is_suit_locked(0));
    assert!(!m.is_suit_locked(1));
    assert!(!m.is_suit_locked(3));
}

#[test]
fn flags_pack_into_one_byte() {
    let mut m = fresh_match();
    assert!(!m.floor_card_revealed());
    assert!(!m.all_players_joined());
    m.set_floor_card_revealed(true);
    assert!(m.floor_card_revealed());
    assert!(!m.all_players_joined());
    m.set_all_players_joined(true);
    assert!(m.floor_card_revealed());
    assert!(m.all_players_joined());
    assert_eq!(m.flags, 0x03);
    m.set_floor_card_revealed(false);
    assert!(!m.floor_card_revealed());
    assert!(m.all_players_joined());
}

#[test]
fn roster_scan_compares_zero_padded() {
    let reg = registry(2, 10);
    let mut m = fresh_match();
    join_match(&mut m, &reg, &match_id(), &b"alice".to_vec()).unwrap();
    join_match(&mut m, &reg, &match_id(), &b"ali".to_vec()).unwrap();
    assert_eq!(m.find_player_index(&b"alice".to_vec()), Some(0));
    assert_eq!(m.find_player_index(&b"ali".to_vec()), Some(1));
    assert_eq!(m.find_player_index(&b"al".to_vec()), None);
    assert!(m.has_player_id(&b"alice".to_vec()));
    assert!(!m.has_player_id(&b"bob".to_vec()));
}

#[test]
fn hand_sizes_saturate() {
    let mut m = fresh_match();
    assert_eq!(m.get_hand_size(3), 0);
    HandManagement::increment_hand_size(&mut m, 3);
    assert_eq!(m.get_hand_size(3), 1);
    m.set_hand_size(3, 255);
    HandManagement::increment_hand_size(&mut m, 3);
    assert_eq!(m.get_hand_size(3), 255);
    // Out-of-range indexes read zero.
    assert_eq!(m.get_hand_size(10), 0);
}

#[test]
fn hand_size_bounds() {
    assert!(HandManagement::validate_hand_size_bounds(1).is_ok());
    assert!(HandManagement::validate_hand_size_bounds(52).is_ok());
    assert_eq!(
        HandManagement::validate_hand_size_bounds(0).err(),
        Some(GameError::InvalidPayload)
    );
    assert_eq!(
        HandManagement::validate_hand_size_bounds(53).err(),
        Some(GameError::InvalidPayload)
    );
}

#[test]
fn hand_space_respects_cap() {
    let mut m = fresh_match();
    m.set_hand_size(0, 12);
    assert!(HandManagement::validate_hand_space(&m, 0, 13).is_ok());
    m.set_hand_size(0, 13);
    assert_eq!(
        HandManagement::validate_hand_space(&m, 0, 13).err(),
        Some(GameError::InvalidPayload)
    );
}

#[test]
fn committed_hand_hashes_sit_in_their_slots() {
    let mut m = fresh_match();
    assert_eq!(m.get_committed_hand_hash(2), None);
    let hash = (0u8..32).collect::<Vec<u8>>();
    m.set_committed_hand_hash(2, &hash);
    assert_eq!(m.get_committed_hand_hash(2), Some(hash.clone()));
    assert_eq!(m.get_committed_hand_hash(1), None);
    assert_eq!(m.get_committed_hand_hash(3), None);
    assert_eq!(m.get_committed_hand_hash(10), None);
    assert_eq!(m.committed_hand_hashes[64..96], hash[..]);
}

#[test]
fn floor_card_hash_slot() {
    let mut m = fresh_match();
    assert_eq!(m.get_floor_card_hash(), None);
    let hash = vec![5u8; 32];
    m.set_floor_card_hash(&hash);
    assert_eq!(m.get_floor_card_hash(), Some(hash));
    m.clear_floor_card_hash();
    assert_eq!(m.get_floor_card_hash(), None);
}

#[test]
fn nonce_validation_is_strict() {
    let mut m = fresh_match();
    m.set_last_nonce(0, 5);
    assert_eq!(
        ReplayProtection::validate_nonce(&m, 0, 5).err(),
        Some(GameError::InvalidNonce)
    );
    assert_eq!(
        ReplayProtection::validate_nonce(&m, 0, 4).err(),
        Some(GameError::InvalidNonce)
    );
    assert!(ReplayProtection::validate_nonce(&m, 0, 6).is_ok());
    assert_eq!(m.get_last_nonce(0), 5);
    assert_eq!(m.get_last_nonce(10), 0);
}

#[test]
fn timestamp_window() {
    let mut m = fresh_match();
    // Before creation: refused.
    assert_eq!(
        ReplayProtection::validate_timestamp(&m, 999).err(),
        Some(GameError::InvalidTimestamp)
    );
    // With no moves, any later time is accepted.
    assert!(ReplayProtection::validate_timestamp(&m, 1_000).is_ok());
    assert!(ReplayProtection::validate_timestamp(&m, 1_000_000).is_ok());
    // With a move on record, the staleness window applies.
    m.move_count = 1;
    assert!(ReplayProtection::validate_timestamp(&m, 4_000).is_ok());
    assert_eq!(
        ReplayProtection::validate_timestamp(&m, 4_001).err(),
        Some(GameError::InvalidTimestamp)
    );
}

#[test]
fn common_validators() {
    let mut m = fresh_match();
    assert!(CommonValidation::validate_phase(&m, 0).is_ok());
    assert_eq!(
        CommonValidation::validate_phase(&m, 1).err(),
        Some(GameError::InvalidPhase)
    );
    assert!(CommonValidation::validate_not_ended(&m).is_ok());
    m.ended_at = 2_000;
    assert_eq!(
        CommonValidation::validate_not_ended(&m).err(),
        Some(GameError::MatchAlreadyEnded)
    );
    assert!(CommonValidation::validate_player_turn(&m, 0).is_ok());
    assert_eq!(
        CommonValidation::validate_player_turn(&m, 1).err(),
        Some(GameError::NotPlayerTurn)
    );
    m.player_count = 2;
    assert!(CommonValidation::validate_player_in_match(&m, 1).is_ok());
    assert_eq!(
        CommonValidation::validate_player_in_match(&m, 2).err(),
        Some(GameError::PlayerNotInMatch)
    );
    assert!(CommonValidation::validate_action_type(5, 5).is_ok());
    assert_eq!(
        CommonValidation::validate_action_type(6, 5).err(),
        Some(GameError::InvalidAction)
    );
    assert!(CommonValidation::validate_payload_size(&vec![0u8; 128], 128).is_ok());
    assert_eq!(
        CommonValidation::validate_payload_size(&vec![0u8; 129], 128).err(),
        Some(GameError::InvalidPayload)
    );
    assert!(CommonValidation::validate_user_id(&vec![b'x'; 64]).is_ok());
    assert_eq!(
        CommonValidation::validate_user_id(&vec![b'x'; 65]).err(),
        Some(GameError::InvalidPayload)
    );
    assert!(ReplayProtection::check_account_exists(&vec![1u8; 32]).is_ok());
}

#[test]
fn suit_validators() {
    let mut m = fresh_match();
    assert!(SuitDeclarations::validate_suit(3).is_ok());
    assert_eq!(
        SuitDeclarations::validate_suit(4).err(),
        Some(GameError::InvalidPayload)
    );
    assert!(SuitDeclarations::validate_not_declared(&m, 0).is_ok());
    assert!(SuitDeclarations::validate_suit_not_locked(&m, 1).is_ok());
    SuitDeclarations::record_declaration(&mut m, 0, 1);
    assert_eq!(
        SuitDeclarations::validate_not_declared(&m, 0).err(),
        Some(GameError::InvalidAction)
    );
    assert_eq!(
        SuitDeclarations::validate_suit_not_locked(&m, 1).err(),
        Some(GameError::InvalidAction)
    );
}

#[test]
fn declare_intent_needs_payload_byte() {
    let m = fresh_match();
    assert_eq!(
        CardGameValidation::validate_declare_intent(&m, 0, &vec![]).err(),
        Some(GameError::InvalidPhase)  // still dealing
    );
    let mut playing = fresh_match();
    playing.phase = 1;
    assert_eq!(
        CardGameValidation::validate_declare_intent(&playing, 0, &vec![]).err(),
        Some(GameError::InvalidPayload)
    );
}

#[test]
fn move_record_payload_field() {
    let mut record = Move {
        match_id: match_id(),
        player: vec![1u8; 32],
        move_index: 0,
        action_type: 2,
        payload: vec![0u8; 128],
        payload_len: 0,
        timestamp: 1_000,
    };
    assert!(record.set_payload(&vec![1, 2, 3]).is_ok());
    assert_eq!(record.payload_len, 3);
    assert_eq!(record.get_payload_slice(), &[1u8, 2, 3][..]);
    assert_eq!(record.get_action_type(), 2);
    let r = record.set_payload(&vec![0u8; 129]);
    assert_eq!(r.err(), Some(GameError::InvalidPayload));
    assert_eq!(record.payload_len, 3);
}

#[test]
fn claim_rules_capability() {
    let rules = ClaimRules;
    assert_eq!(rules.max_hand_size(), 13);
    assert_eq!(rules.max_action_type(), 5);
    let mut m = fresh_match();
    m.phase = 1;
    m.player_count = 2;
    // Validation and application through the capability match the
    // dispatcher's behaviour.
    assert!(rules.validate_action(&m, 0, 2, &vec![1]).is_ok());
    assert!(rules.apply_action_state(&mut m, 0, 2, &vec![1], false).is_ok());
    assert_eq!(m.get_declared_suit(0), Some(1));
}

#[test]
fn unknown_game_type_is_refused() {
    let mut m = fresh_match();
    m.phase = 1;
    m.player_count = 2;
    m.game_type = 3;
    assert_eq!(
        validate_move(&m, 0, 2, &vec![1]).err(),
        Some(GameError::InvalidPayload)
    );
    assert_eq!(
        apply_action_state(&mut m, 0, 2, &vec![1], false).err(),
        Some(GameError::InvalidPayload)
    );
    assert_eq!(m.get_declared_suit(0), None);
}

#[test]
fn ledger_rejects_occupied_keys() {
    let mut led = MoveLedger::new();
    let record = Move {
        match_id: match_id(),
        player: vec![1u8; 32],
        move_index: 0,
        action_type: 2,
        payload: vec![0u8; 128],
        payload_len: 0,
        timestamp: 1_000,
    };
    let copy = Move {
        match_id: match_id(),
        player: vec![1u8; 32],
        move_index: 1,
        action_type: 3,
        payload: vec![0u8; 128],
        payload_len: 0,
        timestamp: 1_001,
    };
    assert!(led.create_record(7, record).is_ok());
    assert!(led.is_occupied(&match_id(), &vec![1u8; 32], 7));
    // The same key again is refused, whatever the record holds.
    let r = led.create_record(7, copy);
    assert_eq!(r.err(), Some(GameError::InvalidNonce));
    assert_eq!(led.len(), 1);
    // Another nonce or another player frees the key.
    assert!(!led.is_occupied(&match_id(), &vec![1u8; 32], 8));
    assert!(!led.is_occupied(&match_id(), &vec![2u8; 32], 7));
}
