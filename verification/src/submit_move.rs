//! The single-move submission pipeline: resolve the caller, run the common
//! and replay checks, validate the action under the game's rules, create
//! the ledger record, apply the action with turn advancement, and stamp the
//! end time if the action ended the match.  A failure anywhere leaves both
//! the match and the ledger untouched.

use vstd::prelude::*;

use crate::bytes::{bytes_eq, copy_bytes, pad_bytes, padded};
use crate::dispatcher::{apply_action_state, move_validation, validate_move};
use crate::errors::GameError;
use crate::game_registry::{find_game_in, GameDefView, GameRegistry};
use crate::match_state::{find_player_in, Match, MatchView, PHASE_ENDED, PHASE_PLAYING};
use crate::move_state::{key_occupied, ledger_wf, LedgerEntryView, Move, MoveLedger, MoveView};
use crate::replay_protection::{last_nonce_of, timestamp_validation, ReplayProtection};
use crate::validation_base::CommonValidation;
use crate::claim_actions::apply_claim;

verus! {

/// `n` grown by one move, saturating at the counter's width.
pub open spec fn saturating_inc16(n: u16) -> u16 {
    if n == 0xFFFF {
        0xFFFFu16
    } else {
        (n + 1) as u16
    }
}

/// The ledger record a successful submission creates.
pub open spec fn new_move_record(
    m: MatchView,
    player: Seq<u8>,
    action_type: u8,
    payload: Seq<u8>,
    now: i64,
) -> MoveView {
    MoveView {
        match_id: m.match_id,
        player: player,
        move_index: m.move_count,
        action_type: action_type,
        payload: padded(payload, 128),
        payload_len: payload.len() as u8,
        timestamp: now as u32,
    }
}

/// The match record after a successful single move: the nonce persisted,
/// the action applied with the turn advancing, the end time stamped if the
/// action ended the match, and the move counter grown.
pub open spec fn submit_move_state(
    m: MatchView,
    p: int,
    action_type: u8,
    payload: Seq<u8>,
    nonce: u64,
    now: i64,
) -> MatchView {
    let noted = MatchView { last_nonce: m.last_nonce.update(p, nonce), ..m };
    let applied = apply_claim(noted, p, action_type, payload, true);
    let stamped = if applied.phase == PHASE_ENDED && applied.ended_at == 0 {
        MatchView { ended_at: now, ..applied }
    } else {
        applied
    };
    MatchView { move_count: saturating_inc16(stamped.move_count), ..stamped }
}

/// What a single-move submission decides, in check order: the identifier
/// must name this match; the match must be running with enough players; the
/// payload and identifier must fit their slots; the caller must be seated;
/// the timestamp, the nonce, and the ledger key must pass replay
/// protection; and the action must be legal under the game's rules.
pub open spec fn submit_move_result(
    m: MatchView,
    led: Seq<LedgerEntryView>,
    reg: Seq<GameDefView>,
    match_id: Seq<u8>,
    user_id: Seq<u8>,
    player: Seq<u8>,
    action_type: u8,
    payload: Seq<u8>,
    nonce: u64,
    now: i64,
) -> Result<(), GameError> {
    if match_id.len() != 36 || match_id != m.match_id {
        Err(GameError::InvalidPayload)
    } else if m.is_ended() {
        Err(GameError::MatchAlreadyEnded)
    } else if m.phase != PHASE_PLAYING {
        Err(GameError::InvalidPhase)
    } else {
        match find_game_in(reg, m.game_type) {
            None => Err(GameError::InvalidPayload),
            Some(g) => {
                if m.player_count < g.min_players {
                    Err(GameError::InsufficientPlayers)
                } else if payload.len() > 128 {
                    Err(GameError::InvalidPayload)
                } else if user_id.len() > 64 {
                    Err(GameError::InvalidPayload)
                } else {
                    match find_player_in(m, padded(user_id, 64)) {
                        None => Err(GameError::PlayerNotInMatch),
                        Some(p) => {
                            if p >= m.player_count {
                                Err(GameError::PlayerNotInMatch)
                            } else if timestamp_validation(m, now) is Err {
                                Err(GameError::InvalidTimestamp)
                            } else if nonce <= last_nonce_of(m, p) {
                                Err(GameError::InvalidNonce)
                            } else if key_occupied(led, match_id, player, nonce) {
                                Err(GameError::InvalidNonce)
                            } else {
                                move_validation(m, p, action_type, payload)
                            }
                        },
                    }
                }
            },
        }
    }
}

/// Submits one move.  On success the nonce is persisted, the move record
/// created, the action applied with the turn advancing, and the counters
/// updated; on failure nothing changes.
pub fn submit_move(
    match_account: &mut Match,
    ledger: &mut MoveLedger,
    registry: &GameRegistry,
    match_id: &Vec<u8>,
    user_id: &Vec<u8>,
    player: &Vec<u8>,
    action_type: u8,
    payload: &Vec<u8>,
    nonce: u64,
    now: i64,
) -> (r: Result<(), GameError>)
    requires
        old(match_account)@.wf(),
        old(match_account)@.phase_consistent(),
        ledger_wf(old(ledger)@),
        player@.len() == 32,
    ensures
        final(match_account)@.wf(),
        final(match_account)@.phase_consistent(),
        ledger_wf(final(ledger)@),
        r == submit_move_result(
            old(match_account)@,
            old(ledger)@,
            registry@,
            match_id@,
            user_id@,
            player@,
            action_type,
            payload@,
            nonce,
            now,
        ),
        r is Ok ==> final(match_account)@ == submit_move_state(
            old(match_account)@,
            find_player_in(old(match_account)@, padded(user_id@, 64)).unwrap(),
            action_type,
            payload@,
            nonce,
            now,
        ),
        r is Ok ==> final(ledger)@ == old(ledger)@.push(
            LedgerEntryView {
                nonce,
                record: new_move_record(
                    old(match_account)@,
                    player@,
                    action_type,
                    payload@,
                    now,
                ),
            },
        ),
        r is Err ==> final(match_account)@ == old(match_account)@ && final(ledger)@ == old(
            ledger,
        )@,
{
    // The submission must name this match.
    if !(match_id.len() == 36 && bytes_eq(match_id, &match_account.match_id)) {
        return Err(GameError::InvalidPayload);
    }

    // Common validations that apply to all games.
    match CommonValidation::validate_not_ended(match_account) {
        Ok(()) => (),
        Err(e) => {
            return Err(e);
        },
    }
    match CommonValidation::validate_phase(match_account, PHASE_PLAYING) {
        Ok(()) => (),
        Err(e) => {
            return Err(e);
        },
    }
    let has_min = match match_account.has_minimum_players(registry) {
        Ok(b) => b,
        Err(e) => {
            return Err(e);
        },
    };
    if !has_min {
        return Err(GameError::InsufficientPlayers);
    }
    match CommonValidation::validate_payload_size(payload, crate::move_state::MAX_PAYLOAD) {
        Ok(()) => (),
        Err(e) => {
            return Err(e);
        },
    }
    match CommonValidation::validate_user_id(user_id) {
        Ok(()) => (),
        Err(e) => {
            return Err(e);
        },
    }

    // Resolve the caller's roster slot by identity.
    let user_id_padded = pad_bytes(user_id, 64);
    let player_index = match match_account.find_player_index(&user_id_padded) {
        Some(i) => i,
        None => {
            return Err(GameError::PlayerNotInMatch);
        },
    };
    match CommonValidation::validate_player_in_match(match_account, player_index) {
        Ok(()) => (),
        Err(e) => {
            return Err(e);
        },
    }

    // Replay protection: timestamp, nonce counter, and ledger key.
    match ReplayProtection::validate_timestamp(match_account, now) {
        Ok(()) => (),
        Err(e) => {
            return Err(e);
        },
    }
    match ReplayProtection::validate_nonce(match_account, player_index, nonce) {
        Ok(()) => (),
        Err(e) => {
            return Err(e);
        },
    }
    if ledger.is_occupied(match_id, player, nonce) {
        return Err(GameError::InvalidNonce);
    }

    // Game-specific validation, including turn checks for the actions that
    // need them.
    match validate_move(match_account, player_index, action_type, payload) {
        Ok(()) => (),
        Err(e) => {
            return Err(e);
        },
    }

    // Everything passed: persist the nonce at acceptance time.
    match_account.set_last_nonce(player_index, nonce);

    // Create the append-only move record.
    let record = Move {
        match_id: copy_bytes(match_id),
        player: copy_bytes(player),
        move_index: match_account.move_count,
        action_type,
        payload: pad_bytes(payload, 128),
        payload_len: payload.len() as u8,
        timestamp: #[verifier::truncate] (now as u32),
    };
    match ledger.create_record(nonce, record) {
        Ok(()) => (),
        Err(e) => {
            return Err(e);
        },
    }

    // Apply the action; a single move advances the turn itself.
    match apply_action_state(match_account, player_index, action_type, payload, true) {
        Ok(()) => (),
        Err(e) => {
            return Err(e);
        },
    }

    // Stamp the end time if the action ended the match.
    let ghost mid = match_account@;
    if match_account.phase == PHASE_ENDED && match_account.ended_at == 0 {
        match_account.ended_at = now;
    }

    // Count the move, saturating at the counter's width.
    let mc = match_account.move_count;
    match_account.move_count = if mc < 0xFFFF {
        mc + 1
    } else {
        mc
    };

    proof {
        crate::match_state::lemma_nibbles_unchanged(mid, match_account@);
        assert(match_account@ =~= submit_move_state(
            old(match_account)@,
            player_index as int,
            action_type,
            payload@,
            nonce,
            now,
        ));
        assert(ledger@ =~= old(ledger)@.push(
            LedgerEntryView {
                nonce,
                record: new_move_record(
                    old(match_account)@,
                    player@,
                    action_type,
                    payload@,
                    now,
                ),
            },
        ));
    }
    Ok(())
}

} // verus!
