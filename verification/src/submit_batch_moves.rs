//! The batched submission pipeline: up to five moves from one caller in
//! one atomic unit.  The caller must hold the turn before any entry is
//! processed — batching never interleaves players.  Each entry runs the
//! same nonce / ledger / validate / record / apply sequence as a single
//! move, but with turn advancement suppressed; the turn advances at most
//! once, after the last entry, and only if that entry consumed the turn.
//! Any entry failing rolls the whole batch back.

use vstd::prelude::*;

use crate::bytes::{bytes_eq, copy_bytes, pad_bytes, padded};
use crate::claim_actions::{apply_claim, next_player};
use crate::dispatcher::{apply_action_state, move_validation, validate_move};
use crate::errors::GameError;
use crate::game_registry::{find_game_in, GameDefView, GameRegistry};
use crate::match_state::{find_player_in, Match, MatchView, PHASE_ENDED, PHASE_PLAYING};
use crate::move_state::{
    key_occupied, ledger_wf, LedgerEntryView, Move, MoveLedger, MoveView, ACTION_DECLINE,
    ACTION_PICK_UP,
};
use crate::replay_protection::{last_nonce_of, ReplayProtection};
use crate::submit_move::saturating_inc16;
use crate::validation_base::CommonValidation;

verus! {

/// Most moves one batch may carry.
pub const MAX_BATCH_MOVES: usize = 5;

/// One entry of a batched submission.
pub struct BatchMove {
    pub action_type: u8,
    pub payload: Vec<u8>,
    pub nonce: u64,
}

/// The mathematical value of a [`BatchMove`].
#[verifier::ext_equal]
pub ghost struct BatchMoveView {
    pub action_type: u8,
    pub payload: Seq<u8>,
    pub nonce: u64,
}

impl View for BatchMove {
    type V = BatchMoveView;

    open spec fn view(&self) -> BatchMoveView {
        BatchMoveView {
            action_type: self.action_type,
            payload: self.payload@,
            nonce: self.nonce,
        }
    }
}

/// The views of a batch's entries.
pub open spec fn batch_views(moves: Seq<BatchMove>) -> Seq<BatchMoveView> {
    Seq::new(moves.len(), |i: int| moves[i]@)
}

/// What processing one batch entry yields: the per-entry checks in the
/// single-move order (payload size, nonce counter, ledger key, game
/// validation), then the nonce persisted, the record created under the
/// entry's nonce, the action applied without turn advancement, and the end
/// time stamped if the action ended the match.
pub open spec fn batch_entry_step(
    m: MatchView,
    led: Seq<LedgerEntryView>,
    player: Seq<u8>,
    p: int,
    e: BatchMoveView,
    cmi: u16,
    now: i64,
) -> Result<(MatchView, Seq<LedgerEntryView>, u16), GameError> {
    if e.payload.len() > 128 {
        Err(GameError::InvalidPayload)
    } else if e.nonce <= last_nonce_of(m, p) {
        Err(GameError::InvalidNonce)
    } else if key_occupied(led, m.match_id, player, e.nonce) {
        Err(GameError::InvalidNonce)
    } else {
        match move_validation(m, p, e.action_type, e.payload) {
            Err(err) => Err(err),
            Ok(()) => {
                let noted = MatchView { last_nonce: m.last_nonce.update(p, e.nonce), ..m };
                let record = MoveView {
                    match_id: m.match_id,
                    player: player,
                    move_index: cmi,
                    action_type: e.action_type,
                    payload: padded(e.payload, 128),
                    payload_len: e.payload.len() as u8,
                    timestamp: now as u32,
                };
                let applied = apply_claim(noted, p, e.action_type, e.payload, false);
                let stamped = if applied.phase == PHASE_ENDED && applied.ended_at == 0 {
                    MatchView { ended_at: now, ..applied }
                } else {
                    applied
                };
                Ok(
                    (
                        stamped,
                        led.push(LedgerEntryView { nonce: e.nonce, record }),
                        saturating_inc16(cmi),
                    ),
                )
            },
        }
    }
}

/// Processing the batch's entries from position `i` on: the first failing
/// entry fails the whole run.
pub open spec fn batch_run(
    m: MatchView,
    led: Seq<LedgerEntryView>,
    player: Seq<u8>,
    p: int,
    moves: Seq<BatchMoveView>,
    i: int,
    cmi: u16,
    now: i64,
) -> Result<(MatchView, Seq<LedgerEntryView>, u16), GameError>
    decreases moves.len() - i,
{
    if i < 0 || i >= moves.len() {
        Ok((m, led, cmi))
    } else {
        match batch_entry_step(m, led, player, p, moves[i], cmi, now) {
            Err(e) => Err(e),
            Ok((m2, led2, cmi2)) => batch_run(m2, led2, player, p, moves, i + 1, cmi2, now),
        }
    }
}

/// What a batched submission decides and yields.  The prechecks run in the
/// single-move order, with the turn held once for the whole batch; then the
/// entries run in order; then the move counter is stored and the turn
/// advances by exactly one step if the last entry was turn-consuming.
pub open spec fn submit_batch_result(
    m: MatchView,
    led: Seq<LedgerEntryView>,
    reg: Seq<GameDefView>,
    match_id: Seq<u8>,
    user_id: Seq<u8>,
    player: Seq<u8>,
    moves: Seq<BatchMoveView>,
    now: i64,
) -> Result<(MatchView, Seq<LedgerEntryView>), GameError> {
    if moves.len() == 0 || moves.len() > 5 {
        Err(GameError::InvalidPayload)
    } else if match_id.len() != 36 || match_id != m.match_id {
        Err(GameError::InvalidPayload)
    } else if m.is_ended() {
        Err(GameError::MatchAlreadyEnded)
    } else if m.phase != PHASE_PLAYING {
        Err(GameError::InvalidPhase)
    } else {
        match find_game_in(reg, m.game_type) {
            None => Err(GameError::InvalidPayload),
            Some(g) => {
                if m.player_count < g.min_players {
                    Err(GameError::InsufficientPlayers)
                } else if user_id.len() > 64 {
                    Err(GameError::InvalidPayload)
                } else {
                    match find_player_in(m, padded(user_id, 64)) {
                        None => Err(GameError::PlayerNotInMatch),
                        Some(p) => {
                            if p >= m.player_count {
                                Err(GameError::PlayerNotInMatch)
                            } else if m.current_player != p {
                                Err(GameError::NotPlayerTurn)
                            } else {
                                match batch_run(m, led, player, p, moves, 0, m.move_count, now) {
                                    Err(e) => Err(e),
                                    Ok((m2, led2, cmi2)) => {
                                        let counted = MatchView { move_count: cmi2, ..m2 };
                                        let last = moves[moves.len() - 1];
                                        let turned = if last.action_type == ACTION_PICK_UP
                                            || last.action_type == ACTION_DECLINE {
                                            MatchView {
                                                current_player: next_player(counted, p),
                                                ..counted
                                            }
                                        } else {
                                            counted
                                        };
                                        Ok((turned, led2))
                                    },
                                }
                            }
                        },
                    }
                }
            },
        }
    }
}

/// Submits up to five moves as one atomic unit.  On success every entry's
/// nonce and record are persisted, the actions are applied, and the turn
/// has advanced by exactly one step if the last entry consumed it; on any
/// failure neither the match nor the ledger changes.
pub fn submit_batch_moves(
    match_account: &mut Match,
    ledger: &mut MoveLedger,
    registry: &GameRegistry,
    match_id: &Vec<u8>,
    user_id: &Vec<u8>,
    player: &Vec<u8>,
    moves: &Vec<BatchMove>,
    now: i64,
) -> (r: Result<(), GameError>)
    requires
        old(match_account)@.wf(),
        old(match_account)@.phase_consistent(),
        ledger_wf(old(ledger)@),
        player@.len() == 32,
        now >= 1,
    ensures
        final(match_account)@.wf(),
        final(match_account)@.phase_consistent(),
        ledger_wf(final(ledger)@),
        match submit_batch_result(
            old(match_account)@,
            old(ledger)@,
            registry@,
            match_id@,
            user_id@,
            player@,
            batch_views(moves@),
            now,
        ) {
            Ok((m2, led2)) => r == Ok::<(), GameError>(()) && final(match_account)@ == m2
                && final(ledger)@ == led2,
            Err(e) => r == Err::<(), GameError>(e) && final(match_account)@ == old(
                match_account,
            )@ && final(ledger)@ == old(ledger)@,
        },
{
    let ghost m0 = old(match_account)@;
    let ghost led0 = old(ledger)@;
    let ghost mvs = batch_views(moves@);

    // A batch carries one to five moves.
    if moves.len() == 0 || moves.len() > MAX_BATCH_MOVES {
        return Err(GameError::InvalidPayload);
    }

    // The submission must name this match.
    if !(match_id.len() == 36 && bytes_eq(match_id, &match_account.match_id)) {
        return Err(GameError::InvalidPayload);
    }

    // Common validations that apply to all games.
    match CommonValidation::validate_not_ended(match_account) {
        Ok(()) => (),
        Err(e) => {
            return Err(e);
        },
    }
    match CommonValidation::validate_phase(match_account, PHASE_PLAYING) {
        Ok(()) => (),
        Err(e) => {
            return Err(e);
        },
    }
    let has_min = match match_account.has_minimum_players(registry) {
        Ok(b) => b,
        Err(e) => {
            return Err(e);
        },
    };
    if !has_min {
        return Err(GameError::InsufficientPlayers);
    }
    match CommonValidation::validate_user_id(user_id) {
        Ok(()) => (),
        Err(e) => {
            return Err(e);
        },
    }

    // Resolve the caller's roster slot by identity.
    let user_id_padded = pad_bytes(user_id, 64);
    let player_index = match match_account.find_player_index(&user_id_padded) {
        Some(i) => i,
        None => {
            return Err(GameError::PlayerNotInMatch);
        },
    };
    match CommonValidation::validate_player_in_match(match_account, player_index) {
        Ok(()) => (),
        Err(e) => {
            return Err(e);
        },
    }

    // The whole batch runs inside the caller's turn: holding the turn is
    // checked once, before any entry, so batches can never interleave
    // players or move the turn mid-run.
    match CommonValidation::validate_player_turn(match_account, player_index) {
        Ok(()) => (),
        Err(e) => {
            return Err(e);
        },
    }

    let ghost p = player_index as int;

    // Stage the batch on a copy of the record and directly on the ledger;
    // a failing entry rolls the ledger back and drops the copy.
    let mut working = match_account.duplicate();
    let ledger_mark = ledger.len();
    let mut current_move_index: u16 = working.move_count;
    let mut k: usize = 0;
    #[verifier::loop_isolation(false)]
    while k < moves.len()
        invariant
            k <= moves@.len(),
            moves@.len() == mvs.len() <= 5,
            mvs == batch_views(moves@),
            working@.wf(),
            working@.phase_consistent(),
            working@.player_count == m0.player_count,
            working@.match_id == m0.match_id,
            player_index < m0.player_count,
            m0.player_count <= 10,
            match_id@.len() == 36,
            match_id@ == m0.match_id,
            player@.len() == 32,
            now >= 1,
            ledger_wf(ledger@),
            ledger_mark <= ledger@.len(),
            ledger@.subrange(0, ledger_mark as int) == led0,
            ledger_mark == led0.len(),
            batch_run(m0, led0, player@, p, mvs, 0, m0.move_count, now) == batch_run(
                working@,
                ledger@,
                player@,
                p,
                mvs,
                k as int,
                current_move_index,
                now,
            ),
        decreases moves@.len() - k,
    {
        let ghost pre_m = working@;
        let ghost pre_led = ledger@;
        let ghost pre_cmi = current_move_index;
        let batch_move = &moves[k];
        proof {
            assert(mvs[k as int] == moves@[k as int]@);
        }

        // Per-entry checks, in the single-move order.
        let size_ok = match CommonValidation::validate_payload_size(
            &batch_move.payload,
            crate::move_state::MAX_PAYLOAD,
        ) {
            Ok(()) => true,
            Err(_) => false,
        };
        if !size_ok {
            ledger.entries.truncate(ledger_mark);
            proof {
                assert(ledger@ =~= led0);
            }
            return Err(GameError::InvalidPayload);
        }

        let nonce_ok = match ReplayProtection::validate_nonce(
            &working,
            player_index,
            batch_move.nonce,
        ) {
            Ok(()) => true,
            Err(_) => false,
        };
        if !nonce_ok {
            ledger.entries.truncate(ledger_mark);
            proof {
                assert(ledger@ =~= led0);
            }
            return Err(GameError::InvalidNonce);
        }

        if ledger.is_occupied(match_id, player, batch_move.nonce) {
            ledger.entries.truncate(ledger_mark);
            proof {
                assert(ledger@ =~= led0);
            }
            return Err(GameError::InvalidNonce);
        }

        match validate_move(&working, player_index, batch_move.action_type, &batch_move.payload) {
            Ok(()) => (),
            Err(e) => {
                ledger.entries.truncate(ledger_mark);
                proof {
                    assert(ledger@ =~= led0);
                    assert(batch_entry_step(pre_m, pre_led, player@, p, mvs[k as int], pre_cmi, now)
                        == Err::<(MatchView, Seq<LedgerEntryView>, u16), GameError>(e));
                }
                return Err(e);
            },
        }

        // Persist the nonce at acceptance time.
        working.set_last_nonce(player_index, batch_move.nonce);

        // Create the append-only move record under the entry's nonce.
        let record = Move {
            match_id: copy_bytes(match_id),
            player: copy_bytes(player),
            move_index: current_move_index,
            action_type: batch_move.action_type,
            payload: pad_bytes(&batch_move.payload, 128),
            payload_len: batch_move.payload.len() as u8,
            timestamp: #[verifier::truncate] (now as u32),
        };
        let ghost record_view = record@;
        match ledger.create_record(batch_move.nonce, record) {
            Ok(()) => (),
            Err(e) => {
                ledger.entries.truncate(ledger_mark);
                proof {
                    assert(ledger@ =~= led0);
                }
                return Err(e);
            },
        }

        // Apply the action without advancing the turn.
        match apply_action_state(
            &mut working,
            player_index,
            batch_move.action_type,
            &batch_move.payload,
            false,
        ) {
            Ok(()) => (),
            Err(e) => {
                ledger.entries.truncate(ledger_mark);
                proof {
                    assert(ledger@ =~= led0);
                }
                return Err(e);
            },
        }

        // Stamp the end time if the action ended the match.
        let ghost mid = working@;
        if working.phase == PHASE_ENDED && working.ended_at == 0 {
            working.ended_at = now;
        }
        proof {
            crate::match_state::lemma_nibbles_unchanged(mid, working@);
        }

        // Count the move, saturating at the counter's width.
        let cmi = current_move_index;
        current_move_index = if cmi < 0xFFFF {
            cmi + 1
        } else {
            cmi
        };

        proof {
            assert(ledger@ =~= pre_led.push(
                LedgerEntryView { nonce: mvs[k as int].nonce, record: record_view },
            ));
            assert(record_view =~= (MoveView {
                match_id: pre_m.match_id,
                player: player@,
                move_index: pre_cmi,
                action_type: mvs[k as int].action_type,
                payload: padded(mvs[k as int].payload, 128),
                payload_len: mvs[k as int].payload.len() as u8,
                timestamp: now as u32,
            }));
            assert(batch_entry_step(pre_m, pre_led, player@, p, mvs[k as int], pre_cmi, now)
                matches Ok(step) && step.0 =~= working@ && step.1 =~= ledger@ && step.2
                == current_move_index);
            assert(ledger@.subrange(0, ledger_mark as int) =~= led0);
        }
        k += 1;
    }

    // Store the batch's move counter.
    let ghost mid2 = working@;
    working.move_count = current_move_index;
    proof {
        crate::match_state::lemma_nibbles_unchanged(mid2, working@);
    }

    // The turn advances exactly once, and only if the last entry consumed
    // it; declarations and showdowns leave the turn pointer alone.
    let last_index = moves.len() - 1;
    let last_action = moves[last_index].action_type;
    if last_action == ACTION_PICK_UP || last_action == ACTION_DECLINE {
        let ghost mid3 = working@;
        let next = (player_index + 1) % working.player_count as usize;
        working.current_player = next as u8;
        proof {
            crate::match_state::lemma_nibbles_unchanged(mid3, working@);
        }
    }

    proof {
        let spec_r = submit_batch_result(
            m0,
            led0,
            registry@,
            match_id@,
            user_id@,
            player@,
            mvs,
            now,
        );
        assert(spec_r matches Ok(pair) && pair.0 =~= working@ && pair.1 =~= ledger@);
    }
    *match_account = working;
    Ok(())
}

} // verus!
