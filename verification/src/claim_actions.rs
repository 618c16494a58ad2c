//! CLAIM-specific action application: the state updates a validated action
//! makes, with turn advancement threaded as a parameter so one batch moves
//! the turn pointer at most once.

use vstd::prelude::*;

use crate::errors::GameError;
use crate::floor_card::FloorCard;
use crate::hand_management::{saturating_inc, HandManagement};
use crate::match_state::{
    with_declared_suit, with_floor_revealed, zero_hash, Match, MatchView, PHASE_ENDED,
};
use crate::move_state::{
    ACTION_CALL_SHOWDOWN, ACTION_DECLARE_INTENT, ACTION_DECLINE, ACTION_PICK_UP,
    ACTION_REVEAL_FLOOR_CARD,
};
use crate::suit_declarations::SuitDeclarations;

verus! {

/// The turn pointer after a turn-consuming action by player `p`.
pub open spec fn next_player(m: MatchView, p: int) -> u8 {
    (((p + 1) % (m.player_count as int)) as u8)
}

/// What applying one CLAIM action yields.  Unrecognized actions are a
/// no-op at this stage: validation has already rejected them, and the
/// application layer keeps its own guard.  The end timestamp of a showdown
/// is stamped by the submission pipeline, which knows the clock.
pub open spec fn apply_claim(
    m: MatchView,
    p: int,
    action_type: u8,
    payload: Seq<u8>,
    advance_turn: bool,
) -> MatchView {
    if action_type == ACTION_DECLARE_INTENT {
        if payload.len() >= 1 {
            with_declared_suit(m, p, payload[0])
        } else {
            m
        }
    } else if action_type == ACTION_PICK_UP {
        let cleared = MatchView { floor_card_hash: zero_hash(), ..with_floor_revealed(m, false) };
        let grown = if 0 <= p < 10 {
            MatchView {
                hand_sizes: cleared.hand_sizes.update(p, saturating_inc(cleared.hand_sizes[p])),
                ..cleared
            }
        } else {
            cleared
        };
        if advance_turn && 0 <= p < m.player_count {
            MatchView { current_player: next_player(m, p), ..grown }
        } else {
            grown
        }
    } else if action_type == ACTION_DECLINE {
        if advance_turn && 0 <= p < m.player_count {
            MatchView { current_player: next_player(m, p), ..m }
        } else {
            m
        }
    } else if action_type == ACTION_CALL_SHOWDOWN {
        MatchView { phase: PHASE_ENDED, ..m }
    } else if action_type == ACTION_REVEAL_FLOOR_CARD {
        if payload.len() >= 32 {
            MatchView { floor_card_hash: payload.subrange(0, 32), ..with_floor_revealed(m, true) }
        } else {
            m
        }
    } else {
        m
    }
}

/// Applies one validated CLAIM action to the match state.
pub fn apply_claim_action(
    match_account: &mut Match,
    player_index: usize,
    action_type: u8,
    payload: &Vec<u8>,
    advance_turn: bool,
) -> (r: Result<(), GameError>)
    requires
        old(match_account)@.wf(),
        player_index < old(match_account)@.player_count,
    ensures
        r == Ok::<(), GameError>(()),
        final(match_account)@.wf(),
        final(match_account)@ == apply_claim(
            old(match_account)@,
            player_index as int,
            action_type,
            payload@,
            advance_turn,
        ),
{
    match action_type {
        2 => {
            // Declare intent: record the declared suit.
            if payload.len() >= 1 {
                let suit = payload[0];
                SuitDeclarations::record_declaration(match_account, player_index, suit);
            }
        },
        0 => {
            // Pick up: clear the floor card, grow the hand, and advance the
            // turn when asked to.
            FloorCard::clear_floor_card(match_account);
            HandManagement::increment_hand_size(match_account, player_index);
            if advance_turn {
                let ghost mid = match_account@;
                let next = (player_index + 1) % match_account.player_count as usize;
                match_account.current_player = next as u8;
                proof {
                    crate::match_state::lemma_nibbles_unchanged(mid, match_account@);
                }
            }
        },
        1 => {
            // Decline: the floor card stays visible for the next player;
            // only the turn moves, when asked to.
            if advance_turn {
                let ghost mid = match_account@;
                let next = (player_index + 1) % match_account.player_count as usize;
                match_account.current_player = next as u8;
                proof {
                    crate::match_state::lemma_nibbles_unchanged(mid, match_account@);
                }
            }
        },
        3 => {
            // Call showdown: the match reaches its terminal phase.
            match_account.phase = PHASE_ENDED;
            proof {
                crate::match_state::lemma_nibbles_unchanged(old(match_account)@, match_account@);
            }
        },
        5 => {
            // Reveal floor card: store the commitment and raise the flag.
            if payload.len() >= 32 {
                let hash = vstd::slice::slice_to_vec(
                    vstd::slice::slice_subrange(payload.as_slice(), 0, 32),
                );
                match_account.set_floor_card_hash(&hash);
                match_account.set_floor_card_revealed(true);
            }
        },
        _ => {},
    }
    proof {
        assert(match_account@ =~= apply_claim(
            old(match_account)@,
            player_index as int,
            action_type,
            payload@,
            advance_turn,
        ));
    }
    Ok(())
}

} // verus!
