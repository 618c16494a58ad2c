//! Dispatch from a game type tag to the game's validation and action
//! application.  The set of games is small and closed, so dispatch is a
//! bounded match over the tag rather than an indirect call.

use vstd::prelude::*;

use crate::claim_actions::{apply_claim, apply_claim_action};
use crate::claim_validation::{claim_validation, validate_claim_action};
use crate::errors::GameError;
use crate::game_rules::CLAIM_MAX_ACTION_TYPE;
use crate::match_state::{Match, MatchView};

verus! {

/// The CLAIM game's tag.
pub const GAME_TYPE_CLAIM: u8 = 0;

/// What move validation decides: an action tag outside the game's set is an
/// invalid action, an unknown game type an invalid payload; everything else
/// is the game's own validation.
pub open spec fn move_validation(m: MatchView, p: int, action_type: u8, payload: Seq<u8>) -> Result<
    (),
    GameError,
> {
    if m.game_type == GAME_TYPE_CLAIM {
        if action_type > CLAIM_MAX_ACTION_TYPE {
            Err(GameError::InvalidAction)
        } else {
            claim_validation(m, p, action_type, payload)
        }
    } else {
        Err(GameError::InvalidPayload)
    }
}

/// What applying a move through the dispatcher yields: the game's own
/// application, or an invalid payload for an unknown game type.
pub open spec fn move_application(
    m: MatchView,
    p: int,
    action_type: u8,
    payload: Seq<u8>,
    advance_turn: bool,
) -> Result<MatchView, GameError> {
    if m.game_type == GAME_TYPE_CLAIM {
        Ok(apply_claim(m, p, action_type, payload, advance_turn))
    } else {
        Err(GameError::InvalidPayload)
    }
}

/// Validates an action under the rules of the match's game.
pub fn validate_move(
    match_account: &Match,
    player_index: usize,
    action_type: u8,
    payload: &Vec<u8>,
) -> (r: Result<(), GameError>)
    requires
        match_account@.wf(),
    ensures
        r == move_validation(match_account@, player_index as int, action_type, payload@),
{
    match match_account.game_type {
        0 => {
            // CLAIM game
            if action_type > CLAIM_MAX_ACTION_TYPE {
                return Err(GameError::InvalidAction);
            }
            validate_claim_action(match_account, player_index, action_type, payload)
        },
        _ => Err(GameError::InvalidPayload),
    }
}

/// Applies a validated action under the rules of the match's game.
/// `advance_turn` is true for single moves and false inside a batch, whose
/// turn advances once at the end.
pub fn apply_action_state(
    match_account: &mut Match,
    player_index: usize,
    action_type: u8,
    payload: &Vec<u8>,
    advance_turn: bool,
) -> (r: Result<(), GameError>)
    requires
        old(match_account)@.wf(),
        player_index < old(match_account)@.player_count,
    ensures
        final(match_account)@.wf(),
        match move_application(
            old(match_account)@,
            player_index as int,
            action_type,
            payload@,
            advance_turn,
        ) {
            Ok(m2) => r == Ok::<(), GameError>(()) && final(match_account)@ == m2,
            Err(e) => r == Err::<(), GameError>(e) && final(match_account)@ == old(
                match_account,
            )@,
        },
{
    match match_account.game_type {
        0 => {
            // CLAIM game
            apply_claim_action(match_account, player_index, action_type, payload, advance_turn)
        },
        _ => Err(GameError::InvalidPayload),
    }
}

} // verus!
