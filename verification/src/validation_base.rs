//! Game-agnostic validation predicates.  Every game-specific validator
//! composes these; none reimplements them.

use vstd::prelude::*;

use crate::errors::GameError;
use crate::match_state::Match;

verus! {

/// Upper bound on a stored identifier.
pub const MAX_USER_ID_LEN: usize = 64;

/// Stateless validation shared by all games.
pub struct CommonValidation;

impl CommonValidation {
    /// The match must sit in `required_phase`.
    pub fn validate_phase(match_account: &Match, required_phase: u8) -> (r: Result<(), GameError>)
        ensures
            r == (if match_account@.phase == required_phase {
                Ok::<(), GameError>(())
            } else {
                Err::<(), GameError>(GameError::InvalidPhase)
            }),
    {
        if match_account.phase == required_phase {
            Ok(())
        } else {
            Err(GameError::InvalidPhase)
        }
    }

    /// The match must not have ended.
    pub fn validate_not_ended(match_account: &Match) -> (r: Result<(), GameError>)
        ensures
            r == (if !match_account@.is_ended() {
                Ok::<(), GameError>(())
            } else {
                Err::<(), GameError>(GameError::MatchAlreadyEnded)
            }),
    {
        if !match_account.is_ended() {
            Ok(())
        } else {
            Err(GameError::MatchAlreadyEnded)
        }
    }

    /// The caller must hold the turn.
    pub fn validate_player_turn(match_account: &Match, player_index: usize) -> (r: Result<
        (),
        GameError,
    >)
        ensures
            r == (if match_account@.current_player == player_index {
                Ok::<(), GameError>(())
            } else {
                Err::<(), GameError>(GameError::NotPlayerTurn)
            }),
    {
        if match_account.current_player as usize == player_index {
            Ok(())
        } else {
            Err(GameError::NotPlayerTurn)
        }
    }

    /// The caller's roster index must be filled.
    pub fn validate_player_in_match(match_account: &Match, player_index: usize) -> (r: Result<
        (),
        GameError,
    >)
        ensures
            r == (if player_index < match_account@.player_count {
                Ok::<(), GameError>(())
            } else {
                Err::<(), GameError>(GameError::PlayerNotInMatch)
            }),
    {
        if player_index < match_account.player_count as usize {
            Ok(())
        } else {
            Err(GameError::PlayerNotInMatch)
        }
    }

    /// The action tag must sit inside the game's action set.
    pub fn validate_action_type(action_type: u8, max_action: u8) -> (r: Result<(), GameError>)
        ensures
            r == (if action_type <= max_action {
                Ok::<(), GameError>(())
            } else {
                Err::<(), GameError>(GameError::InvalidAction)
            }),
    {
        if action_type <= max_action {
            Ok(())
        } else {
            Err(GameError::InvalidAction)
        }
    }

    /// The payload must fit the record's payload field.
    pub fn validate_payload_size(payload: &Vec<u8>, max_size: usize) -> (r: Result<(), GameError>)
        ensures
            r == (if payload@.len() <= max_size {
                Ok::<(), GameError>(())
            } else {
                Err::<(), GameError>(GameError::InvalidPayload)
            }),
    {
        if payload.len() <= max_size {
            Ok(())
        } else {
            Err(GameError::InvalidPayload)
        }
    }

    /// The identifier must fit the fixed-width identifier slot.
    pub fn validate_user_id(user_id: &Vec<u8>) -> (r: Result<(), GameError>)
        ensures
            r == (if user_id@.len() <= 64 {
                Ok::<(), GameError>(())
            } else {
                Err::<(), GameError>(GameError::InvalidPayload)
            }),
    {
        if user_id.len() <= MAX_USER_ID_LEN {
            Ok(())
        } else {
            Err(GameError::InvalidPayload)
        }
    }
}

} // verus!
