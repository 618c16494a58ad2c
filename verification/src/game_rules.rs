//! The per-game capability: hand cap, action set, validation, and action
//! application.  Adding a game means adding an implementation and a
//! dispatcher branch; common validation and replay protection stay
//! untouched.

use vstd::prelude::*;

use crate::claim_validation::{claim_validation, validate_claim_action};
use crate::claim_actions::{apply_claim, apply_claim_action};
use crate::errors::GameError;
use crate::match_state::Match;

verus! {

/// CLAIM's hand cap.
pub const CLAIM_MAX_HAND_SIZE: u8 = 13;

/// CLAIM's highest action tag.
pub const CLAIM_MAX_ACTION_TYPE: u8 = 5;

/// Game-specific rules and validation.
pub trait GameRules {
    /// Maximum hand size for this game.
    fn max_hand_size(&self) -> u8;

    /// Maximum action type value for this game.
    fn max_action_type(&self) -> u8;

    /// Validates a game-specific action.
    fn validate_action(
        &self,
        match_account: &Match,
        player_index: usize,
        action_type: u8,
        payload: &Vec<u8>,
    ) -> (r: Result<(), GameError>)
        requires
            match_account@.wf(),
    ;

    /// Applies the state updates of a validated action.  `advance_turn`
    /// decides whether a turn-consuming action moves the turn pointer:
    /// true for single moves, false inside a batch, whose turn advances
    /// once at the end.
    fn apply_action_state(
        &self,
        match_account: &mut Match,
        player_index: usize,
        action_type: u8,
        payload: &Vec<u8>,
        advance_turn: bool,
    ) -> (r: Result<(), GameError>)
        requires
            old(match_account)@.wf(),
            player_index < old(match_account)@.player_count,
        ensures
            final(match_account)@.wf(),
    ;
}

/// The CLAIM game's rules.
pub struct ClaimRules;

impl GameRules for ClaimRules {
    fn max_hand_size(&self) -> (r: u8)
        ensures
            r == CLAIM_MAX_HAND_SIZE,
    {
        CLAIM_MAX_HAND_SIZE
    }

    fn max_action_type(&self) -> (r: u8)
        ensures
            r == CLAIM_MAX_ACTION_TYPE,
    {
        CLAIM_MAX_ACTION_TYPE
    }

    fn validate_action(
        &self,
        match_account: &Match,
        player_index: usize,
        action_type: u8,
        payload: &Vec<u8>,
    ) -> (r: Result<(), GameError>)
        ensures
            r == claim_validation(match_account@, player_index as int, action_type, payload@),
    {
        validate_claim_action(match_account, player_index, action_type, payload)
    }

    fn apply_action_state(
        &self,
        match_account: &mut Match,
        player_index: usize,
        action_type: u8,
        payload: &Vec<u8>,
        advance_turn: bool,
    ) -> (r: Result<(), GameError>)
        ensures
            r == Ok::<(), GameError>(()),
            final(match_account)@ == apply_claim(
                old(match_account)@,
                player_index as int,
                action_type,
                payload@,
                advance_turn,
            ),
    {
        apply_claim_action(match_account, player_index, action_type, payload, advance_turn)
    }
}

} // verus!
