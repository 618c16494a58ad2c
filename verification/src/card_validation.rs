//! Card-game validation helpers shared by every game in the family; no
//! game-specific constants live here, caps arrive as parameters.

use vstd::prelude::*;

use crate::errors::GameError;
use crate::floor_card::{card_hash_validation, FloorCard};
use crate::hand_management::{hand_size_of, HandManagement};
use crate::match_state::{Match, MatchView, PHASE_PLAYING};
use crate::suit_declarations::SuitDeclarations;
use crate::validation_base::CommonValidation;

verus! {

broadcast use vstd::std_specs::control_flow::group_control_flow_axioms;

/// What pick-up validation decides, in check order: playing phase, the
/// caller's turn, a revealed floor card, a payload that carries a 32-byte
/// commitment equal to the stored floor-card hash, and room in the hand.
pub open spec fn pick_up_validation(
    m: MatchView,
    p: int,
    payload: Seq<u8>,
    max_hand_size: u8,
) -> Result<(), GameError> {
    if m.phase != PHASE_PLAYING {
        Err(GameError::InvalidPhase)
    } else if m.current_player != p {
        Err(GameError::NotPlayerTurn)
    } else if !m.floor_revealed() {
        Err(GameError::InvalidPhase)
    } else if payload.len() < 32 {
        Err(GameError::InvalidPayload)
    } else if card_hash_validation(m, payload.subrange(0, 32)) is Err {
        card_hash_validation(m, payload.subrange(0, 32))
    } else if hand_size_of(m, p) >= max_hand_size {
        Err(GameError::InvalidPayload)
    } else {
        Ok(())
    }
}

/// What decline validation decides: playing phase, the caller's turn, and
/// a revealed floor card.
pub open spec fn decline_validation(m: MatchView, p: int) -> Result<(), GameError> {
    if m.phase != PHASE_PLAYING {
        Err(GameError::InvalidPhase)
    } else if m.current_player != p {
        Err(GameError::NotPlayerTurn)
    } else if !m.floor_revealed() {
        Err(GameError::InvalidPhase)
    } else {
        Ok(())
    }
}

/// What declare-intent validation decides: playing phase, a payload whose
/// first byte names a suit, no earlier claim by the caller, and a suit not
/// locked by anyone else.
pub open spec fn declare_intent_validation(m: MatchView, p: int, payload: Seq<u8>) -> Result<
    (),
    GameError,
> {
    if m.phase != PHASE_PLAYING {
        Err(GameError::InvalidPhase)
    } else if payload.len() < 1 {
        Err(GameError::InvalidPayload)
    } else if payload[0] >= 4 {
        Err(GameError::InvalidPayload)
    } else if m.declared_suit(p) is Some {
        Err(GameError::InvalidAction)
    } else if m.suit_locked(payload[0]) {
        Err(GameError::InvalidAction)
    } else {
        Ok(())
    }
}

/// Validation helpers shared by the card games.
pub struct CardGameValidation;

impl CardGameValidation {
    /// Validates a pick-up against the game's hand cap.
    pub fn validate_pick_up(
        match_account: &Match,
        player_index: usize,
        payload: &Vec<u8>,
        max_hand_size: u8,
    ) -> (r: Result<(), GameError>)
        requires
            match_account@.wf(),
        ensures
            r == pick_up_validation(match_account@, player_index as int, payload@, max_hand_size),
    {
        // Common validations
        CommonValidation::validate_phase(match_account, PHASE_PLAYING)?;
        CommonValidation::validate_player_turn(match_account, player_index)?;
        FloorCard::validate_revealed(match_account)?;

        // Payload validation
        if payload.len() < 32 {
            return Err(GameError::InvalidPayload);
        }
        let card_hash = vstd::slice::slice_to_vec(
            vstd::slice::slice_subrange(payload.as_slice(), 0, 32),
        );

        // Card hash validation
        FloorCard::validate_card_hash(match_account, &card_hash)?;

        // Hand space validation (game-specific)
        HandManagement::validate_hand_space(match_account, player_index, max_hand_size)?;

        Ok(())
    }

    /// Validates a decline.
    pub fn validate_decline(match_account: &Match, player_index: usize) -> (r: Result<
        (),
        GameError,
    >)
        requires
            match_account@.wf(),
        ensures
            r == decline_validation(match_account@, player_index as int),
    {
        CommonValidation::validate_phase(match_account, PHASE_PLAYING)?;
        CommonValidation::validate_player_turn(match_account, player_index)?;
        FloorCard::validate_revealed(match_account)?;
        Ok(())
    }

    /// Validates a suit declaration.
    pub fn validate_declare_intent(
        match_account: &Match,
        player_index: usize,
        payload: &Vec<u8>,
    ) -> (r: Result<(), GameError>)
        requires
            match_account@.wf(),
        ensures
            r == declare_intent_validation(match_account@, player_index as int, payload@),
    {
        CommonValidation::validate_phase(match_account, PHASE_PLAYING)?;
        if payload.len() < 1 {
            return Err(GameError::InvalidPayload);
        }

        let suit = payload[0];
        SuitDeclarations::validate_suit(suit)?;
        SuitDeclarations::validate_not_declared(match_account, player_index)?;
        SuitDeclarations::validate_suit_not_locked(match_account, suit)?;

        Ok(())
    }
}

} // verus!
