//! CLAIM-specific validation: the per-action checks behind the game's six
//! action kinds, including the three-card rebuttal run.

use vstd::prelude::*;

use crate::card_validation::{
    declare_intent_validation, decline_validation, pick_up_validation, CardGameValidation,
};
use crate::errors::GameError;
use crate::game_rules::CLAIM_MAX_HAND_SIZE;
use crate::match_state::{Match, MatchView, PHASE_PLAYING};
use crate::move_state::{
    ACTION_CALL_SHOWDOWN, ACTION_DECLARE_INTENT, ACTION_DECLINE, ACTION_PICK_UP, ACTION_REBUTTAL,
    ACTION_REVEAL_FLOOR_CARD,
};
use crate::validation_base::CommonValidation;

verus! {

broadcast use vstd::std_specs::control_flow::group_control_flow_axioms;

/// `(a, b, c)` sorted ascending.
pub open spec fn sort3(a: u8, b: u8, c: u8) -> (u8, u8, u8) {
    let (a1, b1) = if a > b {
        (b, a)
    } else {
        (a, b)
    };
    let (b2, c2) = if b1 > c {
        (c, b1)
    } else {
        (b1, c)
    };
    let (a3, b3) = if a1 > b2 {
        (b2, a1)
    } else {
        (a1, b2)
    };
    (a3, b3, c2)
}

/// A legal three-card rebuttal run: one suit throughout and, after sorting
/// by value, either a strictly consecutive sequence or the ace-low / king /
/// ace-high wraparound set {2, 13, 14}.
pub open spec fn valid_run(c0: (u8, u8), c1: (u8, u8), c2: (u8, u8)) -> bool {
    &&& c0.0 == c1.0
    &&& c1.0 == c2.0
    &&& {
        let v = sort3(c0.1, c1.1, c2.1);
        ||| (v.1 == v.0 + 1 && v.2 == v.1 + 1)
        ||| (v.0 == 2 && v.1 == 13 && v.2 == 14)
    }
}

/// What showdown validation decides: playing phase and a caller who has
/// declared a suit.
pub open spec fn call_showdown_validation(m: MatchView, p: int) -> Result<(), GameError> {
    if m.phase != PHASE_PLAYING {
        Err(GameError::InvalidPhase)
    } else if m.declared_suit(p) is None {
        Err(GameError::InvalidAction)
    } else {
        Ok(())
    }
}

/// What rebuttal validation decides: playing phase, a caller who has not
/// declared, and a payload holding three (suit, value) pairs that form a
/// legal run.
pub open spec fn rebuttal_validation(m: MatchView, p: int, payload: Seq<u8>) -> Result<
    (),
    GameError,
> {
    if m.phase != PHASE_PLAYING {
        Err(GameError::InvalidPhase)
    } else if m.declared_suit(p) is Some {
        Err(GameError::InvalidAction)
    } else if payload.len() < 6 {
        Err(GameError::InvalidPayload)
    } else if !valid_run(
        (payload[0], payload[1]),
        (payload[2], payload[3]),
        (payload[4], payload[5]),
    ) {
        Err(GameError::InvalidPayload)
    } else {
        Ok(())
    }
}

/// What reveal validation decides: playing phase, no floor card currently
/// revealed, and a payload carrying the 32-byte commitment.
pub open spec fn reveal_floor_card_validation(m: MatchView, payload: Seq<u8>) -> Result<
    (),
    GameError,
> {
    if m.phase != PHASE_PLAYING {
        Err(GameError::InvalidPhase)
    } else if m.floor_revealed() {
        Err(GameError::InvalidPhase)
    } else if payload.len() < 32 {
        Err(GameError::InvalidPayload)
    } else {
        Ok(())
    }
}

/// What CLAIM validation decides for each action kind; unknown kinds are
/// invalid actions.
pub open spec fn claim_validation(m: MatchView, p: int, action_type: u8, payload: Seq<u8>) -> Result<
    (),
    GameError,
> {
    if action_type == ACTION_PICK_UP {
        pick_up_validation(m, p, payload, CLAIM_MAX_HAND_SIZE)
    } else if action_type == ACTION_DECLINE {
        decline_validation(m, p)
    } else if action_type == ACTION_DECLARE_INTENT {
        declare_intent_validation(m, p, payload)
    } else if action_type == ACTION_CALL_SHOWDOWN {
        call_showdown_validation(m, p)
    } else if action_type == ACTION_REBUTTAL {
        rebuttal_validation(m, p, payload)
    } else if action_type == ACTION_REVEAL_FLOOR_CARD {
        reveal_floor_card_validation(m, payload)
    } else {
        Err(GameError::InvalidAction)
    }
}

/// Validates one CLAIM action against the current match state.
pub fn validate_claim_action(
    match_account: &Match,
    player_index: usize,
    action_type: u8,
    payload: &Vec<u8>,
) -> (r: Result<(), GameError>)
    requires
        match_account@.wf(),
    ensures
        r == claim_validation(match_account@, player_index as int, action_type, payload@),
{
    match action_type {
        0 => {
            // Pick up: card game validation with CLAIM's hand cap.
            CardGameValidation::validate_pick_up(
                match_account,
                player_index,
                payload,
                CLAIM_MAX_HAND_SIZE,
            )
        },
        1 => {
            // Decline: generic card game validation.
            CardGameValidation::validate_decline(match_account, player_index)
        },
        2 => {
            // Declare intent: generic card game validation.
            CardGameValidation::validate_declare_intent(match_account, player_index, payload)
        },
        3 => {
            // Call showdown: CLAIM-specific.
            validate_call_showdown(match_account, player_index)
        },
        4 => {
            // Rebuttal: CLAIM-specific three-card run.
            validate_rebuttal(match_account, player_index, payload)
        },
        5 => {
            // Reveal floor card: any player may reveal when none exists;
            // the game cannot proceed to pick_up or decline without one.
            validate_reveal_floor_card(match_account, player_index, payload)
        },
        _ => Err(GameError::InvalidAction),
    }
}

/// Validates a showdown call: only a player who declared may call.
fn validate_call_showdown(match_account: &Match, player_index: usize) -> (r: Result<(), GameError>)
    requires
        match_account@.wf(),
    ensures
        r == call_showdown_validation(match_account@, player_index as int),
{
    CommonValidation::validate_phase(match_account, PHASE_PLAYING)?;

    // Player must have declared intent to call showdown
    if !match_account.has_declared_suit(player_index) {
        return Err(GameError::InvalidAction);
    }
    Ok(())
}

/// Validates a rebuttal: an undeclared player contesting with a run.
fn validate_rebuttal(match_account: &Match, player_index: usize, payload: &Vec<u8>) -> (r: Result<
    (),
    GameError,
>)
    requires
        match_account@.wf(),
    ensures
        r == rebuttal_validation(match_account@, player_index as int, payload@),
{
    CommonValidation::validate_phase(match_account, PHASE_PLAYING)?;

    // Player must be undeclared to rebut
    if match_account.has_declared_suit(player_index) {
        return Err(GameError::InvalidAction);
    }

    // Payload must contain exactly 3 cards (each card is suit + value)
    if payload.len() < 6 {
        return Err(GameError::InvalidPayload);
    }

    // The three cards must form a legal run.  Whether the run beats the
    // contested declaration, and whether the cards match the committed
    // hand hash, is resolved by the off-chain rule engine.
    if !is_valid_run(
        (payload[0], payload[1]),
        (payload[2], payload[3]),
        (payload[4], payload[5]),
    ) {
        return Err(GameError::InvalidPayload);
    }

    Ok(())
}

/// Validates a floor-card reveal: only while none is revealed.
fn validate_reveal_floor_card(
    match_account: &Match,
    _player_index: usize,
    payload: &Vec<u8>,
) -> (r: Result<(), GameError>)
    requires
        match_account@.wf(),
    ensures
        r == reveal_floor_card_validation(match_account@, payload@),
{
    // Must be in playing phase
    CommonValidation::validate_phase(match_account, PHASE_PLAYING)?;

    // Cannot reveal a floor card while one is revealed
    if match_account.floor_card_revealed() {
        return Err(GameError::InvalidPhase);
    }

    // Payload must carry the 32-byte commitment
    if payload.len() < 32 {
        return Err(GameError::InvalidPayload);
    }

    Ok(())
}

/// Decides [`valid_run`] for three concrete cards.
pub fn is_valid_run(c0: (u8, u8), c1: (u8, u8), c2: (u8, u8)) -> (r: bool)
    ensures
        r == valid_run(c0, c1, c2),
{
    // All cards must share a suit.
    if c0.0 != c1.0 || c1.0 != c2.0 {
        return false;
    }

    // Sort the three values.
    let mut v0: u8 = c0.1;
    let mut v1: u8 = c1.1;
    let mut v2: u8 = c2.1;
    if v0 > v1 {
        let t = v0;
        v0 = v1;
        v1 = t;
    }
    if v1 > v2 {
        let t = v1;
        v1 = v2;
        v2 = t;
    }
    if v0 > v1 {
        let t = v0;
        v0 = v1;
        v1 = t;
    }
    proof {
        assert((v0, v1, v2) == sort3(c0.1, c1.1, c2.1));
    }

    // A strictly consecutive sequence (widened so the comparison cannot
    // overflow the card-value byte)...
    if v1 as u16 == v0 as u16 + 1 && v2 as u16 == v1 as u16 + 1 {
        return true;
    }

    // ...or the ace-low / king / ace-high wraparound.
    if v0 == 2 && v1 == 13 && v2 == 14 {
        return true;
    }

    false
}

} // verus!
