//! The shared floor card: one card whose identity is committed by hash,
//! revealed into play, and cleared when a player takes or resolves it.

use vstd::prelude::*;

use crate::bytes::bytes_eq;
use crate::errors::GameError;
use crate::match_state::{with_floor_revealed, Match, MatchView, zero_hash};

verus! {

/// What floor-card hash validation decides: with no commitment stored the
/// phase is wrong; with one stored, the submitted hash must equal it.
pub open spec fn card_hash_validation(m: MatchView, card_hash: Seq<u8>) -> Result<(), GameError> {
    if m.floor_hash_clear() {
        Err(GameError::InvalidPhase)
    } else if card_hash == m.floor_card_hash {
        Ok(())
    } else {
        Err(GameError::InvalidPayload)
    }
}

/// Floor-card mechanics shared by the card games.
pub struct FloorCard;

impl FloorCard {
    /// The floor card must currently be revealed.
    pub fn validate_revealed(match_account: &Match) -> (r: Result<(), GameError>)
        ensures
            r == (if match_account@.floor_revealed() {
                Ok::<(), GameError>(())
            } else {
                Err::<(), GameError>(GameError::InvalidPhase)
            }),
    {
        if match_account.floor_card_revealed() {
            Ok(())
        } else {
            Err(GameError::InvalidPhase)
        }
    }

    /// The submitted commitment must match the stored floor-card hash.
    pub fn validate_card_hash(match_account: &Match, card_hash: &Vec<u8>) -> (r: Result<
        (),
        GameError,
    >)
        requires
            match_account@.wf(),
            card_hash@.len() == 32,
        ensures
            r == card_hash_validation(match_account@, card_hash@),
    {
        match match_account.get_floor_card_hash() {
            Some(floor_hash) => {
                if bytes_eq(card_hash, &floor_hash) {
                    Ok(())
                } else {
                    Err(GameError::InvalidPayload)  // Card hash mismatch
                }
            },
            None => Err(GameError::InvalidPhase),  // No floor card
        }
    }

    /// Clears the floor card: drops the revealed flag and zeroes the stored
    /// commitment.  Invoked when a player claims the card.
    pub fn clear_floor_card(match_account: &mut Match)
        requires
            old(match_account)@.wf(),
        ensures
            final(match_account)@.wf(),
            final(match_account)@ == (MatchView {
                floor_card_hash: zero_hash(),
                ..with_floor_revealed(old(match_account)@, false)
            }),
            !final(match_account)@.floor_revealed(),
            final(match_account)@.floor_hash_clear(),
    {
        match_account.set_floor_card_revealed(false);
        match_account.clear_floor_card_hash();
    }
}

} // verus!
