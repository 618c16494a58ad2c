//! The mutual-exclusion claim over the four suits: a player declares at
//! most one suit, and a suit claimed by one player is locked for the rest.

use vstd::prelude::*;

use crate::errors::GameError;
use crate::match_state::{with_declared_suit, Match};

verus! {

/// Claim bookkeeping shared by the card games.
pub struct SuitDeclarations;

impl SuitDeclarations {
    /// A suit value names one of the four suits.
    pub fn validate_suit(suit: u8) -> (r: Result<(), GameError>)
        ensures
            r == (if suit < 4 {
                Ok::<(), GameError>(())
            } else {
                Err::<(), GameError>(GameError::InvalidPayload)
            }),
    {
        if suit < 4 {
            Ok(())
        } else {
            Err(GameError::InvalidPayload)
        }
    }

    /// The caller must not have declared a suit yet.
    pub fn validate_not_declared(match_account: &Match, player_index: usize) -> (r: Result<
        (),
        GameError,
    >)
        requires
            match_account@.wf(),
        ensures
            r == (if match_account@.declared_suit(player_index as int) is None {
                Ok::<(), GameError>(())
            } else {
                Err::<(), GameError>(GameError::InvalidAction)
            }),
    {
        if !match_account.has_declared_suit(player_index) {
            Ok(())
        } else {
            Err(GameError::InvalidAction)
        }
    }

    /// The suit must not already be held by any player.
    pub fn validate_suit_not_locked(match_account: &Match, suit: u8) -> (r: Result<(), GameError>)
        requires
            match_account@.wf(),
            suit <= 3,
        ensures
            r == (if !match_account@.suit_locked(suit) {
                Ok::<(), GameError>(())
            } else {
                Err::<(), GameError>(GameError::InvalidAction)
            }),
    {
        if !match_account.is_suit_locked(suit) {
            Ok(())
        } else {
            Err(GameError::InvalidAction)
        }
    }

    /// Persists the caller's claim in the packed suit field.
    pub fn record_declaration(match_account: &mut Match, player_index: usize, suit: u8)
        requires
            old(match_account)@.wf(),
        ensures
            final(match_account)@.wf(),
            final(match_account)@ == with_declared_suit(
                old(match_account)@,
                player_index as int,
                suit,
            ),
            player_index < 10 && suit <= 3 ==> final(match_account)@.declared_suit(
                player_index as int,
            ) == Some(suit),
    {
        match_account.set_declared_suit(player_index, suit);
    }
}

} // verus!
