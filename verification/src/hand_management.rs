//! Per-player hand sizes, generic over games with different caps.

use vstd::prelude::*;

use crate::errors::GameError;
use crate::match_state::{Match, MatchView};

verus! {

/// The committed hand size the checks see: the player's entry, or zero for
/// an out-of-range index.
pub open spec fn hand_size_of(m: MatchView, p: int) -> u8 {
    if 0 <= p < 10 {
        m.hand_sizes[p]
    } else {
        0u8
    }
}

/// `n` grown by one card, saturating at the counter's width.
pub open spec fn saturating_inc(n: u8) -> u8 {
    if n == 255 {
        255u8
    } else {
        (n + 1) as u8
    }
}

/// Hand bookkeeping shared by the card games.
pub struct HandManagement;

impl HandManagement {
    /// The player's hand must sit below the game's cap.
    pub fn validate_hand_space(match_account: &Match, player_index: usize, max_hand_size: u8) -> (r:
        Result<(), GameError>)
        requires
            match_account@.wf(),
        ensures
            r == (if hand_size_of(match_account@, player_index as int) < max_hand_size {
                Ok::<(), GameError>(())
            } else {
                Err::<(), GameError>(GameError::InvalidPayload)
            }),
    {
        let current_hand_size = match_account.get_hand_size(player_index);
        if current_hand_size < max_hand_size {
            Ok(())
        } else {
            Err(GameError::InvalidPayload)  // Hand is full
        }
    }

    /// Grows the player's hand by one card, saturating at the counter's
    /// width.  An out-of-range index leaves the record untouched.
    pub fn increment_hand_size(match_account: &mut Match, player_index: usize)
        requires
            old(match_account)@.wf(),
        ensures
            final(match_account)@.wf(),
            final(match_account)@ == (if player_index < 10 {
                (MatchView {
                    hand_sizes: old(match_account)@.hand_sizes.update(
                        player_index as int,
                        saturating_inc(old(match_account)@.hand_sizes[player_index as int]),
                    ),
                    ..old(match_account)@
                })
            } else {
                old(match_account)@
            }),
    {
        let current_size = match_account.get_hand_size(player_index);
        let new_size: u8 = if current_size == 255 {
            255
        } else {
            current_size + 1
        };
        if player_index < 10 {
            match_account.set_hand_size(player_index, new_size);
        }
    }

    /// A committed hand size must name at least one card and at most a full
    /// deck.
    pub fn validate_hand_size_bounds(hand_size: u8) -> (r: Result<(), GameError>)
        ensures
            r == (if 0 < hand_size <= 52 {
                Ok::<(), GameError>(())
            } else {
                Err::<(), GameError>(GameError::InvalidPayload)
            }),
    {
        if hand_size > 0 && hand_size <= 52 {
            Ok(())
        } else {
            Err(GameError::InvalidPayload)
        }
    }
}

} // verus!
