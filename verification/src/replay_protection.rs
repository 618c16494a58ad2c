//! Replay protection: per-player nonce monotonicity and timestamp
//! staleness.  The move ledger's keyed creation is the second, independent
//! barrier (see [`crate::move_state::MoveLedger::create_record`]).

use vstd::prelude::*;

use crate::errors::GameError;
use crate::match_state::{Match, MatchView};

verus! {

/// How far (in seconds) a move may trail the match creation time once the
/// match has at least one move.
pub const MAX_MOVE_AGE_SECONDS: i64 = 3000;

/// The nonce counter a submission must beat: the player's last accepted
/// nonce, or zero for an out-of-range index.
pub open spec fn last_nonce_of(m: MatchView, p: int) -> u64 {
    if 0 <= p < 10 {
        m.last_nonce[p]
    } else {
        0u64
    }
}

/// What timestamp validation decides: a move may never precede the match's
/// creation, and once at least one move exists, it may not trail creation
/// by more than the staleness window.  The first move may arrive late.
pub open spec fn timestamp_validation(m: MatchView, move_timestamp: i64) -> Result<(), GameError> {
    if move_timestamp < m.created_at {
        Err(GameError::InvalidTimestamp)
    } else if m.move_count > 0 && move_timestamp - m.created_at > MAX_MOVE_AGE_SECONDS {
        Err(GameError::InvalidTimestamp)
    } else {
        Ok(())
    }
}

/// Nonce and timestamp checks shared by the submission pipelines.
pub struct ReplayProtection;

impl ReplayProtection {
    /// The nonce must strictly exceed the player's last accepted nonce.
    pub fn validate_nonce(match_account: &Match, player_index: usize, nonce: u64) -> (r: Result<
        (),
        GameError,
    >)
        requires
            match_account@.wf(),
        ensures
            r == (if nonce > last_nonce_of(match_account@, player_index as int) {
                Ok::<(), GameError>(())
            } else {
                Err::<(), GameError>(GameError::InvalidNonce)
            }),
    {
        let last_nonce = match_account.get_last_nonce(player_index);
        if nonce > last_nonce {
            Ok(())
        } else {
            Err(GameError::InvalidNonce)
        }
    }

    /// Whether a move record already sits at the submission's storage key is
    /// decided at creation time by the ledger itself; nothing needs to be
    /// checked ahead of it.
    pub fn check_account_exists(_player: &Vec<u8>) -> (r: Result<(), GameError>)
        ensures
            r == Ok::<(), GameError>(()),
    {
        Ok(())
    }

    /// The timestamp must fall inside the window that
    /// [`timestamp_validation`] describes.
    pub fn validate_timestamp(match_account: &Match, move_timestamp: i64) -> (r: Result<
        (),
        GameError,
    >)
        requires
            match_account@.wf(),
        ensures
            r == timestamp_validation(match_account@, move_timestamp),
    {
        if move_timestamp < match_account.created_at {
            return Err(GameError::InvalidTimestamp);
        }
        // Reject very old moves once the match is underway.
        if match_account.move_count > 0 {
            let match_age = move_timestamp - match_account.created_at;
            if match_age > MAX_MOVE_AGE_SECONDS {
                return Err(GameError::InvalidTimestamp);
            }
        }
        Ok(())
    }
}

} // verus!
