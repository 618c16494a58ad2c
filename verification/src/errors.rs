//! The closed error taxonomy returned by every validation and transition.
//!
//! Every failure is fatal to the transition that raised it: the caller sees
//! exactly one of these kinds, and no partial state change survives.

use vstd::prelude::*;

verus! {

/// Why a state transition was refused.
#[derive(Clone, Copy, Debug, PartialEq, Eq, Structural)]
pub enum GameError {
    /// The roster has no room for another player.
    MatchFull,
    /// The match is not in the phase the operation needs.
    InvalidPhase,
    /// The caller is not the current turn holder.
    NotPlayerTurn,
    /// The caller's identity is not on the roster.
    PlayerNotInMatch,
    /// The action kind is outside the game's action set or illegal now.
    InvalidAction,
    /// The payload is malformed, oversized, or fails a content check.
    InvalidPayload,
    /// The caller is not the authority the operation demands.
    Unauthorized,
    /// The match has already reached its terminal phase.
    MatchAlreadyEnded,
    /// The submitted timestamp is outside the accepted window.
    InvalidTimestamp,
    /// Fewer players are present than the game requires.
    InsufficientPlayers,
    /// The nonce does not exceed the player's last accepted nonce, or the
    /// move ledger already holds a record at the derived key.
    InvalidNonce,
}

} // verus!
