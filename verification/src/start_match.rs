//! Starting a match: the authority moves a dealt match into play once the
//! registry's player minimum is met.

use vstd::prelude::*;

use crate::bytes::{bytes_eq, zero_bytes};
use crate::errors::GameError;
use crate::game_registry::{find_game_in, GameDefView, GameRegistry};
use crate::match_state::{
    with_all_joined, zero_hash, Match, MatchView, PHASE_DEALING, PHASE_PLAYING,
};

verus! {

/// The record once play begins: the playing phase, the all-joined flag
/// raised, and the dealt-state fields (hand hashes, hand sizes, floor-card
/// commitment) zeroed, to be filled by the hand commitments.
pub open spec fn started_match(m: MatchView) -> MatchView {
    let playing = with_all_joined(MatchView { phase: PHASE_PLAYING, ..m }, true);
    MatchView {
        committed_hand_hashes: Seq::new(320, |k: int| 0u8),
        hand_sizes: Seq::new(10, |k: int| 0u8),
        floor_card_hash: zero_hash(),
        ..playing
    }
}

/// What a start yields, in check order: the identifier must name this
/// match; only the authority may start it; only a dealing match starts;
/// the game must be registered; and the roster must sit inside the game's
/// bounds.
pub open spec fn start_result(
    m: MatchView,
    reg: Seq<GameDefView>,
    match_id: Seq<u8>,
    authority: Seq<u8>,
) -> Result<MatchView, GameError> {
    if match_id.len() != 36 || match_id != m.match_id {
        Err(GameError::InvalidPayload)
    } else if authority != m.authority {
        Err(GameError::Unauthorized)
    } else if m.phase != PHASE_DEALING {
        Err(GameError::InvalidPhase)
    } else {
        match find_game_in(reg, m.game_type) {
            None => Err(GameError::InvalidPayload),
            Some(g) => {
                if m.player_count < g.min_players {
                    Err(GameError::InsufficientPlayers)
                } else if m.player_count > g.max_players {
                    Err(GameError::InsufficientPlayers)
                } else {
                    Ok(started_match(m))
                }
            },
        }
    }
}

/// Moves the match into play, or reports why it cannot start.  On failure
/// the record is untouched.
pub fn start_match(
    match_account: &mut Match,
    registry: &GameRegistry,
    match_id: &Vec<u8>,
    authority: &Vec<u8>,
) -> (r: Result<(), GameError>)
    requires
        old(match_account)@.wf(),
        old(match_account)@.phase_consistent(),
    ensures
        final(match_account)@.wf(),
        final(match_account)@.phase_consistent(),
        match start_result(old(match_account)@, registry@, match_id@, authority@) {
            Ok(m2) => r == Ok::<(), GameError>(()) && final(match_account)@ == m2,
            Err(e) => r == Err::<(), GameError>(e) && final(match_account)@ == old(
                match_account,
            )@,
        },
{
    // The submission must name this match.
    if !(match_id.len() == 36 && bytes_eq(match_id, &match_account.match_id)) {
        return Err(GameError::InvalidPayload);
    }

    // Only the match authority may start it.
    if !bytes_eq(authority, &match_account.authority) {
        return Err(GameError::Unauthorized);
    }

    // Only a dealing match can start.
    if match_account.get_phase() != PHASE_DEALING {
        return Err(GameError::InvalidPhase);
    }

    // The registry's minimum must be met...
    let min_players = match match_account.get_min_players(registry) {
        Ok(v) => v,
        Err(e) => {
            return Err(e);
        },
    };
    let has_min = match match_account.has_minimum_players(registry) {
        Ok(b) => b,
        Err(e) => {
            return Err(e);
        },
    };
    if !has_min {
        return Err(GameError::InsufficientPlayers);
    }

    // ...and the roster must sit inside the game's bounds.
    let max_players = match match_account.get_max_players(registry) {
        Ok(v) => v,
        Err(e) => {
            return Err(e);
        },
    };
    if !(match_account.player_count >= min_players && match_account.player_count <= max_players) {
        return Err(GameError::InsufficientPlayers);
    }

    // Move into play.
    match_account.phase = PHASE_PLAYING;
    proof {
        crate::match_state::lemma_nibbles_unchanged(old(match_account)@, match_account@);
    }
    match_account.set_all_players_joined(true);

    // The dealt state starts empty: hand commitments arrive separately.
    let ghost mid = match_account@;
    match_account.committed_hand_hashes = zero_bytes(320);
    match_account.hand_sizes = zero_bytes(10);
    match_account.floor_card_hash = zero_bytes(32);
    proof {
        crate::match_state::lemma_nibbles_unchanged(mid, match_account@);
        let spec_m = started_match(old(match_account)@);
        assert(match_account@.committed_hand_hashes =~= spec_m.committed_hand_hashes);
        assert(match_account@.hand_sizes =~= spec_m.hand_sizes);
        assert(match_account@.floor_card_hash =~= spec_m.floor_card_hash);
        assert(match_account@ =~= spec_m);
    }
    Ok(())
}

} // verus!
