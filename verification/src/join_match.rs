//! Joining a match: accepted only while dealing, only while roster room
//! remains, and only for identities not already on the roster.

use vstd::prelude::*;

use crate::bytes::{bytes_eq, pad_bytes, padded};
use crate::errors::GameError;
use crate::game_registry::{find_game_in, GameDefView, GameRegistry};
use crate::match_state::{
    find_player_in, with_all_joined, Match, MatchView, PHASE_DEALING,
};

verus! {

/// The record after a successful join: the identifier stored zero-padded in
/// the next slot, the count grown, and the all-joined flag raised when the
/// roster reached the game's maximum.
pub open spec fn joined_match(m: MatchView, g: GameDefView, user_id: Seq<u8>) -> MatchView {
    let idx = m.player_count as int;
    let grown = MatchView {
        player_ids: m.player_ids.update(idx, padded(user_id, 64)),
        player_count: (m.player_count + 1) as u8,
        ..m
    };
    if grown.player_count >= g.max_players {
        with_all_joined(grown, true)
    } else {
        grown
    }
}

/// What a join yields, in check order: the identifier must name this match;
/// joins happen only while dealing; a set all-joined flag or a full roster
/// refuses the seat; the identity must fit its slot and must not already be
/// seated; and the record's ten slots bound everything.
pub open spec fn join_result(
    m: MatchView,
    reg: Seq<GameDefView>,
    match_id: Seq<u8>,
    user_id: Seq<u8>,
) -> Result<MatchView, GameError> {
    if match_id.len() != 36 || match_id != m.match_id {
        Err(GameError::InvalidPayload)
    } else if m.phase != PHASE_DEALING {
        Err(GameError::InvalidPhase)
    } else if m.all_joined() {
        Err(GameError::MatchFull)
    } else {
        match find_game_in(reg, m.game_type) {
            None => Err(GameError::InvalidPayload),
            Some(g) => {
                if m.player_count >= g.max_players {
                    Err(GameError::MatchFull)
                } else if user_id.len() > 64 {
                    Err(GameError::InvalidPayload)
                } else if find_player_in(m, padded(user_id, 64)) is Some {
                    Err(GameError::PlayerNotInMatch)
                } else if m.player_count >= 10 {
                    Err(GameError::MatchFull)
                } else {
                    Ok(joined_match(m, g, user_id))
                }
            },
        }
    }
}

/// Seats `user_id` in the match, or reports why the seat is refused.  On
/// failure the record is untouched.
pub fn join_match(
    match_account: &mut Match,
    registry: &GameRegistry,
    match_id: &Vec<u8>,
    user_id: &Vec<u8>,
) -> (r: Result<(), GameError>)
    requires
        old(match_account)@.wf(),
        old(match_account)@.phase_consistent(),
    ensures
        final(match_account)@.wf(),
        final(match_account)@.phase_consistent(),
        match join_result(old(match_account)@, registry@, match_id@, user_id@) {
            Ok(m2) => r == Ok::<(), GameError>(()) && final(match_account)@ == m2,
            Err(e) => r == Err::<(), GameError>(e) && final(match_account)@ == old(
                match_account,
            )@,
        },
{
    // The submission must name this match.
    if !(match_id.len() == 36 && bytes_eq(match_id, &match_account.match_id)) {
        return Err(GameError::InvalidPayload);
    }

    // Joins are open only while the roster is forming.
    if match_account.get_phase() != PHASE_DEALING {
        return Err(GameError::InvalidPhase);
    }

    // The match must still accept players.
    let can = match match_account.can_join(registry) {
        Ok(b) => b,
        Err(e) => {
            return Err(e);
        },
    };
    if !can {
        return Err(GameError::MatchFull);
    }

    // The identity must fit its fixed-width slot.
    if user_id.len() > 64 {
        return Err(GameError::InvalidPayload);
    }
    let padded_id = pad_bytes(user_id, 64);

    // A seated identity may not join twice.
    if match_account.has_player_id(&padded_id) {
        return Err(GameError::PlayerNotInMatch);
    }

    // The next slot must exist in both the game's and the record's bounds.
    let player_index = match_account.player_count as usize;
    let max_players = match match_account.get_max_players(registry) {
        Ok(v) => v,
        Err(e) => {
            return Err(e);
        },
    };
    if !(player_index < max_players as usize && player_index < 10) {
        return Err(GameError::MatchFull);
    }

    // Seat the player.
    match_account.set_player_id(player_index, &padded_id);
    let ghost mid = match_account@;
    match_account.player_count = match_account.player_count + 1;
    proof {
        crate::match_state::lemma_nibbles_unchanged(mid, match_account@);
    }

    // Cache whether the roster is now complete.
    if match_account.player_count >= max_players {
        match_account.set_all_players_joined(true);
    }

    proof {
        let spec_m = match join_result(old(match_account)@, registry@, match_id@, user_id@) {
            Ok(m2) => m2,
            Err(_) => old(match_account)@,
        };
        assert(match_account@ =~= spec_m);
    }
    Ok(())
}

} // verus!
