//! Match creation: resolves the game in the registry and builds the zeroed
//! initial record.

use vstd::prelude::*;

use crate::bytes::{copy_bytes, zero_bytes};
use crate::errors::GameError;
use crate::game_registry::{
    find_game_in, lemma_found_game_wf, registry_wf, GameDefView, GameRegistry,
};
use crate::match_state::{Match, MatchView, PHASE_DEALING};

verus! {

/// The schema version tag stored in new records: the ASCII bytes of
/// "1.0.0", zero-padded to the field's ten bytes.
pub open spec fn version_tag() -> Seq<u8> {
    seq![0x31u8, 0x2Eu8, 0x30u8, 0x2Eu8, 0x30u8] + Seq::new(5, |k: int| 0u8)
}

/// The record a successful creation yields: everything zeroed or defaulted,
/// the identifier, game, seed, authority, and creation time filled in.
pub open spec fn created_match(
    g: GameDefView,
    match_id: Seq<u8>,
    game_type: u8,
    seed: u64,
    authority: Seq<u8>,
    now: i64,
) -> MatchView {
    MatchView {
        match_id: match_id,
        version: version_tag(),
        game_name: g.name,
        game_type: game_type,
        seed: seed as u32,
        phase: PHASE_DEALING,
        current_player: 0,
        player_count: 0,
        player_ids: Seq::new(10, |i: int| Seq::new(64, |k: int| 0u8)),
        move_count: 0,
        created_at: now,
        ended_at: 0,
        match_hash: Seq::new(32, |k: int| 0u8),
        hot_url: Seq::new(200, |k: int| 0u8),
        authority: authority,
        declared_suits: Seq::new(5, |k: int| 0u8),
        flags: 0,
        floor_card_hash: Seq::new(32, |k: int| 0u8),
        hand_sizes: Seq::new(10, |k: int| 0u8),
        committed_hand_hashes: Seq::new(320, |k: int| 0u8),
        last_nonce: Seq::new(10, |k: int| 0u64),
    }
}

/// When creation succeeds: the identifier has the record width and the game
/// is registered and enabled.
pub open spec fn create_accepted(
    reg: Seq<GameDefView>,
    match_id: Seq<u8>,
    game_type: u8,
) -> bool {
    &&& match_id.len() == 36
    &&& match find_game_in(reg, game_type) {
        Some(g) => g.enabled != 0,
        None => false,
    }
}

/// Creates a match.  The identifier must be exactly 36 bytes and the game
/// type registered and enabled; everything else in the record starts zeroed
/// or defaulted, with `now` as the creation time.
pub fn create_match(
    registry: &GameRegistry,
    match_id: &Vec<u8>,
    game_type: u8,
    seed: u64,
    authority: &Vec<u8>,
    now: i64,
) -> (r: Result<Match, GameError>)
    requires
        registry_wf(registry@),
        authority@.len() == 32,
        now >= 1,
    ensures
        match r {
            Ok(m) => {
                &&& create_accepted(registry@, match_id@, game_type)
                &&& m@ == created_match(
                    find_game_in(registry@, game_type).unwrap(),
                    match_id@,
                    game_type,
                    seed,
                    authority@,
                    now,
                )
                &&& m@.wf()
                &&& m@.phase_consistent()
            },
            Err(e) => {
                &&& !create_accepted(registry@, match_id@, game_type)
                &&& e == GameError::InvalidPayload
            },
        },
{
    // The identifier must fill its fixed-width slot exactly.
    if match_id.len() != 36 {
        return Err(GameError::InvalidPayload);
    }

    // The game must be registered...
    let game_def = match registry.find_game(game_type) {
        Some(g) => g,
        None => {
            return Err(GameError::InvalidPayload);
        },
    };

    // ...and enabled.
    if game_def.enabled == 0 {
        return Err(GameError::InvalidPayload);
    }
    proof {
        lemma_found_game_wf(registry@, game_type);
    }

    // The stored schema tag: "1.0.0" in ASCII, zero-padded.
    let mut version: Vec<u8> = Vec::new();
    version.push(0x31);
    version.push(0x2E);
    version.push(0x30);
    version.push(0x2E);
    version.push(0x30);
    let mut k: usize = 0;
    while k < 5
        invariant
            k <= 5,
            version@.len() == 5 + k,
            version@.subrange(0, 5) =~= seq![0x31u8, 0x2Eu8, 0x30u8, 0x2Eu8, 0x30u8],
            forall|t: int| 5 <= t < version@.len() ==> version@[t] == 0u8,
        decreases 5 - k,
    {
        version.push(0);
        k += 1;
    }
    proof {
        assert(version@ =~= version_tag());
    }

    let mut ids: Vec<Vec<u8>> = Vec::new();
    let mut i: usize = 0;
    while i < 10
        invariant
            i <= 10,
            ids@.len() == i,
            forall|t: int| 0 <= t < i ==> ids@[t]@ =~= Seq::new(64, |k: int| 0u8),
        decreases 10 - i,
    {
        ids.push(zero_bytes(64));
        i += 1;
    }

    let mut nonces: Vec<u64> = Vec::new();
    let mut n: usize = 0;
    while n < 10
        invariant
            n <= 10,
            nonces@.len() == n,
            forall|t: int| 0 <= t < n ==> nonces@[t] == 0u64,
        decreases 10 - n,
    {
        nonces.push(0);
        n += 1;
    }

    let m = Match {
        match_id: copy_bytes(match_id),
        version,
        game_name: copy_bytes(&game_def.name),
        game_type,
        seed: #[verifier::truncate] (seed as u32),
        phase: PHASE_DEALING,
        current_player: 0,
        player_count: 0,
        player_ids: ids,
        move_count: 0,
        created_at: now,
        ended_at: 0,
        match_hash: zero_bytes(32),
        hot_url: zero_bytes(200),
        authority: copy_bytes(authority),
        declared_suits: zero_bytes(5),
        flags: 0,
        floor_card_hash: zero_bytes(32),
        hand_sizes: zero_bytes(10),
        committed_hand_hashes: zero_bytes(320),
        last_nonce: nonces,
    };
    proof {
        let spec_m = created_match(
            find_game_in(registry@, game_type).unwrap(),
            match_id@,
            game_type,
            seed,
            authority@,
            now,
        );
        assert(m@.player_ids =~= spec_m.player_ids);
        assert(m@.last_nonce =~= spec_m.last_nonce);
        assert(m@.match_hash =~= spec_m.match_hash);
        assert(m@.hot_url =~= spec_m.hot_url);
        assert(m@.declared_suits =~= spec_m.declared_suits);
        assert(m@.floor_card_hash =~= spec_m.floor_card_hash);
        assert(m@.hand_sizes =~= spec_m.hand_sizes);
        assert(m@.committed_hand_hashes =~= spec_m.committed_hand_hashes);
        assert(m@ =~= spec_m);
        assert forall|i2: int| 0 <= i2 < 10 implies m@.suit_nibble(i2) <= 4 by {
            let b = m@.declared_suits[i2 / 2];
            assert(b == 0u8);
            assert(0u8 & 0x0Fu8 == 0u8 && (0u8 >> 4u8) & 0x0Fu8 == 0u8) by (bit_vector);
        }
    }
    Ok(m)
}

} // verus!
