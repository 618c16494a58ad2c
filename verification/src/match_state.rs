//! The persisted record of one match: roster, phase, turn pointer, floor
//! card commitment, per-player nonces, hand sizes, declared suits, and the
//! committed hand hashes.
//!
//! Storage is fee-per-byte, so the record keeps the compact encoding of the
//! persisted layout: fixed-width zero-padded byte fields, suit claims packed
//! four bits per player, and the boolean flags packed into one byte.

use vstd::prelude::*;

use crate::bytes::{copy_bytes, copy_u64s, id_matches, matches_padded, zero_bytes};
use crate::errors::GameError;
use crate::game_config::GameConfig;
use crate::game_registry::{find_game_in, GameRegistry};

verus! {

/// Phase: roster still forming.
pub const PHASE_DEALING: u8 = 0;

/// Phase: moves flowing.
pub const PHASE_PLAYING: u8 = 1;

/// Phase: terminal; nothing leaves this phase.
pub const PHASE_ENDED: u8 = 2;

/// One match instance.  Every variable-length concept sits in a fixed-width,
/// zero-padded field; the well-formedness predicate [`MatchView::wf`] pins
/// the widths.
pub struct Match {
    /// Match identifier, exactly 36 bytes.
    pub match_id: Vec<u8>,
    /// Schema version tag, 10 bytes, zero-padded.
    pub version: Vec<u8>,
    /// Game name from the registry, 20 bytes, zero-padded.
    pub game_name: Vec<u8>,
    /// Game type tag resolved through the registry.
    pub game_type: u8,
    /// Deal seed.
    pub seed: u32,
    /// One of `PHASE_DEALING`, `PHASE_PLAYING`, `PHASE_ENDED`.
    pub phase: u8,
    /// Roster index of the turn holder.
    pub current_player: u8,
    /// How many roster slots are filled.
    pub player_count: u8,
    /// Ten identifier slots of 64 bytes each, assigned in join order.
    pub player_ids: Vec<Vec<u8>>,
    /// Accepted moves so far.
    pub move_count: u16,
    /// Creation time (seconds); always positive.
    pub created_at: i64,
    /// End time; zero while the match is still running.
    pub ended_at: i64,
    /// Archival hash of the match transcript; all zeros while unset.
    pub match_hash: Vec<u8>,
    /// Archival transcript location, 200 bytes, zero-padded.
    pub hot_url: Vec<u8>,
    /// Identity of the match authority, 32 bytes.
    pub authority: Vec<u8>,
    /// Suit claims, packed four bits per player into five bytes.  A nibble
    /// of zero means no claim; one to four stand for suits zero to three.
    pub declared_suits: Vec<u8>,
    /// Packed booleans: bit 0 is the floor-card-revealed flag, bit 1 the
    /// all-players-joined flag.
    pub flags: u8,
    /// Commitment to the current floor card; all zeros while unset.
    pub floor_card_hash: Vec<u8>,
    /// Committed hand size per player, one byte each.
    pub hand_sizes: Vec<u8>,
    /// Committed hand hash per player, ten 32-byte slots in one field.
    pub committed_hand_hashes: Vec<u8>,
    /// Last accepted nonce per player.
    pub last_nonce: Vec<u64>,
}

/// The mathematical value of a [`Match`].
#[verifier::ext_equal]
pub ghost struct MatchView {
    pub match_id: Seq<u8>,
    pub version: Seq<u8>,
    pub game_name: Seq<u8>,
    pub game_type: u8,
    pub seed: u32,
    pub phase: u8,
    pub current_player: u8,
    pub player_count: u8,
    pub player_ids: Seq<Seq<u8>>,
    pub move_count: u16,
    pub created_at: i64,
    pub ended_at: i64,
    pub match_hash: Seq<u8>,
    pub hot_url: Seq<u8>,
    pub authority: Seq<u8>,
    pub declared_suits: Seq<u8>,
    pub flags: u8,
    pub floor_card_hash: Seq<u8>,
    pub hand_sizes: Seq<u8>,
    pub committed_hand_hashes: Seq<u8>,
    pub last_nonce: Seq<u64>,
}

impl View for Match {
    type V = MatchView;

    open spec fn view(&self) -> MatchView {
        MatchView {
            match_id: self.match_id@,
            version: self.version@,
            game_name: self.game_name@,
            game_type: self.game_type,
            seed: self.seed,
            phase: self.phase,
            current_player: self.current_player,
            player_count: self.player_count,
            player_ids: Seq::new(self.player_ids@.len(), |i: int| self.player_ids@[i]@),
            move_count: self.move_count,
            created_at: self.created_at,
            ended_at: self.ended_at,
            match_hash: self.match_hash@,
            hot_url: self.hot_url@,
            authority: self.authority@,
            declared_suits: self.declared_suits@,
            flags: self.flags,
            floor_card_hash: self.floor_card_hash@,
            hand_sizes: self.hand_sizes@,
            committed_hand_hashes: self.committed_hand_hashes@,
            last_nonce: self.last_nonce@,
        }
    }
}

impl MatchView {
    /// The packed four-bit suit claim of player `i`: zero for none, one to
    /// four for suits zero to three.
    pub open spec fn suit_nibble(self, i: int) -> u8 {
        if i % 2 == 0 {
            self.declared_suits[i / 2] & 0x0Fu8
        } else {
            (self.declared_suits[i / 2] >> 4u8) & 0x0Fu8
        }
    }

    /// The suit player `i` has declared, if any.
    pub open spec fn declared_suit(self, i: int) -> Option<u8> {
        if 0 <= i < 10 {
            let nib = self.suit_nibble(i);
            if nib == 0 {
                None
            } else {
                Some((nib - 1) as u8)
            }
        } else {
            None
        }
    }

    /// True when some player has declared `suit`.
    pub open spec fn suit_locked(self, suit: u8) -> bool {
        exists|i: int| 0 <= i < 10 && self.declared_suit(i) == Some(suit)
    }

    /// The floor-card-revealed flag.
    pub open spec fn floor_revealed(self) -> bool {
        self.flags & 0x01u8 != 0
    }

    /// The all-players-joined flag.
    pub open spec fn all_joined(self) -> bool {
        self.flags & 0x02u8 != 0
    }

    /// True once the match has an end timestamp.
    pub open spec fn is_ended(self) -> bool {
        self.ended_at != 0
    }

    /// True while no floor-card commitment is stored.
    pub open spec fn floor_hash_clear(self) -> bool {
        forall|k: int| 0 <= k < 32 ==> self.floor_card_hash[k] == 0u8
    }

    /// The committed hand hash slot of player `i`.
    pub open spec fn hand_hash_of(self, i: int) -> Seq<u8> {
        self.committed_hand_hashes.subrange(32 * i, 32 * i + 32)
    }

    /// Well-formedness of the compact layout: every fixed-width field has
    /// its width, the counters sit inside the layout bounds, the creation
    /// time is positive, and every suit nibble is a stored claim value.
    pub open spec fn wf(self) -> bool {
        &&& self.match_id.len() == 36
        &&& self.version.len() == 10
        &&& self.game_name.len() == 20
        &&& self.phase <= 2
        &&& self.player_count <= 10
        &&& self.player_ids.len() == 10
        &&& (forall|i: int| 0 <= i < 10 ==> self.player_ids[i].len() == 64)
        &&& self.created_at >= 1
        &&& self.match_hash.len() == 32
        &&& self.hot_url.len() == 200
        &&& self.authority.len() == 32
        &&& self.declared_suits.len() == 5
        &&& (forall|i: int| 0 <= i < 10 ==> self.suit_nibble(i) <= 4)
        &&& self.floor_card_hash.len() == 32
        &&& self.hand_sizes.len() == 10
        &&& self.committed_hand_hashes.len() == 320
        &&& self.last_nonce.len() == 10
    }

    /// The terminal phase and the end timestamp agree: the end timestamp is
    /// set exactly in the terminal phase.  The submission pipelines preserve
    /// this; the action-application layer may break it between setting the
    /// phase and stamping the end time.
    pub open spec fn phase_consistent(self) -> bool {
        self.phase == PHASE_ENDED <==> self.ended_at != 0
    }
}

/// An all-zero 32-byte commitment slot: the stored form of "no value".
pub open spec fn zero_hash() -> Seq<u8> {
    Seq::new(32, |k: int| 0u8)
}

/// `m` with `suit` recorded as player `p`'s packed claim; out-of-range
/// arguments leave the value unchanged, as the setter does.
pub open spec fn with_declared_suit(m: MatchView, p: int, suit: u8) -> MatchView {
    if 0 <= p < 10 && suit <= 3 {
        let off: u8 = if p % 2 == 0 {
            0u8
        } else {
            4u8
        };
        let mask: u8 = 0x0Fu8 << off;
        let b: u8 = m.declared_suits[p / 2];
        let nb: u8 = (b & !mask) | ((suit + 1) as u8) << off;
        MatchView { declared_suits: m.declared_suits.update(p / 2, nb), ..m }
    } else {
        m
    }
}

/// `m` with the floor-card-revealed flag set to `revealed`.
pub open spec fn with_floor_revealed(m: MatchView, revealed: bool) -> MatchView {
    MatchView {
        flags: if revealed {
            m.flags | 0x01u8
        } else {
            m.flags & 0xFEu8
        },
        ..m
    }
}

/// `m` with the all-players-joined flag set to `joined`.
pub open spec fn with_all_joined(m: MatchView, joined: bool) -> MatchView {
    MatchView {
        flags: if joined {
            m.flags | 0x02u8
        } else {
            m.flags & 0xFDu8
        },
        ..m
    }
}

/// A record whose packed suit field did not change keeps every nibble.
pub(crate) proof fn lemma_nibbles_unchanged(pre: MatchView, post: MatchView)
    requires
        post.declared_suits == pre.declared_suits,
        forall|i: int| 0 <= i < 10 ==> pre.suit_nibble(i) <= 4,
    ensures
        forall|i: int| 0 <= i < 10 ==> post.suit_nibble(i) <= 4,
{
    assert forall|i: int| 0 <= i < 10 implies post.suit_nibble(i) <= 4 by {
        assert(post.suit_nibble(i) == pre.suit_nibble(i));
    }
}

/// The first roster slot at or after `i` whose stored identifier matches
/// `q` under zero-padded comparison.
pub open spec fn first_id_match_from(ids: Seq<Seq<u8>>, q: Seq<u8>, i: int) -> Option<int>
    decreases ids.len() - i,
{
    if i < 0 || i >= ids.len() {
        None
    } else if id_matches(ids[i], q) {
        Some(i)
    } else {
        first_id_match_from(ids, q, i + 1)
    }
}

/// The roster slot holding identifier `q`, if any.
pub open spec fn find_player_in(m: MatchView, q: Seq<u8>) -> Option<int> {
    first_id_match_from(m.player_ids, q, 0)
}

/// A found roster slot lies inside the roster and holds the identifier.
pub proof fn lemma_first_id_match_bounds(ids: Seq<Seq<u8>>, q: Seq<u8>, i: int)
    ensures
        match first_id_match_from(ids, q, i) {
            Some(j) => i <= j < ids.len() && id_matches(ids[j], q),
            None => true,
        },
    decreases ids.len() - i,
{
    if i < 0 || i >= ids.len() {
    } else if id_matches(ids[i], q) {
    } else {
        lemma_first_id_match_bounds(ids, q, i + 1);
    }
}

impl Match {
    /// Current phase as its numeric tag.
    pub fn get_phase(&self) -> (r: u8)
        ensures
            r == self@.phase,
    {
        self.phase
    }

    /// True once the match carries an end timestamp.
    pub fn is_ended(&self) -> (r: bool)
        ensures
            r == self@.is_ended(),
    {
        self.ended_at != 0
    }

    /// True once an archival match hash has been stored.
    pub fn has_match_hash(&self) -> (r: bool)
        ensures
            r == exists|k: int| 0 <= k < self@.match_hash.len() && self@.match_hash[k] != 0u8,
    {
        let mut i: usize = 0;
        while i < self.match_hash.len()
            invariant
                i <= self@.match_hash.len(),
                forall|k: int| 0 <= k < i ==> self@.match_hash[k] == 0u8,
            decreases self@.match_hash.len() - i,
        {
            if self.match_hash[i] != 0 {
                return true;
            }
            i += 1;
        }
        false
    }

    /// Resolves this match's game in the registry and returns its roster
    /// bounds; an unknown game type is an invalid payload.
    pub fn get_game_config_from_registry(&self, registry: &GameRegistry) -> (r: Result<
        GameConfig,
        GameError,
    >)
        ensures
            r == (match find_game_in(registry@, self@.game_type) {
                Some(g) => Ok::<GameConfig, GameError>(
                    GameConfig { min_players: g.min_players, max_players: g.max_players },
                ),
                None => Err::<GameConfig, GameError>(GameError::InvalidPayload),
            }),
    {
        match registry.find_game(self.game_type) {
            Some(game_def) => Ok(
                GameConfig {
                    min_players: game_def.min_players,
                    max_players: game_def.max_players,
                },
            ),
            None => Err(GameError::InvalidPayload),
        }
    }

    /// True when the roster has reached the registry's maximum.
    pub fn is_full(&self, registry: &GameRegistry) -> (r: Result<bool, GameError>)
        ensures
            r == (match find_game_in(registry@, self@.game_type) {
                Some(g) => Ok::<bool, GameError>(self@.player_count >= g.max_players),
                None => Err::<bool, GameError>(GameError::InvalidPayload),
            }),
    {
        let config = self.get_game_config_from_registry(registry)?;
        Ok(self.player_count >= config.max_players)
    }

    /// True when the roster has reached the registry's minimum.
    pub fn has_minimum_players(&self, registry: &GameRegistry) -> (r: Result<bool, GameError>)
        ensures
            r == (match find_game_in(registry@, self@.game_type) {
                Some(g) => Ok::<bool, GameError>(self@.player_count >= g.min_players),
                None => Err::<bool, GameError>(GameError::InvalidPayload),
            }),
    {
        let config = self.get_game_config_from_registry(registry)?;
        Ok(self.player_count >= config.min_players)
    }

    /// The registry's minimum player count for this match's game.
    pub fn get_min_players(&self, registry: &GameRegistry) -> (r: Result<u8, GameError>)
        ensures
            r == (match find_game_in(registry@, self@.game_type) {
                Some(g) => Ok::<u8, GameError>(g.min_players),
                None => Err::<u8, GameError>(GameError::InvalidPayload),
            }),
    {
        let config = self.get_game_config_from_registry(registry)?;
        Ok(config.min_players)
    }

    /// The registry's maximum player count for this match's game.
    pub fn get_max_players(&self, registry: &GameRegistry) -> (r: Result<u8, GameError>)
        ensures
            r == (match find_game_in(registry@, self@.game_type) {
                Some(g) => Ok::<u8, GameError>(g.max_players),
                None => Err::<u8, GameError>(GameError::InvalidPayload),
            }),
    {
        let config = self.get_game_config_from_registry(registry)?;
        Ok(config.max_players)
    }

    /// What [`Match::can_join`] returns: joins are open only while dealing,
    /// before the all-joined flag is set, and while room remains.
    pub open spec fn can_join_spec(m: MatchView, reg: Seq<crate::game_registry::GameDefView>) -> Result<
        bool,
        GameError,
    > {
        if m.phase != 0 {
            Ok(false)
        } else if m.all_joined() {
            Ok(false)
        } else {
            match find_game_in(reg, m.game_type) {
                Some(g) => Ok(m.player_count < g.max_players),
                None => Err(GameError::InvalidPayload),
            }
        }
    }

    /// True while the match can still accept a new player.
    pub fn can_join(&self, registry: &GameRegistry) -> (r: Result<bool, GameError>)
        ensures
            r == Self::can_join_spec(self@, registry@),
    {
        if self.phase != 0 {
            return Ok(false);  // Only in Dealing phase
        }
        if self.all_players_joined() {
            return Ok(false);
        }
        let is_full = self.is_full(registry)?;
        Ok(!is_full)
    }

    /// True when player `player_index` has declared a suit.
    pub fn has_declared_suit(&self, player_index: usize) -> (r: bool)
        requires
            self@.wf(),
        ensures
            r == (self@.declared_suit(player_index as int) is Some),
    {
        if player_index >= 10 {
            return false;
        }
        self.get_declared_suit(player_index).is_some()
    }

    /// The suit player `player_index` has declared, if any.
    pub fn get_declared_suit(&self, player_index: usize) -> (r: Option<u8>)
        requires
            self@.wf(),
        ensures
            r == self@.declared_suit(player_index as int),
    {
        if player_index >= 10 {
            return None;
        }
        // Extract the packed 4-bit suit value.
        let byte_index: usize = player_index / 2;
        let bit_offset: u8 = if player_index % 2 == 0 {
            0
        } else {
            4
        };
        let mask: u8 = 0x0F << bit_offset;
        let b: u8 = self.declared_suits[byte_index];
        let suit_value: u8 = (b & mask) >> bit_offset;
        proof {
            assert((b & (0x0Fu8 << 0u8)) >> 0u8 == b & 0x0Fu8) by (bit_vector);
            assert((b & (0x0Fu8 << 4u8)) >> 4u8 == (b >> 4u8) & 0x0Fu8) by (bit_vector);
        }
        if suit_value == 0 {
            None
        } else {
            Some(suit_value - 1)
        }
    }

    /// True when any player has declared `suit`.
    pub fn is_suit_locked(&self, suit: u8) -> (r: bool)
        requires
            self@.wf(),
            suit <= 3,
        ensures
            r == self@.suit_locked(suit),
    {
        // A claim of suit s is stored as the nibble s + 1.
        let suit_value: u8 = suit + 1;
        let mut j: usize = 0;
        while j < 5
            invariant
                j <= 5,
                self@.wf(),
                suit <= 3,
                suit_value == suit + 1,
                forall|i: int| 0 <= i < 2 * j ==> self@.declared_suit(i) != Some(suit),
            decreases 5 - j,
        {
            let b: u8 = self.declared_suits[j];
            proof {
                assert(b & (0x0Fu8 << 0u8) == b & 0x0Fu8) by (bit_vector);
                assert((b >> 4u8) & 0x0Fu8 == (b >> 4u8) & 0x0Fu8);
                assert(self@.suit_nibble(2 * j as int) == b & 0x0Fu8);
                assert(self@.suit_nibble(2 * j as int + 1) == (b >> 4u8) & 0x0Fu8);
            }
            if (b & 0x0F) == suit_value {
                proof {
                    assert(self@.declared_suit(2 * j as int) == Some(suit));
                }
                return true;
            }
            if ((b >> 4) & 0x0F) == suit_value {
                proof {
                    assert(self@.declared_suit(2 * j as int + 1) == Some(suit));
                }
                return true;
            }
            j += 1;
        }
        false
    }

    /// Records `suit` as player `player_index`'s claim in the packed field.
    /// Out-of-range arguments leave the record untouched.
    pub fn set_declared_suit(&mut self, player_index: usize, suit: u8)
        requires
            old(self)@.wf(),
        ensures
            final(self)@.wf(),
            final(self)@ == with_declared_suit(old(self)@, player_index as int, suit),
            player_index < 10 && suit <= 3 ==> {
                &&& final(self)@.suit_nibble(player_index as int) == suit + 1
                &&& (forall|j: int|
                    0 <= j < 10 && j != player_index ==> final(self)@.suit_nibble(j)
                        == old(self)@.suit_nibble(j))
                &&& final(self)@ == (MatchView {
                    declared_suits: final(self)@.declared_suits,
                    ..old(self)@
                })
            },
            !(player_index < 10 && suit <= 3) ==> final(self)@ == old(self)@,
    {
        if player_index >= 10 || suit > 3 {
            return;
        }
        // Pack the claim (suit + 1) into the player's nibble, clearing the
        // previous value and leaving the partner nibble alone.
        let suit_value: u8 = suit + 1;
        let byte_index: usize = player_index / 2;
        let bit_offset: u8 = if player_index % 2 == 0 {
            0
        } else {
            4
        };
        let mask: u8 = 0x0F << bit_offset;
        let b: u8 = self.declared_suits[byte_index];
        let nb: u8 = (b & !mask) | (suit_value << bit_offset);
        self.declared_suits[byte_index] = nb;
        proof {
            let p = player_index as int;
            let pre = old(self)@;
            let post = self@;
            if player_index % 2 == 0 {
                assert(nb & 0x0Fu8 == suit_value && (nb >> 4u8) & 0x0Fu8 == (b >> 4u8) & 0x0Fu8)
                    by (bit_vector)
                    requires
                        nb == (b & !(0x0Fu8 << 0u8)) | (suit_value << 0u8),
                        suit_value <= 4u8,
                ;
            } else {
                assert((nb >> 4u8) & 0x0Fu8 == suit_value && nb & 0x0Fu8 == b & 0x0Fu8)
                    by (bit_vector)
                    requires
                        nb == (b & !(0x0Fu8 << 4u8)) | (suit_value << 4u8),
                        suit_value <= 4u8,
                ;
            }
            assert(post.declared_suits == pre.declared_suits.update(byte_index as int, nb));
            assert(post.suit_nibble(p) == suit_value);
            assert forall|j: int| 0 <= j < 10 && j != p implies post.suit_nibble(j)
                == pre.suit_nibble(j) by {
                if j / 2 == byte_index as int {
                    assert(j % 2 != p % 2);
                } else {
                    assert(post.declared_suits[j / 2] == pre.declared_suits[j / 2]);
                }
            }
            assert(post =~= (MatchView { declared_suits: post.declared_suits, ..pre }));
        }
    }

    /// The floor-card-revealed flag.
    pub fn floor_card_revealed(&self) -> (r: bool)
        ensures
            r == self@.floor_revealed(),
    {
        (self.flags & 0x01) != 0
    }

    /// Sets or clears the floor-card-revealed flag, leaving the other
    /// packed flags alone.
    pub fn set_floor_card_revealed(&mut self, revealed: bool)
        ensures
            final(self)@ == with_floor_revealed(old(self)@, revealed),
            final(self)@.floor_revealed() == revealed,
            final(self)@.all_joined() == old(self)@.all_joined(),
            final(self)@ == (MatchView { flags: final(self)@.flags, ..old(self)@ }),
            old(self)@.wf() ==> final(self)@.wf(),
    {
        let f: u8 = self.flags;
        if revealed {
            self.flags = f | 0x01;
            proof {
                assert((f | 0x01u8) & 0x01u8 != 0 && (f | 0x01u8) & 0x02u8 == f & 0x02u8)
                    by (bit_vector);
            }
        } else {
            self.flags = f & 0xFE;
            proof {
                assert((f & 0xFEu8) & 0x01u8 == 0 && (f & 0xFEu8) & 0x02u8 == f & 0x02u8)
                    by (bit_vector);
            }
        }
        proof {
            if old(self)@.wf() {
                lemma_nibbles_unchanged(old(self)@, self@);
            }
        }
    }

    /// The all-players-joined flag.
    pub fn all_players_joined(&self) -> (r: bool)
        ensures
            r == self@.all_joined(),
    {
        (self.flags & 0x02) != 0
    }

    /// Sets or clears the all-players-joined flag, leaving the other packed
    /// flags alone.
    pub fn set_all_players_joined(&mut self, joined: bool)
        ensures
            final(self)@ == with_all_joined(old(self)@, joined),
            final(self)@.all_joined() == joined,
            final(self)@.floor_revealed() == old(self)@.floor_revealed(),
            final(self)@ == (MatchView { flags: final(self)@.flags, ..old(self)@ }),
            old(self)@.wf() ==> final(self)@.wf(),
    {
        let f: u8 = self.flags;
        if joined {
            self.flags = f | 0x02;
            proof {
                assert((f | 0x02u8) & 0x02u8 != 0 && (f | 0x02u8) & 0x01u8 == f & 0x01u8)
                    by (bit_vector);
            }
        } else {
            self.flags = f & 0xFD;
            proof {
                assert((f & 0xFDu8) & 0x02u8 == 0 && (f & 0xFDu8) & 0x01u8 == f & 0x01u8)
                    by (bit_vector);
            }
        }
        proof {
            if old(self)@.wf() {
                lemma_nibbles_unchanged(old(self)@, self@);
            }
        }
    }

    /// The last accepted nonce of player `player_index`; zero for an
    /// out-of-range index.
    pub fn get_last_nonce(&self, player_index: usize) -> (r: u64)
        requires
            self@.wf(),
        ensures
            r == (if player_index < 10 {
                self@.last_nonce[player_index as int]
            } else {
                0u64
            }),
    {
        if player_index >= 10 {
            return 0;
        }
        self.last_nonce[player_index]
    }

    /// Records `nonce` as the last accepted nonce of player `player_index`.
    /// An out-of-range index leaves the record untouched.
    pub fn set_last_nonce(&mut self, player_index: usize, nonce: u64)
        requires
            old(self)@.wf(),
        ensures
            final(self)@.wf(),
            final(self)@ == (if player_index < 10 {
                (MatchView {
                    last_nonce: old(self)@.last_nonce.update(player_index as int, nonce),
                    ..old(self)@
                })
            } else {
                old(self)@
            }),
    {
        if player_index < 10 {
            self.last_nonce[player_index] = nonce;
        }
        proof {
            lemma_nibbles_unchanged(old(self)@, self@);
        }
    }

    /// The committed hand size of player `player_index`; zero for an
    /// out-of-range index.
    pub fn get_hand_size(&self, player_index: usize) -> (r: u8)
        requires
            self@.wf(),
        ensures
            r == (if player_index < 10 {
                self@.hand_sizes[player_index as int]
            } else {
                0u8
            }),
    {
        if player_index >= 10 {
            return 0;
        }
        self.hand_sizes[player_index]
    }

    /// Records the committed hand size of player `player_index`.  An
    /// out-of-range index leaves the record untouched.
    pub fn set_hand_size(&mut self, player_index: usize, size: u8)
        requires
            old(self)@.wf(),
        ensures
            final(self)@.wf(),
            final(self)@ == (if player_index < 10 {
                (MatchView {
                    hand_sizes: old(self)@.hand_sizes.update(player_index as int, size),
                    ..old(self)@
                })
            } else {
                old(self)@
            }),
    {
        if player_index < 10 {
            self.hand_sizes[player_index] = size;
        }
        proof {
            lemma_nibbles_unchanged(old(self)@, self@);
        }
    }

    /// The floor-card commitment, or `None` while the stored slot is all
    /// zeros.
    pub fn get_floor_card_hash(&self) -> (r: Option<Vec<u8>>)
        requires
            self@.wf(),
        ensures
            match r {
                Some(h) => h@ == self@.floor_card_hash && !self@.floor_hash_clear(),
                None => self@.floor_hash_clear(),
            },
    {
        let mut i: usize = 0;
        let mut any: bool = false;
        while i < 32
            invariant
                i <= 32,
                self@.wf(),
                any == exists|k: int| 0 <= k < i && self@.floor_card_hash[k] != 0u8,
            decreases 32 - i,
        {
            if self.floor_card_hash[i] != 0 {
                any = true;
            }
            i += 1;
        }
        if any {
            Some(copy_bytes(&self.floor_card_hash))
        } else {
            None
        }
    }

    /// Stores a floor-card commitment.
    pub fn set_floor_card_hash(&mut self, hash: &Vec<u8>)
        requires
            old(self)@.wf(),
            hash@.len() == 32,
        ensures
            final(self)@.wf(),
            final(self)@ == (MatchView { floor_card_hash: hash@, ..old(self)@ }),
    {
        self.floor_card_hash = copy_bytes(hash);
        proof {
            lemma_nibbles_unchanged(old(self)@, self@);
        }
    }

    /// Zeroes the floor-card commitment slot.
    pub fn clear_floor_card_hash(&mut self)
        requires
            old(self)@.wf(),
        ensures
            final(self)@.wf(),
            final(self)@.floor_hash_clear(),
            final(self)@ == (MatchView { floor_card_hash: zero_hash(), ..old(self)@ }),
    {
        self.floor_card_hash = zero_bytes(32);
        proof {
            lemma_nibbles_unchanged(old(self)@, self@);
            assert(self@.floor_card_hash =~= zero_hash());
        }
    }

    /// The committed hand hash of player `player_index`, or `None` while
    /// the slot is all zeros or the index is out of range.
    pub fn get_committed_hand_hash(&self, player_index: usize) -> (r: Option<Vec<u8>>)
        requires
            self@.wf(),
        ensures
            match r {
                Some(h) => {
                    &&& player_index < 10
                    &&& h@ == self@.hand_hash_of(player_index as int)
                    &&& exists|k: int|
                        0 <= k < 32 && self@.hand_hash_of(player_index as int)[k] != 0u8
                },
                None => player_index >= 10 || (forall|k: int|
                    0 <= k < 32 ==> self@.hand_hash_of(player_index as int)[k] == 0u8),
            },
    {
        if player_index >= 10 {
            return None;
        }
        let start: usize = player_index * 32;
        let mut hash: Vec<u8> = Vec::new();
        let mut k: usize = 0;
        let mut any: bool = false;
        while k < 32
            invariant
                k <= 32,
                self@.wf(),
                player_index < 10,
                start == player_index * 32,
                hash@ == self@.hand_hash_of(player_index as int).subrange(0, k as int),
                any == exists|t: int|
                    0 <= t < k && self@.hand_hash_of(player_index as int)[t] != 0u8,
            decreases 32 - k,
        {
            let b: u8 = self.committed_hand_hashes[start + k];
            proof {
                assert(self@.hand_hash_of(player_index as int)[k as int] == self@
                    .committed_hand_hashes[start + k]);
            }
            if b != 0 {
                any = true;
            }
            hash.push(b);
            proof {
                assert(hash@ =~= self@.hand_hash_of(player_index as int).subrange(
                    0,
                    k as int + 1,
                ));
            }
            k += 1;
        }
        proof {
            assert(hash@ =~= self@.hand_hash_of(player_index as int));
        }
        if any {
            Some(hash)
        } else {
            None
        }
    }

    /// Stores the committed hand hash of player `player_index`.  An
    /// out-of-range index leaves the record untouched.
    pub fn set_committed_hand_hash(&mut self, player_index: usize, hash: &Vec<u8>)
        requires
            old(self)@.wf(),
            hash@.len() == 32,
        ensures
            final(self)@.wf(),
            player_index < 10 ==> {
                &&& final(self)@.hand_hash_of(player_index as int) == hash@
                &&& (forall|j: int|
                    0 <= j < 10 && j != player_index ==> final(self)@.hand_hash_of(j) == old(
                        self,
                    )@.hand_hash_of(j))
                &&& final(self)@ == (MatchView {
                    committed_hand_hashes: final(self)@.committed_hand_hashes,
                    ..old(self)@
                })
            },
            player_index >= 10 ==> final(self)@ == old(self)@,
    {
        if player_index >= 10 {
            return;
        }
        let start: usize = player_index * 32;
        let mut k: usize = 0;
        while k < 32
            invariant
                k <= 32,
                player_index < 10,
                start == player_index * 32,
                hash@.len() == 32,
                self@.committed_hand_hashes.len() == 320,
                forall|t: int|
                    0 <= t < 320 ==> self@.committed_hand_hashes[t] == (if start <= t < start + k {
                        hash@[t - start]
                    } else {
                        old(self)@.committed_hand_hashes[t]
                    }),
                self@ == (MatchView {
                    committed_hand_hashes: self@.committed_hand_hashes,
                    ..old(self)@
                }),
            decreases 32 - k,
        {
            self.committed_hand_hashes[start + k] = hash[k];
            k += 1;
        }
        proof {
            lemma_nibbles_unchanged(old(self)@, self@);
            assert(self@.hand_hash_of(player_index as int) =~= hash@);
            assert forall|j: int| 0 <= j < 10 && j != player_index implies self@.hand_hash_of(j)
                =~= old(self)@.hand_hash_of(j) by {
            }
        }
    }

    /// The stored identifier in roster slot `player_index`, or `None` for
    /// an out-of-range index.
    pub fn get_player_id(&self, player_index: usize) -> (r: Option<Vec<u8>>)
        requires
            self@.wf(),
        ensures
            match r {
                Some(id) => player_index < 10 && id@ == self@.player_ids[player_index as int],
                None => player_index >= 10,
            },
    {
        if player_index >= 10 {
            return None;
        }
        Some(copy_bytes(&self.player_ids[player_index]))
    }

    /// Stores a zero-padded identifier in roster slot `player_index`.  An
    /// out-of-range index leaves the record untouched.
    pub fn set_player_id(&mut self, player_index: usize, user_id: &Vec<u8>)
        requires
            old(self)@.wf(),
            user_id@.len() == 64,
        ensures
            final(self)@.wf(),
            final(self)@ == (if player_index < 10 {
                (MatchView {
                    player_ids: old(self)@.player_ids.update(player_index as int, user_id@),
                    ..old(self)@
                })
            } else {
                old(self)@
            }),
    {
        if player_index < 10 {
            self.player_ids[player_index] = copy_bytes(user_id);
            proof {
                assert(self@.player_ids =~= old(self)@.player_ids.update(
                    player_index as int,
                    user_id@,
                ));
            }
        }
        proof {
            lemma_nibbles_unchanged(old(self)@, self@);
        }
    }

    /// Scans the roster for `user_id` under zero-padded comparison and
    /// returns its slot.
    pub fn find_player_index(&self, user_id: &Vec<u8>) -> (r: Option<usize>)
        requires
            self@.wf(),
        ensures
            match r {
                Some(i) => find_player_in(self@, user_id@) == Some(i as int),
                None => find_player_in(self@, user_id@) is None,
            },
    {
        let mut i: usize = 0;
        while i < 10
            invariant
                i <= 10,
                self@.wf(),
                find_player_in(self@, user_id@) == first_id_match_from(
                    self@.player_ids,
                    user_id@,
                    i as int,
                ),
            decreases 10 - i,
        {
            if matches_padded(&self.player_ids[i], user_id) {
                return Some(i);
            }
            i += 1;
        }
        None
    }

    /// True when `user_id` already occupies a roster slot.
    pub fn has_player_id(&self, user_id: &Vec<u8>) -> (r: bool)
        requires
            self@.wf(),
        ensures
            r == (find_player_in(self@, user_id@) is Some),
    {
        self.find_player_index(user_id).is_some()
    }

    /// A fresh record holding the same value, used to stage a transition
    /// that must commit atomically or not at all.
    pub fn duplicate(&self) -> (r: Match)
        ensures
            r@ == self@,
    {
        let mut ids: Vec<Vec<u8>> = Vec::new();
        let mut i: usize = 0;
        while i < self.player_ids.len()
            invariant
                i <= self.player_ids@.len(),
                ids@.len() == i,
                forall|k: int| 0 <= k < i ==> ids@[k]@ == self.player_ids@[k]@,
            decreases self.player_ids@.len() - i,
        {
            ids.push(copy_bytes(&self.player_ids[i]));
            i += 1;
        }
        let r = Match {
            match_id: copy_bytes(&self.match_id),
            version: copy_bytes(&self.version),
            game_name: copy_bytes(&self.game_name),
            game_type: self.game_type,
            seed: self.seed,
            phase: self.phase,
            current_player: self.current_player,
            player_count: self.player_count,
            player_ids: ids,
            move_count: self.move_count,
            created_at: self.created_at,
            ended_at: self.ended_at,
            match_hash: copy_bytes(&self.match_hash),
            hot_url: copy_bytes(&self.hot_url),
            authority: copy_bytes(&self.authority),
            declared_suits: copy_bytes(&self.declared_suits),
            flags: self.flags,
            floor_card_hash: copy_bytes(&self.floor_card_hash),
            hand_sizes: copy_bytes(&self.hand_sizes),
            committed_hand_hashes: copy_bytes(&self.committed_hand_hashes),
            last_nonce: copy_u64s(&self.last_nonce),
        };
        proof {
            assert(r@.player_ids =~= self@.player_ids);
            assert(r@ =~= self@);
        }
        r
    }
}

} // verus!
