//! The per-game capacity bounds that the registry hands to the match
//! lifecycle: how many players a game needs and how many it allows.

use vstd::prelude::*;

verus! {

/// Roster bounds for one game type, as declared in the registry.
#[derive(Clone, Copy, Debug, PartialEq, Eq, Structural)]
pub struct GameConfig {
    pub min_players: u8,
    pub max_players: u8,
}

} // verus!
