//! The game registry consumed by the match lifecycle: a small table mapping
//! a game type tag to its declared name, player bounds, and enabled flag.
//!
//! Registry administration (registering, updating, or disabling games) is an
//! external collaborator; the core only looks games up.

use vstd::prelude::*;

verus! {

/// One registered game: its tag, display name (20 bytes, zero-padded),
/// player bounds, off-chain rule engine endpoint (200 bytes, zero-padded),
/// version, and enabled flag (non-zero means enabled).
pub struct GameDefinition {
    pub game_id: u8,
    pub name: Vec<u8>,
    pub min_players: u8,
    pub max_players: u8,
    pub rule_engine_url: Vec<u8>,
    pub version: u8,
    pub enabled: u8,
}

/// The mathematical value of one registry entry.
pub ghost struct GameDefView {
    pub game_id: u8,
    pub name: Seq<u8>,
    pub min_players: u8,
    pub max_players: u8,
    pub rule_engine_url: Seq<u8>,
    pub version: u8,
    pub enabled: u8,
}

impl View for GameDefinition {
    type V = GameDefView;

    open spec fn view(&self) -> GameDefView {
        GameDefView {
            game_id: self.game_id,
            name: self.name@,
            min_players: self.min_players,
            max_players: self.max_players,
            rule_engine_url: self.rule_engine_url@,
            version: self.version,
            enabled: self.enabled,
        }
    }
}

/// The registry of games a deployment knows about.
pub struct GameRegistry {
    pub games: Vec<GameDefinition>,
}

impl View for GameRegistry {
    type V = Seq<GameDefView>;

    open spec fn view(&self) -> Seq<GameDefView> {
        Seq::new(self.games@.len(), |i: int| self.games@[i]@)
    }
}

impl GameDefView {
    /// Well-formedness of one entry's fixed-width fields.
    pub open spec fn wf(self) -> bool {
        &&& self.name.len() == 20
        &&& self.rule_engine_url.len() == 200
    }
}

/// Well-formedness of a registry: every entry keeps its layout.
pub open spec fn registry_wf(games: Seq<GameDefView>) -> bool {
    forall|i: int| 0 <= i < games.len() ==> (#[trigger] games[i]).wf()
}

/// The first registry entry at or after position `i` whose tag is `game_id`.
pub open spec fn find_game_from(games: Seq<GameDefView>, game_id: u8, i: int) -> Option<GameDefView>
    decreases games.len() - i,
{
    if i < 0 || i >= games.len() {
        None
    } else if games[i].game_id == game_id {
        Some(games[i])
    } else {
        find_game_from(games, game_id, i + 1)
    }
}

/// The first registry entry whose tag is `game_id`, if any.
pub open spec fn find_game_in(games: Seq<GameDefView>, game_id: u8) -> Option<GameDefView> {
    find_game_from(games, game_id, 0)
}

/// A found entry is one of the registry's entries.
pub proof fn lemma_find_game_from_found(games: Seq<GameDefView>, game_id: u8, i: int)
    ensures
        match find_game_from(games, game_id, i) {
            Some(g) => exists|j: int| 0 <= j < games.len() && games[j] == g,
            None => true,
        },
    decreases games.len() - i,
{
    if i < 0 || i >= games.len() {
    } else if games[i].game_id == game_id {
        assert(0 <= i < games.len() && games[i] == games[i]);
    } else {
        lemma_find_game_from_found(games, game_id, i + 1);
    }
}

/// In a well-formed registry, a found entry keeps its layout.
pub proof fn lemma_found_game_wf(games: Seq<GameDefView>, game_id: u8)
    requires
        registry_wf(games),
    ensures
        match find_game_in(games, game_id) {
            Some(g) => g.wf(),
            None => true,
        },
{
    lemma_find_game_from_found(games, game_id, 0);
}

impl GameRegistry {
    /// Finds a game by its tag: the first entry carrying `game_id`.
    pub fn find_game(&self, game_id: u8) -> (r: Option<&GameDefinition>)
        ensures
            match r {
                Some(g) => find_game_in(self@, game_id) == Some(g@),
                None => find_game_in(self@, game_id) is None,
            },
    {
        let mut i: usize = 0;
        while i < self.games.len()
            invariant
                i <= self.games@.len(),
                find_game_in(self@, game_id) == find_game_from(self@, game_id, i as int),
            decreases self.games@.len() - i,
        {
            if self.games[i].game_id == game_id {
                return Some(&self.games[i]);
            }
            i += 1;
        }
        None
    }
}

} // verus!
