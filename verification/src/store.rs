//! In-memory game registry keyed by [`GameId`].

use crate::game::ids::GameId;
use crate::game::state::{Game, GameView};
use vstd::prelude::*;

verus! {

/// Process-local store of live games (the transport wraps this in a mutex).
pub struct GameStore {
    next_id: u64,
    games: Vec<(u64, Game)>,
}

/// The games with their keys, and the key that the next one gets.
pub struct GameStoreView {
    pub next_id: u64,
    pub games: Seq<(u64, GameView)>,
}

/// Position of the first entry under a key.
pub open spec fn key_index(games: Seq<(u64, GameView)>, key: u64) -> Option<int>
    decreases games.len(),
{
    if games.len() == 0 {
        None
    } else {
        match key_index(games.drop_last(), key) {
            Some(i) => Some(i),
            None => if games.last().0 == key { Some(games.len() - 1) } else { None },
        }
    }
}

/// The position is that of the first entry under the key; there is one exactly if some entry is
/// under it.
pub proof fn key_index_is_first(games: Seq<(u64, GameView)>, key: u64)
    ensures
        match key_index(games, key) {
            Some(i) => 0 <= i < games.len() && games[i].0 == key && (forall|k: int|
                0 <= k < i ==> (#[trigger] games[k]).0 != key),
            None => forall|k: int| 0 <= k < games.len() ==> (#[trigger] games[k]).0 != key,
        },
    decreases games.len(),
{
    if games.len() > 0 {
        let front = games.drop_last();
        key_index_is_first(front, key);
        match key_index(front, key) {
            Some(i) => {
                assert(front[i] == games[i]);
                assert forall|k: int| 0 <= k < i implies (#[trigger] games[k]).0 != key by {
                    assert(front[k] == games[k]);
                }
            },
            None => {
                assert forall|k: int| 0 <= k < games.len() - 1 implies (#[trigger] games[k]).0
                    != key by {
                    assert(front[k] == games[k]);
                }
            },
        }
    }
}

impl GameStoreView {
    pub open spec fn empty() -> GameStoreView {
        GameStoreView { next_id: 1, games: seq![] }
    }

    /// The game under an id.
    pub open spec fn game(self, id: GameId) -> Option<GameView> {
        match key_index(self.games, id.0) {
            Some(i) => Some(self.games[i].1),
            None => None,
        }
    }

    /// The store with another state of the game under an id.
    pub open spec fn with_game(self, id: GameId, g: GameView) -> GameStoreView {
        match key_index(self.games, id.0) {
            Some(i) => GameStoreView { games: self.games.update(i, (id.0, g)), ..self },
            None => self,
        }
    }

    /// The store with a new game under the next id. Ids stop growing at `u64::MAX`.
    pub open spec fn inserted(self, g: GameView) -> GameStoreView {
        let named = GameView { id: GameId(self.next_id), ..g };
        GameStoreView {
            next_id: if self.next_id < u64::MAX { (self.next_id + 1) as u64 } else { u64::MAX },
            games: match key_index(self.games, self.next_id) {
                Some(i) => self.games.update(i, (self.next_id, named)),
                None => self.games.push((self.next_id, named)),
            },
        }
    }
}

/// What a list of stored games holds.
pub open spec fn games_view(games: Seq<(u64, Game)>) -> Seq<(u64, GameView)> {
    games.map_values(|e: (u64, Game)| (e.0, e.1@))
}

impl View for GameStore {
    type V = GameStoreView;

    closed spec fn view(&self) -> GameStoreView {
        GameStoreView { next_id: self.next_id, games: games_view(self.games@) }
    }
}

impl Default for GameStore {
    fn default() -> (s: GameStore)
        ensures
            s@ == GameStoreView::empty(),
    {
        GameStore::new()
    }
}

impl GameStore {
    pub fn new() -> (s: GameStore)
        ensures
            s@ == GameStoreView::empty(),
    {
        let s = GameStore { next_id: 1, games: Vec::new() };
        assert(s@.games =~= seq![]);
        s
    }

    #[verifier::loop_isolation(false)]
    fn position(&self, key: u64) -> (r: Option<usize>)
        ensures
            match r {
                Some(i) => i < self.games@.len() && key_index(self@.games, key) == Some(i as int),
                None => key_index(self@.games, key) is None,
            },
    {
        proof {
            key_index_is_first(self@.games, key);
        }
        let mut i: usize = 0;
        while i < self.games.len()
            invariant
                i <= self.games.len(),
                forall|k: int| 0 <= k < i ==> (#[trigger] self@.games[k]).0 != key,
            decreases self.games.len() - i,
        {
            assert(self@.games[i as int].0 == self.games@[i as int].0);
            if self.games[i].0 == key {
                return Some(i);
            }
            i += 1;
        }
        None
    }

    /// Assign a fresh id, store the game, return the id.
    pub fn insert(&mut self, game: Game) -> (id: GameId)
        ensures
            id == GameId(old(self)@.next_id),
            final(self)@ == old(self)@.inserted(game@),
    {
        let key = self.next_id;
        let id = GameId(key);
        let mut game = game;
        game.id = id;
        let at = self.position(key);
        self.next_id = key.saturating_add(1);
        match at {
            Some(i) => {
                self.games.set(i, (key, game));
            },
            None => {
                self.games.push((key, game));
            },
        }
        assert(self@.games =~= old(self)@.inserted(game@).games);
        id
    }

    pub fn get(&self, id: GameId) -> (r: Option<&Game>)
        ensures
            match r {
                Some(g) => self@.game(id) == Some(g@),
                None => self@.game(id) is None,
            },
    {
        match self.position(id.0) {
            Some(i) => Some(&self.games[i].1),
            None => None,
        }
    }

    pub fn get_mut(&mut self, id: GameId) -> (r: Option<&mut Game>)
        ensures
            match r {
                Some(g) => old(self)@.game(id) == Some(g@) && final(self)@ == old(self)@.with_game(
                    id,
                    final(g)@,
                ),
                None => old(self)@.game(id) is None && final(self)@ == old(self)@,
            },
    {
        match self.position(id.0) {
            Some(i) => {
                proof {
                    key_index_is_first(self@.games, id.0);
                }
                let g = &mut self.games[i].1;
                proof {
                    assert(games_view(old(self).games@.update(i as int, (id.0, *final(g))))
                        =~= games_view(old(self).games@).update(i as int, (id.0, final(g)@)));
                }
                Some(g)
            },
            None => None,
        }
    }

    pub fn len(&self) -> (n: usize)
        ensures
            n == self@.games.len(),
    {
        self.games.len()
    }

    pub fn is_empty(&self) -> (b: bool)
        ensures
            b == (self@.games.len() == 0),
    {
        self.games.len() == 0
    }
}

/// A stored game is found under its id, with that id; other games stay as they were, and ids go
/// up one by one.
pub proof fn inserted_game_is_found(store: GameStoreView, g: GameView, other: GameId)
    ensures
        store.inserted(g).game(GameId(store.next_id)) == Some(
            GameView { id: GameId(store.next_id), ..g },
        ),
        other.0 != store.next_id ==> store.inserted(g).game(other) == store.game(other),
        store.next_id < u64::MAX ==> store.inserted(g).next_id == store.next_id + 1,
{
    let after = store.inserted(g);
    key_index_is_first(store.games, store.next_id);
    key_index_is_first(after.games, store.next_id);
    key_index_is_first(store.games, other.0);
    key_index_is_first(after.games, other.0);
    if let Some(i) = key_index(store.games, store.next_id) {
        assert(after.games[i].0 == store.next_id);
        let k = key_index(after.games, store.next_id)->0;
        assert(k < i ==> after.games[k] == store.games[k]);
    } else {
        assert(after.games[store.games.len() as int].0 == store.next_id);
        let k = key_index(after.games, store.next_id)->0;
        assert(k < store.games.len() ==> after.games[k] == store.games[k]);
    }
    if other.0 != store.next_id {
        if let Some(k) = key_index(after.games, other.0) {
            assert(after.games[k] == store.games[k]);
            if let Some(m) = key_index(store.games, other.0) {
                assert(after.games[m] == store.games[m]);
            }
        } else if let Some(m) = key_index(store.games, other.0) {
            assert(after.games[m] == store.games[m]);
        }
    }
}

/// Changing one game leaves the others alone.
pub proof fn changed_game_is_found(store: GameStoreView, id: GameId, g: GameView, other: GameId)
    requires
        store.game(id) is Some,
    ensures
        store.with_game(id, g).game(id) == Some(g),
        other != id ==> store.with_game(id, g).game(other) == store.game(other),
{
    let after = store.with_game(id, g);
    key_index_is_first(store.games, id.0);
    key_index_is_first(after.games, id.0);
    key_index_is_first(store.games, other.0);
    key_index_is_first(after.games, other.0);
    let i = key_index(store.games, id.0)->0;
    assert(after.games[i].0 == id.0);
    let k = key_index(after.games, id.0)->0;
    assert(k < i ==> after.games[k] == store.games[k]);
    if other != id {
        if let Some(a) = key_index(after.games, other.0) {
            assert(after.games[a] == store.games[a]);
            if let Some(m) = key_index(store.games, other.0) {
                assert(after.games[m] == store.games[m]);
            }
        } else if let Some(m) = key_index(store.games, other.0) {
            assert(after.games[m] == store.games[m]);
        }
    }
}

} // verus!
