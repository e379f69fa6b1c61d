//! Game records and the pages they travel in.

use vstd::prelude::*;

verus! {

/// One hit of a catalog search: the catalog's id of a game and its name.
#[derive(Clone, Debug)]
pub struct SearchHit {
    pub id: usize,
    pub name: String,
}

/// A game record. `id` and `name` come from the catalog and never change;
/// the two image URLs start absent and are filled in by enrichment.
#[derive(Clone, Debug)]
pub struct Game {
    pub id: usize,
    pub name: String,
    pub logo_url: Option<String>,
    pub hero_url: Option<String>,
}

/// What a game record holds, as plain mathematical values.
pub struct GameView {
    pub id: nat,
    pub name: Seq<char>,
    pub logo_url: Option<Seq<char>>,
    pub hero_url: Option<Seq<char>>,
}

/// The characters of an optional string.
pub open spec fn text_of(s: Option<String>) -> Option<Seq<char>> {
    match s {
        Some(t) => Some(t@),
        None => None,
    }
}

impl View for Game {
    type V = GameView;

    open spec fn view(&self) -> GameView {
        GameView {
            id: self.id as nat,
            name: self.name@,
            logo_url: text_of(self.logo_url),
            hero_url: text_of(self.hero_url),
        }
    }
}

/// The views of a sequence of records, in order.
pub open spec fn views(games: Seq<Game>) -> Seq<GameView> {
    Seq::new(games.len(), |i: int| games[i]@)
}

impl Game {
    /// A record for a game of the catalog, with no image attached yet.
    pub fn new(id: usize, name: String) -> (game: Game)
        ensures
            game == (Game { id, name, logo_url: None, hero_url: None }),
    {
        Game { id, name, logo_url: None, hero_url: None }
    }
}

impl From<SearchHit> for Game {
    /// The record of a search hit: its id and name, and no image yet.
    fn from(hit: SearchHit) -> (game: Game) {
        Game::new(hit.id, hit.name)
    }
}

impl vstd::std_specs::convert::FromSpecImpl<SearchHit> for Game {
    open spec fn obeys_from_spec() -> bool {
        true
    }

    open spec fn from_spec(hit: SearchHit) -> Game {
        Game { id: hit.id, name: hit.name, logo_url: None, hero_url: None }
    }
}

/// One page of search results.
#[derive(Clone, Debug)]
pub struct GameList {
    pub games: Vec<Game>,
    /// Whether the page reaches the end of the search results.
    pub is_final: bool,
}

} // verus!
