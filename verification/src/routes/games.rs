//! `GET /games`: search, cut the page, enrich it, answer.
//!
//! The request goes through its phases one step at a time. The function
//! here does no search and no lookup: it says what to do next, and is told
//! what came of it.

use vstd::prelude::*;
use vstd::string::StringExecFns;
use crate::enrichment::{FanOut, Task};
use crate::model::game::{views, Game, GameList, GameView, SearchHit};
use crate::model::response::{Response, STATUS_INTERNAL_SERVER_ERROR};
use crate::pagination::{
    or_default, page_is_final, page_items, paging_value, shape, DEFAULT_LIMIT, DEFAULT_OFFSET,
};

verus! {

/// The parameters of a search.
#[derive(Clone, Debug)]
pub struct SearchGamesQuery {
    pub query: String,
    pub limit: Option<u32>,
    pub offset: Option<u32>,
    pub include_hero: Option<bool>,
    pub include_logo: Option<bool>,
}

/// Whether an enrichment was asked for: only when the caller says so.
pub open spec fn asked(flag: Option<bool>) -> bool {
    flag == Some(true)
}

impl SearchGamesQuery {
    /// The page size asked for: 15 unless the caller names one.
    pub open spec fn spec_limit(&self) -> int {
        or_default(self.limit, DEFAULT_LIMIT)
    }

    /// The page start asked for: 0 unless the caller names one.
    pub open spec fn spec_offset(&self) -> int {
        or_default(self.offset, DEFAULT_OFFSET)
    }

    /// Whether the caller asked for logos.
    pub fn wants_logo(&self) -> (want: bool)
        ensures
            want == asked(self.include_logo),
    {
        match self.include_logo {
            Some(want) => want,
            None => false,
        }
    }

    /// Whether the caller asked for hero images.
    pub fn wants_hero(&self) -> (want: bool)
        ensures
            want == asked(self.include_hero),
    {
        match self.include_hero {
            Some(want) => want,
            None => false,
        }
    }
}

/// What happened since the last step of a search request.
pub enum SearchEvent {
    /// Nothing yet: the request has just come in.
    Start,
    /// The catalog search failed, for whatever reason.
    SearchFailed,
    /// The catalog search found these games, in this order.
    Found(Vec<SearchHit>),
    /// The driver has worked on the enrichment it was given.
    Enriched { engine: FanOut, is_final: bool },
}

/// What a search request does next.
pub enum SearchStep {
    /// Search the catalog for this term, then report `Found` or
    /// `SearchFailed`.
    Search(String),
    /// Run the lookups of this engine until it is finished, then report
    /// `Enriched` with the engine and the flag given here.
    Enrich { engine: FanOut, is_final: bool },
    /// Send this answer: the request is over.
    Respond(Response<GameList>),
}

/// The records of search hits, in order, with no image attached.
pub open spec fn records_of(hits: Seq<SearchHit>) -> Seq<GameView> {
    Seq::new(
        hits.len(),
        |i: int| GameView { id: hits[i].id as nat, name: hits[i].name@, logo_url: None, hero_url: None },
    )
}

/// Whether `r` is the successful answer that carries `records` and
/// `is_final`.
pub open spec fn is_page_answer(r: Response<GameList>, records: Seq<GameView>, is_final: bool) -> bool {
    &&& r.success
    &&& r.timestamp == 0
    &&& r.code is None
    &&& r.message is None
    &&& r.data matches Some(list) && views(list.games@) == records && list.is_final == is_final
}

/// Whether `r` is the answer to a failed search: an error under status
/// 500 that says no more than that the search results could not be had.
pub open spec fn is_search_failure(r: Response<GameList>) -> bool {
    &&& !r.success
    &&& r.timestamp == 0
    &&& r.data is None
    &&& r.code == Some(STATUS_INTERNAL_SERVER_ERROR)
    &&& r.message matches Some(m) && m@ == "Failed to fetch search results"@
}

/// Whether `step` is what the request for `query` does after `event`.
pub open spec fn search_step_follows(query: SearchGamesQuery, event: SearchEvent, step: SearchStep) -> bool {
    match event {
        SearchEvent::Start => step matches SearchStep::Search(term) && term@ == query.query@,
        SearchEvent::SearchFailed => step matches SearchStep::Respond(r) && is_search_failure(r),
        SearchEvent::Found(hits) => {
            let page = records_of(page_items(hits@, query.spec_offset(), query.spec_limit()));
            let last = page_is_final(hits@.len() as int, query.spec_offset(), query.spec_limit());
            if asked(query.include_logo) || asked(query.include_hero) {
                &&& step matches SearchStep::Enrich { engine, is_final }
                &&& is_final == last
                &&& engine.wf()
                &&& engine.initial() == page
                &&& engine.records() == page
                &&& engine.want_logo() == asked(query.include_logo)
                &&& engine.want_hero() == asked(query.include_hero)
                &&& engine.issued() == 0
                &&& engine.in_flight() == Seq::<Task>::empty()
                &&& engine.reported() == Map::<Task, Option<Seq<char>>>::empty()
            } else {
                step matches SearchStep::Respond(r) && is_page_answer(r, page, last)
            }
        },
        SearchEvent::Enriched { engine, is_final } => if engine.finished() {
            step matches SearchStep::Respond(r) && is_page_answer(r, engine.records(), is_final)
        } else {
            step matches SearchStep::Enrich { engine: same, is_final: flag } && same == engine && flag
                == is_final
        },
    }
}

/// The records of `hits`, in order.
fn games_of(hits: &Vec<SearchHit>) -> (games: Vec<Game>)
    ensures
        views(games@) == records_of(hits@),
{
    let mut games: Vec<Game> = Vec::new();
    let mut i: usize = 0;
    while i < hits.len()
        invariant
            i <= hits@.len(),
            games@.len() == i,
            forall|j: int| 0 <= j < i ==> (#[trigger] games@[j])@ == records_of(hits@)[j],
        decreases hits@.len() - i,
    {
        games.push(Game::new(hits[i].id, hits[i].name.clone()));
        i += 1;
    }
    assert(views(games@) =~= records_of(hits@));
    games
}

/// One step of a search request. At the start it asks for the catalog
/// search. A failed search ends the request with an error under status
/// 500. A search that found games is cut to the page asked for; if no
/// enrichment is asked for the page is the answer, else the page, and
/// never more than the page, goes to an enrichment engine. When the engine
/// comes back finished, its records are the answer; an engine that is not
/// finished is handed out again.
pub fn search_games(query: &SearchGamesQuery, event: SearchEvent) -> (step: SearchStep)
    requires
        event matches SearchEvent::Enriched { engine, .. } ==> engine.wf(),
    ensures
        search_step_follows(*query, event, step),
{
    match event {
        SearchEvent::Start => SearchStep::Search(query.query.clone()),
        SearchEvent::SearchFailed => SearchStep::Respond(
            Response::error(
                String::from_str("Failed to fetch search results"),
                STATUS_INTERNAL_SERVER_ERROR,
            ),
        ),
        SearchEvent::Found(hits) => {
            let page = shape(
                hits,
                paging_value(query.offset, DEFAULT_OFFSET),
                paging_value(query.limit, DEFAULT_LIMIT),
            );
            let games = games_of(&page.items);
            let want_logo = query.wants_logo();
            let want_hero = query.wants_hero();
            if want_logo || want_hero {
                SearchStep::Enrich {
                    engine: FanOut::new(games, want_logo, want_hero),
                    is_final: page.is_final,
                }
            } else {
                SearchStep::Respond(
                    Response::success(GameList { games, is_final: page.is_final }),
                )
            }
        },
        SearchEvent::Enriched { engine, is_final } => {
            match engine.finish() {
                Ok(games) => SearchStep::Respond(Response::success(GameList { games, is_final })),
                Err(engine) => SearchStep::Enrich { engine, is_final },
            }
        },
    }
}

} // verus!
