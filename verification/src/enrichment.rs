//! The enrichment fan-out engine.
//!
//! A batch of game records gets up to two lookups per record, one for each
//! requested kind of image. The engine decides which lookup starts next,
//! never lets more than [`MAX_IN_FLIGHT`] run at once, and writes each
//! result into the one field of the one record it belongs to, in whatever
//! order the results come in. It does no lookup itself: the driver takes
//! tasks from [`FanOut::next_request`], runs them, and hands every outcome
//! to [`FanOut::complete`].

use vstd::prelude::*;
use crate::model::error::UpstreamError;
use crate::model::kind::Kind;
use crate::model::game::{text_of, views, Game, GameView};

verus! {

/// The largest number of lookups that run at the same time, over the whole
/// batch.
pub const MAX_IN_FLIGHT: usize = 8;

/// What a lookup asks the catalog: the first image of `kind` for the game
/// with the catalog id `game_id`.
#[derive(Clone, Copy, Debug, PartialEq, Eq, Structural)]
pub struct EnrichmentRequest {
    pub game_id: usize,
    pub kind: Kind,
}

/// One lookup of a batch: the position of its record in the batch, and the
/// kind of image it looks for.
#[derive(Clone, Copy, Debug, PartialEq, Eq, Structural)]
pub struct Task {
    pub slot: usize,
    pub kind: Kind,
}

/// A task that has just been started, with the request to make for it.
#[derive(Clone, Copy, Debug, PartialEq, Eq, Structural)]
pub struct Dispatch {
    pub task: Task,
    pub request: EnrichmentRequest,
}

/// What became of an outcome handed to [`FanOut::complete`].
#[derive(Clone, Copy, Debug, PartialEq, Eq, Structural)]
pub enum Completion {
    /// The lookup found a URL, which now stands in the record.
    Attached,
    /// The lookup found nothing; the record is as it was.
    Absent,
    /// The lookup failed; the failure is passed over and the record is as
    /// it was.
    Swallowed(UpstreamError),
    /// The task was not running: nothing changed.
    NotInFlight,
}

/// Whether a batch asks for images of `kind`.
pub open spec fn wanted(kind: Kind, want_logo: bool, want_hero: bool) -> bool {
    match kind {
        Kind::Logo => want_logo,
        Kind::Hero => want_hero,
    }
}

/// Whether `task` belongs to a batch of `n` records.
pub open spec fn planned(task: Task, n: nat, want_logo: bool, want_hero: bool) -> bool {
    task.slot < n && wanted(task.kind, want_logo, want_hero)
}

/// Number of tasks of a batch of `n` records.
pub open spec fn total_tasks(n: nat, want_logo: bool, want_hero: bool) -> nat {
    if want_logo && want_hero {
        2 * n
    } else if want_logo || want_hero {
        n
    } else {
        0
    }
}

/// Place of `task` in the queue of its batch. The queue goes through the
/// records in order, and for each record takes the logo before the hero.
pub open spec fn position(task: Task, want_logo: bool, want_hero: bool) -> int {
    if want_logo && want_hero {
        2 * task.slot + if task.kind == Kind::Hero { 1int } else { 0int }
    } else {
        task.slot as int
    }
}

/// The task at place `p` of the queue.
pub open spec fn task_at(p: int, want_logo: bool, want_hero: bool) -> Task {
    if want_logo && want_hero {
        Task { slot: (p / 2) as usize, kind: if p % 2 == 0 { Kind::Logo } else { Kind::Hero } }
    } else if want_logo {
        Task { slot: p as usize, kind: Kind::Logo }
    } else {
        Task { slot: p as usize, kind: Kind::Hero }
    }
}

/// What an outcome leaves to attach: the URL of a lookup that found one,
/// nothing after a lookup that found none or failed.
pub open spec fn attachable(outcome: Result<Option<String>, UpstreamError>) -> Option<Seq<char>> {
    match outcome {
        Ok(Some(url)) => Some(url@),
        _ => None,
    }
}

/// A field of a record after the outcomes in `reported`: the reported URL
/// where `task` found one, else what the field held at the start.
pub open spec fn attach(
    field: Option<Seq<char>>,
    reported: Map<Task, Option<Seq<char>>>,
    task: Task,
) -> Option<Seq<char>> {
    if reported.dom().contains(task) && reported[task] is Some {
        reported[task]
    } else {
        field
    }
}

/// The record at `slot` after the outcomes in `reported`, given what it
/// held at the start.
pub open spec fn merged(start: GameView, slot: usize, reported: Map<Task, Option<Seq<char>>>) -> GameView {
    GameView {
        id: start.id,
        name: start.name,
        logo_url: attach(start.logo_url, reported, Task { slot, kind: Kind::Logo }),
        hero_url: attach(start.hero_url, reported, Task { slot, kind: Kind::Hero }),
    }
}

/// `record` with the URL `url` in the field of `kind`.
pub open spec fn with_url(record: GameView, kind: Kind, url: Seq<char>) -> GameView {
    match kind {
        Kind::Logo => GameView { logo_url: Some(url), ..record },
        Kind::Hero => GameView { hero_url: Some(url), ..record },
    }
}

/// The state of one batch under enrichment.
pub struct FanOut {
    games: Vec<Game>,
    want_logo: bool,
    want_hero: bool,
    /// The next task of the queue, or a slot past the last record.
    cursor: Task,
    running: Vec<Task>,
    start: Ghost<Seq<GameView>>,
    outcomes: Ghost<Map<Task, Option<Seq<char>>>>,
}

impl FanOut {
    /// The records as they stand now.
    pub closed spec fn records(&self) -> Seq<GameView> {
        views(self.games@)
    }

    /// The records as they were handed in.
    pub closed spec fn initial(&self) -> Seq<GameView> {
        self.start@
    }

    /// Whether the batch asks for logos.
    pub closed spec fn want_logo(&self) -> bool {
        self.want_logo
    }

    /// Whether the batch asks for hero images.
    pub closed spec fn want_hero(&self) -> bool {
        self.want_hero
    }

    /// Number of tasks started so far. They are the first of the queue.
    pub closed spec fn issued(&self) -> nat {
        if self.want_logo || self.want_hero {
            position(self.cursor, self.want_logo, self.want_hero) as nat
        } else {
            0
        }
    }

    /// The tasks that were started and whose outcome is still awaited.
    pub closed spec fn in_flight(&self) -> Seq<Task> {
        self.running@
    }

    /// The outcome of every task that completed: the URL it found, if any.
    pub closed spec fn reported(&self) -> Map<Task, Option<Seq<char>>> {
        self.outcomes@
    }

    /// Number of tasks of the batch.
    pub open spec fn total(&self) -> nat {
        total_tasks(self.initial().len(), self.want_logo(), self.want_hero())
    }

    /// Whether `task` belongs to the batch.
    pub open spec fn plans(&self, task: Task) -> bool {
        planned(task, self.initial().len(), self.want_logo(), self.want_hero())
    }

    /// Whether `task` has been started.
    pub open spec fn has_issued(&self, task: Task) -> bool {
        self.plans(task) && position(task, self.want_logo(), self.want_hero()) < self.issued()
    }

    /// Whether every task of the batch has been started and has completed.
    pub open spec fn finished(&self) -> bool {
        self.issued() == self.total() && self.in_flight().len() == 0
    }

    /// How the fields stand to one another.
    pub closed spec fn coherent(&self) -> bool {
        &&& self.cursor.slot <= self.games@.len()
        &&& self.games@.len() <= usize::MAX
        &&& (self.want_logo || self.want_hero) ==> wanted(
            self.cursor.kind,
            self.want_logo,
            self.want_hero,
        )
        &&& self.cursor.slot == self.games@.len() && self.want_logo ==> self.cursor.kind
            == Kind::Logo
    }

    /// The engine's invariant: at most [`MAX_IN_FLIGHT`] tasks are in
    /// flight, none of them twice; the tasks started are a prefix of the
    /// queue; exactly those of them that are not in flight have reported;
    /// and every record is what it was at the start, with the reported URLs
    /// in place.
    pub open spec fn wf(&self) -> bool {
        &&& self.coherent()
        &&& self.in_flight().len() <= MAX_IN_FLIGHT
        &&& self.in_flight().no_duplicates()
        &&& self.issued() <= self.total()
        &&& forall|t: Task| #[trigger] self.in_flight().contains(t) ==> self.has_issued(t)
        &&& forall|t: Task| #[trigger]
            self.reported().dom().contains(t) <==> self.has_issued(t) && !self.in_flight().contains(t)
        &&& self.records().len() == self.initial().len()
        &&& self.initial().len() <= usize::MAX
        &&& forall|i: int|
            0 <= i < self.initial().len() ==> #[trigger] self.records()[i] == merged(
                self.initial()[i],
                i as usize,
                self.reported(),
            )
    }

    /// The engine for the batch `games`: nothing started, nothing reported.
    pub fn new(games: Vec<Game>, want_logo: bool, want_hero: bool) -> (engine: FanOut)
        ensures
            engine.wf(),
            engine.initial() == views(games@),
            engine.records() == views(games@),
            engine.want_logo() == want_logo,
            engine.want_hero() == want_hero,
            engine.issued() == 0,
            engine.in_flight() == Seq::<Task>::empty(),
            engine.reported() == Map::<Task, Option<Seq<char>>>::empty(),
    {
        let ghost start = views(games@);
        assert(games@.len() == games.len());
        let first = if want_logo { Kind::Logo } else if want_hero { Kind::Hero } else { Kind::Logo };
        let engine = FanOut {
            games,
            want_logo,
            want_hero,
            cursor: Task { slot: 0, kind: first },
            running: Vec::new(),
            start: Ghost(start),
            outcomes: Ghost(Map::empty()),
        };
        proof {
            assert forall|i: int| 0 <= i < engine.initial().len() implies #[trigger] engine.records()[i]
                == merged(engine.initial()[i], i as usize, engine.reported()) by {
                assert(engine.records()[i] == engine.initial()[i]);
            }
        }
        engine
    }

    /// Whether nothing is left to wait for: every task of the batch has
    /// been started and has completed.
    pub fn is_finished(&self) -> (done: bool)
        requires
            self.wf(),
        ensures
            done == self.finished(),
    {
        self.exhausted() && self.running.len() == 0
    }

    /// Number of lookups in flight.
    pub fn in_flight_count(&self) -> (n: usize)
        requires
            self.wf(),
        ensures
            n == self.in_flight().len(),
            n <= MAX_IN_FLIGHT,
    {
        self.running.len()
    }

    /// Whether the queue has run out.
    fn exhausted(&self) -> (out: bool)
        requires
            self.wf(),
        ensures
            out == (self.issued() == self.total()),
    {
        !(self.want_logo || self.want_hero) || self.cursor.slot >= self.games.len()
    }

    /// Starts the next task of the queue, if one is left and fewer than
    /// [`MAX_IN_FLIGHT`] are in flight.
    pub fn next_request(&mut self) -> (next: Option<Dispatch>)
        requires
            old(self).wf(),
        ensures
            final(self).wf(),
            final(self).initial() == old(self).initial(),
            final(self).records() == old(self).records(),
            final(self).reported() == old(self).reported(),
            final(self).want_logo() == old(self).want_logo(),
            final(self).want_hero() == old(self).want_hero(),
            next is Some <==> old(self).in_flight().len() < MAX_IN_FLIGHT && old(self).issued() < old(
                self,
            ).total(),
            next is None ==> final(self).issued() == old(self).issued() && final(self).in_flight()
                == old(self).in_flight(),
            next matches Some(d) ==> {
                &&& d.task == task_at(
                    old(self).issued() as int,
                    old(self).want_logo(),
                    old(self).want_hero(),
                )
                &&& old(self).plans(d.task)
                &&& d.request.kind == d.task.kind
                &&& d.request.game_id == old(self).records()[d.task.slot as int].id
                &&& final(self).issued() == old(self).issued() + 1
                &&& final(self).in_flight() == old(self).in_flight().push(d.task)
            },
    {
        if self.running.len() >= MAX_IN_FLIGHT || self.exhausted() {
            return None;
        }
        let task = self.cursor;
        let game_id = self.games[task.slot].id;
        let successor = match task.kind {
            Kind::Logo => if self.want_hero {
                Task { slot: task.slot, kind: Kind::Hero }
            } else {
                Task { slot: task.slot + 1, kind: Kind::Logo }
            },
            Kind::Hero => Task {
                slot: task.slot + 1,
                kind: if self.want_logo { Kind::Logo } else { Kind::Hero },
            },
        };
        self.cursor = successor;
        self.running.push(task);
        proof {
            let before = old(self).in_flight();
            let after = final(self).in_flight();
            assert(!before.contains(task));
            assert forall|t: Task| #[trigger] after.contains(t) implies final(self).has_issued(t) by {
                let i = choose|i: int| 0 <= i < after.len() && after[i] == t;
                if i < before.len() {
                    assert(before[i] == t);
                    assert(before.contains(t));
                }
            }
            assert forall|t: Task| #[trigger]
                final(self).reported().dom().contains(t) <==> final(self).has_issued(t)
                    && !after.contains(t) by {
                if t == task {
                    assert(after[before.len() as int] == t);
                } else {
                    if before.contains(t) {
                        let i = choose|i: int| 0 <= i < before.len() && before[i] == t;
                        assert(after[i] == t);
                    }
                    if after.contains(t) {
                        let i = choose|i: int| 0 <= i < after.len() && after[i] == t;
                        assert(before[i] == t);
                    }
                }
            }
            assert(views(self.games@)[task.slot as int] == self.games@[task.slot as int]@);
        }
        Some(Dispatch { task, request: EnrichmentRequest { game_id, kind: task.kind } })
    }

    /// The place of `task` among the tasks in flight.
    fn find_running(&self, task: Task) -> (place: Option<usize>)
        ensures
            match place {
                Some(i) => i < self.in_flight().len() && self.in_flight()[i as int] == task,
                None => !self.in_flight().contains(task),
            },
    {
        let mut i: usize = 0;
        while i < self.running.len()
            invariant
                i <= self.running@.len(),
                forall|j: int| 0 <= j < i ==> self.running@[j] != task,
            decreases self.running@.len() - i,
        {
            if self.running[i] == task {
                return Some(i);
            }
            i += 1;
        }
        None
    }

    /// Takes in the outcome of the lookup `task`. A URL that was found is
    /// written into the task's field of the task's record; a lookup that
    /// found nothing or failed leaves the record as it was, and a failure
    /// goes no further than the value returned. A task that is not in
    /// flight changes nothing.
    pub fn complete(&mut self, task: Task, outcome: Result<Option<String>, UpstreamError>) -> (done:
        Completion)
        requires
            old(self).wf(),
        ensures
            final(self).wf(),
            final(self).initial() == old(self).initial(),
            final(self).issued() == old(self).issued(),
            final(self).want_logo() == old(self).want_logo(),
            final(self).want_hero() == old(self).want_hero(),
            done == completion_of(old(self).in_flight().contains(task), outcome),
            !old(self).in_flight().contains(task) ==> {
                &&& final(self).in_flight() == old(self).in_flight()
                &&& final(self).reported() == old(self).reported()
                &&& final(self).records() == old(self).records()
            },
            old(self).in_flight().contains(task) ==> {
                &&& final(self).in_flight() == old(self).in_flight().remove(
                    old(self).in_flight().index_of(task),
                )
                &&& !final(self).in_flight().contains(task)
                &&& final(self).reported() == old(self).reported().insert(task, attachable(outcome))
                &&& final(self).records() == match attachable(outcome) {
                    Some(url) => old(self).records().update(
                        task.slot as int,
                        with_url(old(self).records()[task.slot as int], task.kind, url),
                    ),
                    None => old(self).records(),
                }
            },
    {
        let place = match self.find_running(task) {
            Some(place) => place,
            None => { return Completion::NotInFlight; },
        };
        assert(old(self).in_flight().index_of(task) == place);
        self.running.remove(place);
        let ghost found = attachable(outcome);
        proof {
            self.outcomes@ = self.outcomes@.insert(task, found);
        }
        let done = match outcome {
            Ok(Some(url)) => {
                match task.kind {
                    Kind::Logo => { self.games[task.slot].logo_url = Some(url); },
                    Kind::Hero => { self.games[task.slot].hero_url = Some(url); },
                }
                Completion::Attached
            },
            Ok(None) => Completion::Absent,
            Err(e) => Completion::Swallowed(e),
        };
        proof {
            let before = old(self).in_flight();
            let after = self.in_flight();
            assert(after == before.remove(place as int));
            assert forall|t: Task| #[trigger] after.contains(t) <==> before.contains(t) && t != task by {
                if after.contains(t) {
                    let i = choose|i: int| 0 <= i < after.len() && after[i] == t;
                    if i < place {
                        assert(before[i] == t);
                    } else {
                        assert(before[i + 1] == t);
                    }
                }
                if before.contains(t) && t != task {
                    let i = choose|i: int| 0 <= i < before.len() && before[i] == t;
                    if i < place {
                        assert(after[i] == t);
                    } else {
                        assert(after[i - 1] == t);
                    }
                }
            }
            assert(after.no_duplicates()) by {
                assert forall|i: int, j: int| 0 <= i < after.len() && 0 <= j < after.len() && i != j implies after[i]
                    != after[j] by {
                    let bi = if i < place { i } else { i + 1 };
                    let bj = if j < place { j } else { j + 1 };
                    assert(after[i] == before[bi] && after[j] == before[bj]);
                }
            }
            assert(old(self).has_issued(task));
            assert(!old(self).reported().dom().contains(task));
            assert forall|i: int| 0 <= i < self.initial().len() implies #[trigger] self.records()[i]
                == merged(self.initial()[i], i as usize, self.reported()) by {
                assert(old(self).records()[i] == merged(
                    old(self).initial()[i],
                    i as usize,
                    old(self).reported(),
                ));
                assert(self.records()[i] == self.games@[i]@);
                assert(old(self).records()[i] == old(self).games@[i]@);
            }
            match found {
                Some(url) => {
                    assert(self.records() =~= old(self).records().update(
                        task.slot as int,
                        with_url(old(self).records()[task.slot as int], task.kind, url),
                    ));
                },
                None => {
                    assert(self.records() =~= old(self).records());
                },
            }
        }
        done
    }
}

impl FanOut {
    /// Hands the batch back once every task has been started and has
    /// completed; until then the engine comes back as it is.
    pub fn finish(self) -> (r: Result<Vec<Game>, FanOut>)
        requires
            self.wf(),
        ensures
            match r {
                Ok(games) => self.finished() && views(games@) == self.records(),
                Err(engine) => !self.finished() && engine == self,
            },
    {
        if self.is_finished() {
            Ok(self.games)
        } else {
            Err(self)
        }
    }
}

/// The queue has no gaps and names no task twice: the task at a place of
/// the queue belongs to the batch and stands at that place, and a task of
/// the batch stands at a place below the batch's number of tasks.
pub proof fn lemma_queue_order(n: nat, want_logo: bool, want_hero: bool, p: int, task: Task)
    requires
        n <= usize::MAX,
    ensures
        0 <= p < total_tasks(n, want_logo, want_hero) ==> planned(
            task_at(p, want_logo, want_hero),
            n,
            want_logo,
            want_hero,
        ) && position(task_at(p, want_logo, want_hero), want_logo, want_hero) == p,
        planned(task, n, want_logo, want_hero) ==> 0 <= position(task, want_logo, want_hero)
            < total_tasks(n, want_logo, want_hero) && task_at(
            position(task, want_logo, want_hero),
            want_logo,
            want_hero,
        ) == task,
{
}

/// Enrichment keeps every record in its place and leaves its `id` and
/// `name` alone; a URL field either holds what it held at the start or
/// holds a URL; and a field of a kind that was not asked for holds what it
/// held at the start.
pub proof fn lemma_records_keep_identity(engine: FanOut, i: int)
    requires
        engine.wf(),
        0 <= i < engine.initial().len(),
    ensures
        engine.records().len() == engine.initial().len(),
        engine.records()[i].id == engine.initial()[i].id,
        engine.records()[i].name == engine.initial()[i].name,
        engine.records()[i].logo_url == engine.initial()[i].logo_url
            || engine.records()[i].logo_url is Some,
        engine.records()[i].hero_url == engine.initial()[i].hero_url
            || engine.records()[i].hero_url is Some,
        !engine.want_logo() ==> engine.records()[i].logo_url == engine.initial()[i].logo_url,
        !engine.want_hero() ==> engine.records()[i].hero_url == engine.initial()[i].hero_url,
{
    assert(engine.records()[i] == merged(engine.initial()[i], i as usize, engine.reported()));
}

/// No more than [`MAX_IN_FLIGHT`] lookups are ever in flight, and each of
/// them is a different task of the batch that was started.
pub proof fn lemma_in_flight_bounded(engine: FanOut)
    requires
        engine.wf(),
    ensures
        engine.in_flight().len() <= MAX_IN_FLIGHT,
        engine.in_flight().no_duplicates(),
        forall|k: int|
            0 <= k < engine.in_flight().len() ==> engine.has_issued(#[trigger] engine.in_flight()[k]),
{
    assert forall|k: int| 0 <= k < engine.in_flight().len() implies engine.has_issued(
        #[trigger] engine.in_flight()[k],
    ) by {
        assert(engine.in_flight().contains(engine.in_flight()[k]));
    }
}

/// Once the engine is finished every task of the batch has reported, and
/// each record holds, for each kind asked for, the URL its lookup found,
/// or else what it held at the start: the order in which the outcomes came
/// in has left no trace.
pub proof fn lemma_finished_means_all_reported(engine: FanOut, task: Task)
    requires
        engine.wf(),
        engine.finished(),
        engine.plans(task),
    ensures
        engine.reported().dom().contains(task),
        engine.records()[task.slot as int] == merged(
            engine.initial()[task.slot as int],
            task.slot,
            engine.reported(),
        ),
{
    lemma_queue_order(
        engine.initial().len(),
        engine.want_logo(),
        engine.want_hero(),
        0,
        task,
    );
    assert(engine.has_issued(task));
    assert(!engine.in_flight().contains(task));
}

/// An engine that is not finished can always go on: either a lookup is in
/// flight, whose outcome will come, or the next task can be started.
pub proof fn lemma_never_stuck(engine: FanOut)
    requires
        engine.wf(),
        !engine.finished(),
    ensures
        engine.in_flight().len() > 0 || (engine.in_flight().len() < MAX_IN_FLIGHT
            && engine.issued() < engine.total()),
{
}

/// The request that the lookup of `kind` makes for `record`.
pub open spec fn request_for(record: GameView, kind: Kind) -> EnrichmentRequest {
    EnrichmentRequest { game_id: record.id as usize, kind }
}

/// Whether `after` is what enrichment by `lookup` leaves in a field that
/// held `before`. A field that is not asked for is left alone. One that is
/// asked for holds the URL that `lookup` found for `request`, and is left
/// alone where `lookup` found nothing or failed.
pub open spec fn field_enriched<F: Fn(EnrichmentRequest) -> Result<Option<String>, UpstreamError>>(
    lookup: F,
    request: EnrichmentRequest,
    want: bool,
    before: Option<Seq<char>>,
    after: Option<Seq<char>>,
) -> bool {
    if want {
        exists|outcome: Result<Option<String>, UpstreamError>| #[trigger]
            lookup.ensures((request,), outcome) && after == match attachable(outcome) {
                Some(url) => Some(url),
                None => before,
            }
    } else {
        after == before
    }
}

/// Enriches `records` in place, with `lookup` called once for every
/// record and every kind asked for, one call after the other. The records
/// keep their order, ids and names; each field asked for gets the URL its
/// lookup found, and stays as it was where the lookup found nothing or
/// failed. No failure of a lookup fails the batch.
pub fn enrich<F>(records: &mut Vec<Game>, want_logo: bool, want_hero: bool, lookup: F) where
    F: Fn(EnrichmentRequest) -> Result<Option<String>, UpstreamError>,

    requires
        forall|request: EnrichmentRequest| lookup.requires((request,)),
    ensures
        final(records)@.len() == old(records)@.len(),
        forall|i: int|
            0 <= i < old(records)@.len() ==> {
                let before = old(records)@[i]@;
                let after = (#[trigger] final(records)@[i])@;
                &&& after.id == before.id
                &&& after.name == before.name
                &&& field_enriched(
                    lookup,
                    request_for(before, Kind::Logo),
                    want_logo,
                    before.logo_url,
                    after.logo_url,
                )
                &&& field_enriched(
                    lookup,
                    request_for(before, Kind::Hero),
                    want_hero,
                    before.hero_url,
                    after.hero_url,
                )
            },
{
    let mut batch: Vec<Game> = Vec::new();
    std::mem::swap(records, &mut batch);
    let ghost start = views(batch@);
    let mut engine = FanOut::new(batch, want_logo, want_hero);
    let ghost mut found: Map<Task, Result<Option<String>, UpstreamError>> = Map::empty();
    loop
        invariant
            engine.wf(),
            engine.initial() == start,
            start == views(old(records)@),
            engine.want_logo() == want_logo,
            engine.want_hero() == want_hero,
            engine.in_flight().len() == 0,
            forall|request: EnrichmentRequest| lookup.requires((request,)),
            found.dom() == engine.reported().dom(),
            forall|t: Task| #[trigger]
                found.dom().contains(t) ==> lookup.ensures(
                    (request_for(start[t.slot as int], t.kind),),
                    found[t],
                ) && engine.reported()[t] == attachable(found[t]),
        decreases engine.total() - engine.issued(),
    {
        engine = match engine.finish() {
            Ok(games) => {
                proof {
                    assert forall|i: int| 0 <= i < start.len() implies {
                        let before = start[i];
                        let after = (#[trigger] games@[i])@;
                        &&& after.id == before.id
                        &&& after.name == before.name
                        &&& field_enriched(
                            lookup,
                            request_for(before, Kind::Logo),
                            want_logo,
                            before.logo_url,
                            after.logo_url,
                        )
                        &&& field_enriched(
                            lookup,
                            request_for(before, Kind::Hero),
                            want_hero,
                            before.hero_url,
                            after.hero_url,
                        )
                    } by {
                        lemma_records_keep_identity(engine, i);
                        assert(games@[i]@ == engine.records()[i]);
                        let logo = Task { slot: i as usize, kind: Kind::Logo };
                        let hero = Task { slot: i as usize, kind: Kind::Hero };
                        if want_logo {
                            lemma_finished_means_all_reported(engine, logo);
                            assert(found.dom().contains(logo));
                        }
                        if want_hero {
                            lemma_finished_means_all_reported(engine, hero);
                            assert(found.dom().contains(hero));
                        }
                    }
                    assert(old(records)@.len() == start.len());
                    assert forall|i: int| 0 <= i < old(records)@.len() implies start[i] == old(
                        records,
                    )@[i]@ by {}
                }
                *records = games;
                return ;
            },
            Err(engine) => engine,
        };
        if let Some(dispatch) = engine.next_request() {
            proof {
                lemma_records_keep_identity(engine, dispatch.task.slot as int);
            }
            let outcome = lookup(dispatch.request);
            proof {
                found = found.insert(dispatch.task, outcome);
            }
            engine.complete(dispatch.task, outcome);
            proof {
                assert(engine.in_flight() =~= Seq::<Task>::empty());
                assert(found.dom() =~= engine.reported().dom());
            }
        }
    }
}

/// What [`FanOut::complete`] answers: that the task was not in flight, or
/// what its outcome came to.
pub open spec fn completion_of(
    in_flight: bool,
    outcome: Result<Option<String>, UpstreamError>,
) -> Completion {
    if !in_flight {
        Completion::NotInFlight
    } else {
        match outcome {
            Ok(Some(_)) => Completion::Attached,
            Ok(None) => Completion::Absent,
            Err(e) => Completion::Swallowed(e),
        }
    }
}

} // verus!
