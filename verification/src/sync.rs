//! The query/result synchronization engine: the query snapshot handed to each
//! fetch, the generation counter that makes exactly one outcome authoritative,
//! and the main-loop state machine that applies or discards outcomes.

use vstd::prelude::*;

use crate::results::{ResultSet, ResultTable};
use crate::sort::SelectedSort;
use crate::theme::Theme;

verus! {

/// The keybinding layer's mode signal.
#[derive(Clone, Copy, Debug, PartialEq, Eq, Structural)]
pub enum Mode {
    Normal,
    Search,
    Category,
    Sort,
    Filter,
    Loading,
}

/// Which user action triggered a reload.
#[derive(Clone, Copy, Debug, PartialEq, Eq, Structural)]
pub enum LoadType {
    Searching,
    Sorting,
    Filtering,
    Categorizing,
}

/// Why a fetch failed: a transport failure carrying the request context and
/// status code, or a page whose result list could not be located at all.
#[derive(Clone, Debug)]
pub enum FetchError {
    Transport(String, u16),
    Parse(String),
}

/// An immutable snapshot of the user's query, taken at dispatch time.
#[derive(Clone, Debug)]
pub struct SearchQuery {
    pub query: String,
    pub page: usize,
    pub category: usize,
    pub filter: usize,
    pub sort: SelectedSort,
    pub user: Option<String>,
}

impl Default for SearchQuery {
    /// An empty search on the first page with everything at its default.
    fn default() -> (r: Self)
        ensures
            r.query@ == Seq::<char>::empty(),
            r.page == 1usize,
            r.category == 0usize,
            r.filter == 0usize,
            r.sort == (SelectedSort { sort: 0usize, dir: crate::sort::SortDir::Desc }),
            r.user is None,
    {
        SearchQuery {
            query: String::new(),
            page: 1,
            category: 0,
            filter: 0,
            sort: SelectedSort { sort: 0, dir: crate::sort::SortDir::Desc },
            user: Option::None,
        }
    }
}

/// The main loop's fetch state.
#[derive(Clone, Copy, Debug, PartialEq, Eq, Structural)]
pub enum LoadState {
    Idle,
    Loading,
    Error,
}

/// The single owner of the generation counter and of the last accepted
/// table. Fetch tasks only ever produce `(generation, outcome)` messages;
/// this state machine decides which of them ever becomes visible.
#[derive(Clone, Debug)]
pub struct Engine {
    pub current_generation: u64,
    pub state: LoadState,
    pub table: Option<ResultTable>,
}

/// How one received outcome changes the engine: it is applied only if its
/// generation is the current one and a fetch is outstanding; anything else
/// is discarded without a trace.
pub open spec fn step(e: Engine, gen: u64, out: Result<ResultTable, FetchError>) -> Engine {
    if gen == e.current_generation && e.state is Loading {
        match out {
            Result::Ok(t) => Engine {
                current_generation: e.current_generation,
                state: LoadState::Idle,
                table: Option::Some(t),
            },
            Result::Err(_) => Engine {
                current_generation: e.current_generation,
                state: LoadState::Error,
                table: e.table,
            },
        }
    } else {
        e
    }
}

/// The engine after a sequence of outcomes is received in order.
pub open spec fn run(e: Engine, outs: Seq<(u64, Result<ResultTable, FetchError>)>) -> Engine
    decreases outs.len(),
{
    if outs.len() == 0 {
        e
    } else {
        run(step(e, outs[0].0, outs[0].1), outs.skip(1))
    }
}

impl Engine {
    /// A fresh engine: nothing dispatched, nothing shown.
    pub fn new() -> (r: Self)
        ensures
            r.current_generation == 0u64,
            r.state == LoadState::Idle,
            r.table is None,
    {
        Engine { current_generation: 0, state: LoadState::Idle, table: Option::None }
    }

    /// Dispatches a new fetch: bumps the generation, making every earlier
    /// outcome inert, and enters `Loading`. The last accepted table stays
    /// on screen meanwhile.
    pub fn dispatch(&mut self) -> (gen: u64)
        requires
            old(self).current_generation < u64::MAX,
        ensures
            final(self).current_generation == old(self).current_generation + 1,
            final(self).state == LoadState::Loading,
            final(self).table == old(self).table,
            gen == final(self).current_generation,
    {
        self.current_generation = self.current_generation + 1;
        self.state = LoadState::Loading;
        self.current_generation
    }

    /// Receives one `(generation, outcome)` message. A current-generation
    /// outcome while loading is accepted: `Ok` replaces the table and goes
    /// to `Idle`; `Err` keeps the last good table and goes to `Error`.
    /// Everything else is a stale response and leaves the engine unchanged.
    pub fn on_outcome(&mut self, gen: u64, outcome: Result<ResultTable, FetchError>) -> (accepted:
        bool)
        ensures
            *final(self) == step(*old(self), gen, outcome),
            accepted == (gen == old(self).current_generation && old(self).state is Loading),
    {
        if gen == self.current_generation && matches!(self.state, LoadState::Loading) {
            match outcome {
                Result::Ok(t) => {
                    self.table = Option::Some(t);
                    self.state = LoadState::Idle;
                },
                Result::Err(_) => {
                    self.state = LoadState::Error;
                },
            }
            true
        } else {
            false
        }
    }
}

/// One accepted fetch, ready for the screen: the query snapshot it answered,
/// the normalized result set, and the derived table.
#[derive(Clone, Debug)]
pub struct Results {
    pub search: SearchQuery,
    pub response: ResultSet,
    pub table: ResultTable,
}

impl Results {
    /// Packages one accepted fetch.
    pub fn new(search: SearchQuery, response: ResultSet, table: ResultTable) -> (r: Results)
        ensures
            r.search == search,
            r.response == response,
            r.table == table,
    {
        Results { search, response, table }
    }
}

/// The spawner of the perpetual input reader and of fetch deliveries. The
/// asynchronous edges — the terminal reads, the network call, the channels —
/// live outside the library and hand their plain outcomes to the compute
/// part here.
pub struct AppSync;

impl AppSync {
    /// The compute part of one fetch delivery: a successful outcome is
    /// packaged with its query snapshot and its derived table; a failure
    /// passes through as the error value it is.
    pub fn load_results(
        src: crate::source::Sources,
        search: SearchQuery,
        res: Result<ResultSet, FetchError>,
        theme: &Theme,
    ) -> (r: Result<Results, FetchError>)
        ensures
            ({
                match res {
                    Result::Ok(rs) => {
                        &&& r is Ok
                        &&& r->Ok_0.search == search
                        &&& r->Ok_0.response == rs
                        &&& crate::torrent_galaxy::table_matches(
                            r->Ok_0.table,
                            rs.items@,
                            search,
                            *theme,
                        )
                    },
                    Result::Err(e) => r is Err && r->Err_0 == e,
                }
            }),
    {
        match res {
            Result::Ok(rs) => {
                let table = src.format_table(&rs.items, &search, theme);
                Result::Ok(Results::new(search, rs, table))
            },
            Result::Err(e) => Result::Err(e),
        }
    }
}

/// Stale discard: an outcome tagged with any generation but the current one,
/// or arriving when no fetch is outstanding, changes nothing — in particular,
/// an older response arriving after a newer one was accepted can never
/// overwrite it.
pub proof fn lemma_stale_discard(e: Engine, gen: u64, out: Result<ResultTable, FetchError>)
    requires
        gen != e.current_generation || !(e.state is Loading),
    ensures
        step(e, gen, out) == e,
{
}

/// Dispatching supersedes everything in flight: generations only grow, so
/// once the counter is bumped, the outcome of any generation dispatched
/// before — every `g` up to the old current one — changes nothing.
pub proof fn lemma_dispatch_supersedes(
    e: Engine,
    g: u64,
    out: Result<ResultTable, FetchError>,
)
    requires
        e.current_generation < u64::MAX,
        g <= e.current_generation,
    ensures
        ({
            let d = Engine {
                current_generation: (e.current_generation + 1) as u64,
                state: LoadState::Loading,
                table: e.table,
            };
            step(d, g, out) == d
        }),
{
}

/// Receiving outcomes none of which carries the current generation leaves
/// the engine exactly as it was.
pub proof fn lemma_run_no_match(e: Engine, outs: Seq<(u64, Result<ResultTable, FetchError>)>)
    requires
        forall|j: int| 0 <= j < outs.len() ==> (#[trigger] outs[j]).0 != e.current_generation,
    ensures
        run(e, outs) == e,
    decreases outs.len(),
{
    if outs.len() > 0 {
        assert(step(e, outs[0].0, outs[0].1) == e);
        lemma_run_no_match(e, outs.skip(1));
    }
}

/// Generation monotonicity: after a fetch is outstanding for the current
/// (that is, the most recently dispatched) generation, and the outcomes of
/// all generations settle in any order whatever, the accepted table is
/// exactly the one carried by the current generation's successful outcome;
/// every other outcome is ignored.
pub proof fn lemma_last_dispatched_wins(
    e: Engine,
    outs: Seq<(u64, Result<ResultTable, FetchError>)>,
    i: int,
)
    requires
        e.state is Loading,
        0 <= i < outs.len(),
        outs[i].0 == e.current_generation,
        outs[i].1 is Ok,
        forall|j: int|
            0 <= j < outs.len() && j != i ==> (#[trigger] outs[j]).0 != e.current_generation,
    ensures
        run(e, outs).table == Option::Some(outs[i].1->Ok_0),
        run(e, outs).state is Idle,
    decreases outs.len(),
{
    if i == 0 {
        let e1 = step(e, outs[0].0, outs[0].1);
        assert(e1.current_generation == e.current_generation);
        lemma_run_no_match(e1, outs.skip(1));
    } else {
        assert(step(e, outs[0].0, outs[0].1) == e);
        lemma_last_dispatched_wins(e, outs.skip(1), i - 1);
    }
}

} // verus!
