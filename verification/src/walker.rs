//! The taxonomy walker: what to fetch, persist and stream, and in which
//! order.
//!
//! The walker is driven by its caller. [`TaxonomyWalker::next_step`] names
//! the next piece of work; after a fetch the caller hands the batch back with
//! `on_engines`, `on_markets` or `on_boards`. Every batch is persisted whole
//! before any of its entities is walked further, so the reference tables
//! show the full taxonomy even where the walk is narrow.
//!
//! The taxonomy is enumerated to its end before the first board is
//! streamed: a failure to enumerate leaves no board half ingested. The
//! boards then come in enumeration order, which is upstream order at every
//! level.

use crate::models::{Board, Engine, Market};
use crate::taxonomy::{
    admits_board, admits_engine, admits_market, admitted_boards, admitted_engines,
    admitted_markets, Selection, TaxonomyFilter,
};
use vstd::prelude::*;

verus! {

/// The next piece of work of a walk.
#[derive(Debug, PartialEq, Eq)]
pub enum WalkStep {
    /// Fetch the engines, and hand them to `on_engines`.
    FetchEngines,
    /// Write this batch of engines, all of it, to the reference sink.
    PersistEngines(Vec<Engine>),
    /// Fetch the markets of this engine, and hand them to `on_markets`.
    FetchMarkets(Engine),
    /// Write this batch of markets, all of it, to the reference sink.
    PersistMarkets(Vec<Market>),
    /// Fetch the boards of this market, and hand them to `on_boards`.
    FetchBoards(Market),
    /// Write this batch of boards, all of it, to the reference sink.
    PersistBoards(Vec<Board>),
    /// Stream the trades of this board into the fact sink.
    StreamBoard(Board),
    /// The taxonomy is exhausted.
    Done,
}

pub enum StepView {
    FetchEngines,
    PersistEngines(Seq<Engine>),
    FetchMarkets(Engine),
    PersistMarkets(Seq<Market>),
    FetchBoards(Market),
    PersistBoards(Seq<Board>),
    StreamBoard(Board),
    Done,
}

impl View for WalkStep {
    type V = StepView;

    open spec fn view(&self) -> StepView {
        match self {
            WalkStep::FetchEngines => StepView::FetchEngines,
            WalkStep::PersistEngines(batch) => StepView::PersistEngines(batch@),
            WalkStep::FetchMarkets(engine) => StepView::FetchMarkets(*engine),
            WalkStep::PersistMarkets(batch) => StepView::PersistMarkets(batch@),
            WalkStep::FetchBoards(market) => StepView::FetchBoards(*market),
            WalkStep::PersistBoards(batch) => StepView::PersistBoards(batch@),
            WalkStep::StreamBoard(board) => StepView::StreamBoard(*board),
            WalkStep::Done => StepView::Done,
        }
    }
}

/// What the walker waits for.
pub enum Phase {
    /// The engines have not been handed in.
    AwaitingEngines,
    /// The markets of this engine have not been handed in.
    AwaitingMarkets(Engine),
    /// The boards of this market have not been handed in.
    AwaitingBoards(Market),
    /// Nothing: the walk goes on with what is queued.
    Walking,
}

enum Pending {
    Nothing,
    Engines(Vec<Engine>),
    Markets(Vec<Market>),
    Boards(Vec<Board>),
}

/// A batch that was handed in and is not persisted yet.
pub enum PendingView {
    Nothing,
    Engines(Seq<Engine>),
    Markets(Seq<Market>),
    Boards(Seq<Board>),
}

impl View for Pending {
    type V = PendingView;

    closed spec fn view(&self) -> PendingView {
        match self {
            Pending::Nothing => PendingView::Nothing,
            Pending::Engines(batch) => PendingView::Engines(batch@),
            Pending::Markets(batch) => PendingView::Markets(batch@),
            Pending::Boards(batch) => PendingView::Boards(batch@),
        }
    }
}

/// The state of a walk.
pub struct TaxonomyWalker {
    filter: TaxonomyFilter,
    phase: Phase,
    pending: Pending,
    engines: Vec<Engine>,
    markets: Vec<Market>,
    boards: Vec<Board>,
}

pub struct WalkerView {
    pub allowed: Seq<Selection>,
    pub phase: Phase,
    pub pending: PendingView,
    /// Admitted engines that are not opened yet, next first.
    pub engines: Seq<Engine>,
    /// Admitted markets that are not opened yet, next first.
    pub markets: Seq<Market>,
    /// Admitted boards that are not streamed yet, next first.
    pub boards: Seq<Board>,
}

/// A walk before anything was fetched.
pub open spec fn walker_start(allowed: Seq<Selection>) -> WalkerView {
    WalkerView {
        allowed,
        phase: Phase::AwaitingEngines,
        pending: PendingView::Nothing,
        engines: Seq::empty(),
        markets: Seq::empty(),
        boards: Seq::empty(),
    }
}

/// The next step of a walk, and the walk after it was named.
///
/// A batch that waits to be persisted comes first. A fetch that is not
/// answered is named again. Else the enumeration goes on, depth first: the
/// next market is opened, else the next engine. Once nothing is left to
/// open, the boards are streamed one by one.
pub open spec fn walker_next(before: WalkerView) -> (StepView, WalkerView) {
    match before.pending {
        PendingView::Engines(batch) => (
            StepView::PersistEngines(batch),
            WalkerView { pending: PendingView::Nothing, ..before },
        ),
        PendingView::Markets(batch) => (
            StepView::PersistMarkets(batch),
            WalkerView { pending: PendingView::Nothing, ..before },
        ),
        PendingView::Boards(batch) => (
            StepView::PersistBoards(batch),
            WalkerView { pending: PendingView::Nothing, ..before },
        ),
        PendingView::Nothing => match before.phase {
            Phase::AwaitingEngines => (StepView::FetchEngines, before),
            Phase::AwaitingMarkets(engine) => (StepView::FetchMarkets(engine), before),
            Phase::AwaitingBoards(market) => (StepView::FetchBoards(market), before),
            Phase::Walking => if before.markets.len() > 0 {
                (
                    StepView::FetchBoards(before.markets[0]),
                    WalkerView {
                        phase: Phase::AwaitingBoards(before.markets[0]),
                        markets: before.markets.remove(0),
                        ..before
                    },
                )
            } else if before.engines.len() > 0 {
                (
                    StepView::FetchMarkets(before.engines[0]),
                    WalkerView {
                        phase: Phase::AwaitingMarkets(before.engines[0]),
                        engines: before.engines.remove(0),
                        ..before
                    },
                )
            } else if before.boards.len() > 0 {
                (
                    StepView::StreamBoard(before.boards[0]),
                    WalkerView { boards: before.boards.remove(0), ..before },
                )
            } else {
                (StepView::Done, before)
            },
        },
    }
}

/// The walk after the engines were handed in: the batch waits to be
/// persisted, and its admitted engines are queued behind those that wait. A
/// walk that does not wait for engines stays as it is.
pub open spec fn walker_on_engines(before: WalkerView, batch: Seq<Engine>) -> WalkerView {
    if before.phase is AwaitingEngines {
        WalkerView {
            phase: Phase::Walking,
            pending: PendingView::Engines(batch),
            engines: before.engines + admitted_engines(before.allowed, batch),
            ..before
        }
    } else {
        before
    }
}

/// The walk after the markets of the open engine were handed in.
pub open spec fn walker_on_markets(before: WalkerView, batch: Seq<Market>) -> WalkerView {
    if before.phase is AwaitingMarkets {
        WalkerView {
            phase: Phase::Walking,
            pending: PendingView::Markets(batch),
            markets: before.markets + admitted_markets(before.allowed, batch),
            ..before
        }
    } else {
        before
    }
}

/// The walk after the boards of the open market were handed in.
pub open spec fn walker_on_boards(before: WalkerView, batch: Seq<Board>) -> WalkerView {
    if before.phase is AwaitingBoards {
        WalkerView {
            phase: Phase::Walking,
            pending: PendingView::Boards(batch),
            boards: before.boards + admitted_boards(before.allowed, batch),
            ..before
        }
    } else {
        before
    }
}

/// Every queued entity is admitted by the allow-list, and so is the entity
/// whose markets or boards the walk waits for.
pub open spec fn within_filter(walker: WalkerView) -> bool {
    &&& forall|i: int|
        0 <= i < walker.engines.len() ==> admits_engine(
            walker.allowed,
            #[trigger] walker.engines[i],
        )
    &&& forall|i: int|
        0 <= i < walker.markets.len() ==> admits_market(
            walker.allowed,
            #[trigger] walker.markets[i],
        )
    &&& forall|i: int|
        0 <= i < walker.boards.len() ==> admits_board(walker.allowed, #[trigger] walker.boards[i])
    &&& walker.phase matches Phase::AwaitingMarkets(engine) ==> admits_engine(
        walker.allowed,
        engine,
    )
    &&& walker.phase matches Phase::AwaitingBoards(market) ==> admits_market(
        walker.allowed,
        market,
    )
}

/// A walk starts within its allow-list.
pub proof fn lemma_start_is_within_filter(allowed: Seq<Selection>)
    ensures
        within_filter(walker_start(allowed)),
{
}

/// A walk never leaves its allow-list: whatever batches are handed in, it
/// asks for the markets of admitted engines only and for the boards of
/// admitted markets only, and it streams only boards that are traded and
/// admitted.
pub proof fn lemma_walk_stays_within_filter(before: WalkerView)
    requires
        within_filter(before),
    ensures
        within_filter(walker_next(before).1),
        walker_next(before).1.allowed == before.allowed,
        walker_next(before).0 matches StepView::FetchMarkets(engine) ==> admits_engine(
            before.allowed,
            engine,
        ),
        walker_next(before).0 matches StepView::FetchBoards(market) ==> admits_market(
            before.allowed,
            market,
        ),
        walker_next(before).0 matches StepView::StreamBoard(board) ==> board.is_traded
            && admits_board(before.allowed, board),
        forall|batch: Seq<Engine>| #[trigger] within_filter(walker_on_engines(before, batch)),
        forall|batch: Seq<Market>| #[trigger] within_filter(walker_on_markets(before, batch)),
        forall|batch: Seq<Board>| #[trigger] within_filter(walker_on_boards(before, batch)),
{
    broadcast use Seq::lemma_filter_pred;

    let after = walker_next(before).1;
    assert(within_filter(after)) by {
        assert forall|i: int| 0 <= i < after.engines.len() implies admits_engine(
            after.allowed,
            #[trigger] after.engines[i],
        ) by {
            if after.engines != before.engines {
                assert(after.engines[i] == before.engines[i + 1]);
            }
        }
        assert forall|i: int| 0 <= i < after.markets.len() implies admits_market(
            after.allowed,
            #[trigger] after.markets[i],
        ) by {
            if after.markets != before.markets {
                assert(after.markets[i] == before.markets[i + 1]);
            }
        }
        assert forall|i: int| 0 <= i < after.boards.len() implies admits_board(
            after.allowed,
            #[trigger] after.boards[i],
        ) by {
            if after.boards != before.boards {
                assert(after.boards[i] == before.boards[i + 1]);
            }
        }
    }
}

/// A batch that is handed in while the walk waits for it is persisted next,
/// whole and in its order, whatever the allow-list admits of it.
pub proof fn lemma_batch_is_persisted_whole(
    before: WalkerView,
    engines: Seq<Engine>,
    markets: Seq<Market>,
    boards: Seq<Board>,
)
    ensures
        before.phase is AwaitingEngines ==> walker_next(walker_on_engines(before, engines)).0
            == StepView::PersistEngines(engines),
        before.phase is AwaitingMarkets ==> walker_next(walker_on_markets(before, markets)).0
            == StepView::PersistMarkets(markets),
        before.phase is AwaitingBoards ==> walker_next(walker_on_boards(before, boards)).0
            == StepView::PersistBoards(boards),
{
}

/// What the service holds: the engines, the markets of each engine and the
/// boards of each market, each list in the order in which it is served.
pub struct Upstream {
    pub engines: Seq<Engine>,
    pub markets_of: spec_fn(Engine) -> Seq<Market>,
    pub boards_of: spec_fn(Market) -> Seq<Board>,
}

/// The admitted boards under a list of markets, market by market.
pub open spec fn boards_under_markets(
    allowed: Seq<Selection>,
    upstream: Upstream,
    markets: Seq<Market>,
) -> Seq<Board>
    decreases markets.len(),
{
    if markets.len() == 0 {
        Seq::empty()
    } else {
        admitted_boards(allowed, (upstream.boards_of)(markets[0])) + boards_under_markets(
            allowed,
            upstream,
            markets.drop_first(),
        )
    }
}

/// The admitted boards under a list of engines: engine by engine, those
/// under its admitted markets.
pub open spec fn boards_under_engines(
    allowed: Seq<Selection>,
    upstream: Upstream,
    engines: Seq<Engine>,
) -> Seq<Board>
    decreases engines.len(),
{
    if engines.len() == 0 {
        Seq::empty()
    } else {
        boards_under_markets(
            allowed,
            upstream,
            admitted_markets(allowed, (upstream.markets_of)(engines[0])),
        ) + boards_under_engines(allowed, upstream, engines.drop_first())
    }
}

/// The enumeration of a taxonomy: the admitted boards of the admitted
/// markets of the admitted engines, in upstream order at every level.
pub open spec fn enumeration(allowed: Seq<Selection>, upstream: Upstream) -> Seq<Board> {
    boards_under_engines(allowed, upstream, admitted_engines(allowed, upstream.engines))
}

/// The boards that a walk has yet to stream, in order: those queued, then
/// those under what it waits for and what it has queued to open.
pub open spec fn boards_to_come(walker: WalkerView, upstream: Upstream) -> Seq<Board> {
    walker.boards + (match walker.phase {
        Phase::AwaitingBoards(market) => admitted_boards(
            walker.allowed,
            (upstream.boards_of)(market),
        ),
        _ => Seq::empty(),
    }) + boards_under_markets(walker.allowed, upstream, walker.markets) + (match walker.phase {
        Phase::AwaitingMarkets(engine) => boards_under_markets(
            walker.allowed,
            upstream,
            admitted_markets(walker.allowed, (upstream.markets_of)(engine)),
        ),
        _ => Seq::empty(),
    }) + boards_under_engines(walker.allowed, upstream, walker.engines) + (match walker.phase {
        Phase::AwaitingEngines => enumeration(walker.allowed, upstream),
        _ => Seq::empty(),
    })
}

/// The walk after the caller has done a step against `upstream`: a fetch is
/// answered with what the service holds, any other step changes nothing.
pub open spec fn walker_answer(walker: WalkerView, step: StepView, upstream: Upstream) -> (
    WalkerView
) {
    match step {
        StepView::FetchEngines => walker_on_engines(walker, upstream.engines),
        StepView::FetchMarkets(engine) => walker_on_markets(walker, (upstream.markets_of)(engine)),
        StepView::FetchBoards(market) => walker_on_boards(walker, (upstream.boards_of)(market)),
        _ => walker,
    }
}

/// The board that a step hands to the fact stream, if any.
pub open spec fn streamed_by(step: StepView) -> Seq<Board> {
    match step {
        StepView::StreamBoard(board) => seq![board],
        _ => Seq::empty(),
    }
}

/// The boards streamed in the first `steps` steps of a walk against
/// `upstream`, and the walk after them.
pub open spec fn walk_run(start: WalkerView, upstream: Upstream, steps: nat) -> (
    Seq<Board>,
    WalkerView,
)
    decreases steps,
{
    if steps == 0 {
        (Seq::empty(), start)
    } else {
        let (streamed, walker) = walk_run(start, upstream, (steps - 1) as nat);
        let (step, named) = walker_next(walker);
        (streamed + streamed_by(step), walker_answer(named, step, upstream))
    }
}

proof fn lemma_markets_append(
    allowed: Seq<Selection>,
    upstream: Upstream,
    first: Seq<Market>,
    second: Seq<Market>,
)
    ensures
        boards_under_markets(allowed, upstream, first + second) == boards_under_markets(
            allowed,
            upstream,
            first,
        ) + boards_under_markets(allowed, upstream, second),
    decreases first.len(),
{
    if first.len() == 0 {
        assert(first + second =~= second);
    } else {
        lemma_markets_append(allowed, upstream, first.drop_first(), second);
        assert((first + second).drop_first() =~= first.drop_first() + second);
    }
}

proof fn lemma_engines_append(
    allowed: Seq<Selection>,
    upstream: Upstream,
    first: Seq<Engine>,
    second: Seq<Engine>,
)
    ensures
        boards_under_engines(allowed, upstream, first + second) == boards_under_engines(
            allowed,
            upstream,
            first,
        ) + boards_under_engines(allowed, upstream, second),
    decreases first.len(),
{
    if first.len() == 0 {
        assert(first + second =~= second);
    } else {
        lemma_engines_append(allowed, upstream, first.drop_first(), second);
        assert((first + second).drop_first() =~= first.drop_first() + second);
    }
}

/// One step of a walk, answered by the service, streams the next board of
/// what was to come or none, and leaves the rest to come. A board is
/// streamed only once nothing is left to enumerate, and a walk that is done
/// has nothing to come.
pub proof fn lemma_step_keeps_enumeration(before: WalkerView, upstream: Upstream)
    ensures
        streamed_by(walker_next(before).0) + boards_to_come(
            walker_answer(walker_next(before).1, walker_next(before).0, upstream),
            upstream,
        ) == boards_to_come(before, upstream),
        walker_next(before).0 is StreamBoard ==> boards_to_come(before, upstream) == before.boards,
        walker_next(before).0 is Done ==> boards_to_come(before, upstream) == Seq::<Board>::empty(),
        walker_answer(walker_next(before).1, walker_next(before).0, upstream).allowed
            == before.allowed,
{
    let (step, named) = walker_next(before);
    let after = walker_answer(named, step, upstream);
    let allowed = before.allowed;
    if before.pending is Nothing {
        match before.phase {
            Phase::AwaitingEngines => {
                lemma_engines_append(
                    allowed,
                    upstream,
                    before.engines,
                    admitted_engines(allowed, upstream.engines),
                );
            },
            Phase::AwaitingMarkets(engine) => {
                lemma_markets_append(
                    allowed,
                    upstream,
                    before.markets,
                    admitted_markets(allowed, (upstream.markets_of)(engine)),
                );
            },
            Phase::AwaitingBoards(market) => {},
            Phase::Walking => {
                if before.markets.len() > 0 {
                    assert(before.markets.remove(0) =~= before.markets.drop_first());
                } else if before.engines.len() > 0 {
                    assert(before.engines.remove(0) =~= before.engines.drop_first());
                    assert(Seq::<Market>::empty() + admitted_markets(
                        allowed,
                        (upstream.markets_of)(before.engines[0]),
                    ) =~= admitted_markets(allowed, (upstream.markets_of)(before.engines[0])));
                } else if before.boards.len() > 0 {
                    assert(seq![before.boards[0]] + before.boards.remove(0) =~= before.boards);
                }
            },
        }
    }
    assert(streamed_by(step) + boards_to_come(after, upstream) =~= boards_to_come(
        before,
        upstream,
    ));
    if step is StreamBoard {
        assert(boards_to_come(before, upstream) =~= before.boards);
    }
}

/// A walk streams the enumeration: after any number of steps against a
/// service, the boards streamed so far, followed by those to come, are the
/// admitted boards of the taxonomy in upstream order. When the walk is done
/// it has streamed exactly those boards, each once.
pub proof fn lemma_walk_streams_enumeration(
    allowed: Seq<Selection>,
    upstream: Upstream,
    steps: nat,
)
    ensures
        walk_run(walker_start(allowed), upstream, steps).0 + boards_to_come(
            walk_run(walker_start(allowed), upstream, steps).1,
            upstream,
        ) == enumeration(allowed, upstream),
        walk_run(walker_start(allowed), upstream, steps).1.allowed == allowed,
        walker_next(walk_run(walker_start(allowed), upstream, steps).1).0 is Done ==> walk_run(
            walker_start(allowed),
            upstream,
            steps,
        ).0 == enumeration(allowed, upstream),
    decreases steps,
{
    let start = walker_start(allowed);
    if steps == 0 {
        assert(boards_to_come(start, upstream) =~= enumeration(allowed, upstream));
        assert(Seq::<Board>::empty() + boards_to_come(start, upstream) =~= enumeration(
            allowed,
            upstream,
        ));
    } else {
        lemma_walk_streams_enumeration(allowed, upstream, (steps - 1) as nat);
        let (streamed, walker) = walk_run(start, upstream, (steps - 1) as nat);
        lemma_step_keeps_enumeration(walker, upstream);
        let (step, named) = walker_next(walker);
        let after = walker_answer(named, step, upstream);
        assert((streamed + streamed_by(step)) + boards_to_come(after, upstream) =~= streamed + (
        streamed_by(step) + boards_to_come(after, upstream)));
    }
    let (streamed, walker) = walk_run(start, upstream, steps);
    lemma_step_keeps_enumeration(walker, upstream);
    if walker_next(walker).0 is Done {
        assert(streamed + Seq::<Board>::empty() =~= streamed);
    }
}

impl View for TaxonomyWalker {
    type V = WalkerView;

    closed spec fn view(&self) -> WalkerView {
        WalkerView {
            allowed: self.filter.allowed@,
            phase: self.phase,
            pending: self.pending@,
            engines: self.engines@,
            markets: self.markets@,
            boards: self.boards@,
        }
    }
}

impl TaxonomyWalker {
    /// A walk that narrows each level by `filter`.
    pub fn new(filter: TaxonomyFilter) -> (walker: TaxonomyWalker)
        ensures
            walker@ == walker_start(filter.allowed@),
    {
        TaxonomyWalker {
            filter,
            phase: Phase::AwaitingEngines,
            pending: Pending::Nothing,
            engines: Vec::new(),
            markets: Vec::new(),
            boards: Vec::new(),
        }
    }

    /// Names the next piece of work.
    pub fn next_step(&mut self) -> (step: WalkStep)
        ensures
            (step@, final(self)@) == walker_next(old(self)@),
    {
        let mut pending = Pending::Nothing;
        std::mem::swap(&mut pending, &mut self.pending);
        match pending {
            Pending::Engines(batch) => {
                return WalkStep::PersistEngines(batch);
            },
            Pending::Markets(batch) => {
                return WalkStep::PersistMarkets(batch);
            },
            Pending::Boards(batch) => {
                return WalkStep::PersistBoards(batch);
            },
            Pending::Nothing => {},
        }
        let waiting: Option<WalkStep> = match &self.phase {
            Phase::AwaitingEngines => Some(WalkStep::FetchEngines),
            Phase::AwaitingMarkets(engine) => Some(WalkStep::FetchMarkets(engine.clone())),
            Phase::AwaitingBoards(market) => Some(WalkStep::FetchBoards(market.clone())),
            Phase::Walking => None,
        };
        match waiting {
            Some(step) => {
                return step;
            },
            None => {},
        }
        if self.markets.len() > 0 {
            let market = self.markets.remove(0);
            self.phase = Phase::AwaitingBoards(market.clone());
            WalkStep::FetchBoards(market)
        } else if self.engines.len() > 0 {
            let engine = self.engines.remove(0);
            self.phase = Phase::AwaitingMarkets(engine.clone());
            WalkStep::FetchMarkets(engine)
        } else if self.boards.len() > 0 {
            let board = self.boards.remove(0);
            WalkStep::StreamBoard(board)
        } else {
            WalkStep::Done
        }
    }

    /// Hands in the engines that were fetched. Returns whether the walk was
    /// waiting for them; if not, the batch is dropped and nothing changes.
    pub fn on_engines(&mut self, batch: Vec<Engine>) -> (accepted: bool)
        ensures
            accepted == (old(self)@.phase is AwaitingEngines),
            final(self)@ == walker_on_engines(old(self)@, batch@),
    {
        match &self.phase {
            Phase::AwaitingEngines => {},
            _ => {
                return false;
            },
        }
        let mut selected = self.filter.select_engines(&batch);
        self.engines.append(&mut selected);
        self.pending = Pending::Engines(batch);
        self.phase = Phase::Walking;
        true
    }

    /// Hands in the markets that were fetched for the open engine. Returns
    /// whether the walk was waiting for them.
    pub fn on_markets(&mut self, batch: Vec<Market>) -> (accepted: bool)
        ensures
            accepted == (old(self)@.phase is AwaitingMarkets),
            final(self)@ == walker_on_markets(old(self)@, batch@),
    {
        match &self.phase {
            Phase::AwaitingMarkets(_) => {},
            _ => {
                return false;
            },
        }
        let mut selected = self.filter.select_markets(&batch);
        self.markets.append(&mut selected);
        self.pending = Pending::Markets(batch);
        self.phase = Phase::Walking;
        true
    }

    /// Hands in the boards that were fetched for the open market. Returns
    /// whether the walk was waiting for them.
    pub fn on_boards(&mut self, batch: Vec<Board>) -> (accepted: bool)
        ensures
            accepted == (old(self)@.phase is AwaitingBoards),
            final(self)@ == walker_on_boards(old(self)@, batch@),
    {
        match &self.phase {
            Phase::AwaitingBoards(_) => {},
            _ => {
                return false;
            },
        }
        let mut selected = self.filter.select_boards(&batch);
        self.boards.append(&mut selected);
        self.pending = Pending::Boards(batch);
        self.phase = Phase::Walking;
        true
    }
}

} // verus!
