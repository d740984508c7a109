//! The allow-list of a walk over the taxonomy: engines, their markets, the
//! boards of a market.
//!
//! Each level is fetched whole and persisted whole; the allow-list then
//! narrows it to the entities that are walked further. A board is walked
//! only where it is traded. Narrowing keeps upstream order.

use crate::models::{Board, Engine, Market};
use vstd::prelude::*;
use vstd::string::StringExecFns;

verus! {

/// One admitted path through the taxonomy.
#[derive(Debug, PartialEq, Eq)]
pub struct Selection {
    pub engine: String,
    pub market: String,
    pub boardid: String,
}

/// The allow-list of a run.
#[derive(Debug, PartialEq, Eq)]
pub struct TaxonomyFilter {
    pub allowed: Vec<Selection>,
}

/// An engine is admitted where some selection names it.
pub open spec fn admits_engine(allowed: Seq<Selection>, engine: Engine) -> bool {
    exists|i: int| 0 <= i < allowed.len() && (#[trigger] allowed[i]).engine@ == engine.name@
}

/// A market is admitted where some selection names it and its engine.
pub open spec fn admits_market(allowed: Seq<Selection>, market: Market) -> bool {
    exists|i: int|
        0 <= i < allowed.len() && (#[trigger] allowed[i]).engine@ == market.engine@
            && allowed[i].market@ == market.name@
}

/// A board is admitted where it is traded and some selection names it, its
/// market and its engine.
pub open spec fn admits_board(allowed: Seq<Selection>, board: Board) -> bool {
    board.is_traded && exists|i: int|
        0 <= i < allowed.len() && (#[trigger] allowed[i]).engine@ == board.engine@
            && allowed[i].market@ == board.market@ && allowed[i].boardid@ == board.boardid@
}

/// The admitted engines of a batch, in batch order.
pub open spec fn admitted_engines(allowed: Seq<Selection>, batch: Seq<Engine>) -> Seq<Engine> {
    batch.filter(|engine: Engine| admits_engine(allowed, engine))
}

/// The admitted markets of a batch, in batch order.
pub open spec fn admitted_markets(allowed: Seq<Selection>, batch: Seq<Market>) -> Seq<Market> {
    batch.filter(|market: Market| admits_market(allowed, market))
}

/// The admitted boards of a batch, in batch order.
pub open spec fn admitted_boards(allowed: Seq<Selection>, batch: Seq<Board>) -> Seq<Board> {
    batch.filter(|board: Board| admits_board(allowed, board))
}

impl TaxonomyFilter {
    /// The allow-list of one path.
    pub fn single(engine: &str, market: &str, boardid: &str) -> (filter: TaxonomyFilter)
        ensures
            filter.allowed@.len() == 1,
            filter.allowed@[0].engine@ == engine@,
            filter.allowed@[0].market@ == market@,
            filter.allowed@[0].boardid@ == boardid@,
    {
        let mut allowed: Vec<Selection> = Vec::new();
        allowed.push(
            Selection {
                engine: String::from_str(engine),
                market: String::from_str(market),
                boardid: String::from_str(boardid),
            },
        );
        TaxonomyFilter { allowed }
    }

    /// The allow-list in force where none is configured: the board `TQBR` of
    /// the market `shares` of the engine `stock`.
    pub fn shares_main_board() -> (filter: TaxonomyFilter)
        ensures
            filter.allowed@.len() == 1,
            filter.allowed@[0].engine@ == "stock"@,
            filter.allowed@[0].market@ == "shares"@,
            filter.allowed@[0].boardid@ == "TQBR"@,
    {
        TaxonomyFilter::single("stock", "shares", "TQBR")
    }

    /// Whether an engine is walked further.
    pub fn admits_engine(&self, engine: &Engine) -> (admitted: bool)
        ensures
            admitted == admits_engine(self.allowed@, *engine),
    {
        let mut at: usize = 0;
        while at < self.allowed.len()
            invariant
                at <= self.allowed.len(),
                forall|i: int|
                    0 <= i < at ==> (#[trigger] self.allowed@[i]).engine@ != engine.name@,
            decreases self.allowed.len() - at,
        {
            if self.allowed[at].engine == engine.name {
                return true;
            }
            at = at + 1;
        }
        false
    }

    /// Whether a market is walked further.
    pub fn admits_market(&self, market: &Market) -> (admitted: bool)
        ensures
            admitted == admits_market(self.allowed@, *market),
    {
        let mut at: usize = 0;
        while at < self.allowed.len()
            invariant
                at <= self.allowed.len(),
                forall|i: int|
                    0 <= i < at ==> !((#[trigger] self.allowed@[i]).engine@ == market.engine@
                        && self.allowed@[i].market@ == market.name@),
            decreases self.allowed.len() - at,
        {
            if self.allowed[at].engine == market.engine && self.allowed[at].market == market.name {
                return true;
            }
            at = at + 1;
        }
        false
    }

    /// Whether the trades of a board are streamed.
    pub fn admits_board(&self, board: &Board) -> (admitted: bool)
        ensures
            admitted == admits_board(self.allowed@, *board),
    {
        if !board.is_traded {
            return false;
        }
        let mut at: usize = 0;
        while at < self.allowed.len()
            invariant
                at <= self.allowed.len(),
                board.is_traded,
                forall|i: int|
                    0 <= i < at ==> !((#[trigger] self.allowed@[i]).engine@ == board.engine@
                        && self.allowed@[i].market@ == board.market@ && self.allowed@[i].boardid@
                        == board.boardid@),
            decreases self.allowed.len() - at,
        {
            if self.allowed[at].engine == board.engine && self.allowed[at].market == board.market
                && self.allowed[at].boardid == board.boardid {
                return true;
            }
            at = at + 1;
        }
        false
    }

    /// The engines of a batch that are walked further, in batch order.
    pub fn select_engines(&self, batch: &Vec<Engine>) -> (selected: Vec<Engine>)
        ensures
            selected@ == admitted_engines(self.allowed@, batch@),
    {
        let ghost keep = |engine: Engine| admits_engine(self.allowed@, engine);
        let mut selected: Vec<Engine> = Vec::new();
        let mut at: usize = 0;
        proof {
            reveal(Seq::filter);
            assert(batch@.take(0).filter(keep) =~= Seq::<Engine>::empty());
        }
        while at < batch.len()
            invariant
                at <= batch.len(),
                keep == |engine: Engine| admits_engine(self.allowed@, engine),
                selected@ == batch@.take(at as int).filter(keep),
            decreases batch.len() - at,
        {
            proof {
                reveal(Seq::filter);
                assert(batch@.take(at + 1).drop_last() =~= batch@.take(at as int));
            }
            if self.admits_engine(&batch[at]) {
                selected.push(batch[at].clone());
            }
            at = at + 1;
        }
        assert(batch@.take(batch.len() as int) =~= batch@);
        selected
    }

    /// The markets of a batch that are walked further, in batch order.
    pub fn select_markets(&self, batch: &Vec<Market>) -> (selected: Vec<Market>)
        ensures
            selected@ == admitted_markets(self.allowed@, batch@),
    {
        let ghost keep = |market: Market| admits_market(self.allowed@, market);
        let mut selected: Vec<Market> = Vec::new();
        let mut at: usize = 0;
        proof {
            reveal(Seq::filter);
            assert(batch@.take(0).filter(keep) =~= Seq::<Market>::empty());
        }
        while at < batch.len()
            invariant
                at <= batch.len(),
                keep == |market: Market| admits_market(self.allowed@, market),
                selected@ == batch@.take(at as int).filter(keep),
            decreases batch.len() - at,
        {
            proof {
                reveal(Seq::filter);
                assert(batch@.take(at + 1).drop_last() =~= batch@.take(at as int));
            }
            if self.admits_market(&batch[at]) {
                selected.push(batch[at].clone());
            }
            at = at + 1;
        }
        assert(batch@.take(batch.len() as int) =~= batch@);
        selected
    }

    /// The boards of a batch whose trades are streamed, in batch order.
    pub fn select_boards(&self, batch: &Vec<Board>) -> (selected: Vec<Board>)
        ensures
            selected@ == admitted_boards(self.allowed@, batch@),
    {
        let ghost keep = |board: Board| admits_board(self.allowed@, board);
        let mut selected: Vec<Board> = Vec::new();
        let mut at: usize = 0;
        proof {
            reveal(Seq::filter);
            assert(batch@.take(0).filter(keep) =~= Seq::<Board>::empty());
        }
        while at < batch.len()
            invariant
                at <= batch.len(),
                keep == |board: Board| admits_board(self.allowed@, board),
                selected@ == batch@.take(at as int).filter(keep),
            decreases batch.len() - at,
        {
            proof {
                reveal(Seq::filter);
                assert(batch@.take(at + 1).drop_last() =~= batch@.take(at as int));
            }
            if self.admits_board(&batch[at]) {
                selected.push(batch[at].clone());
            }
            at = at + 1;
        }
        assert(batch@.take(batch.len() as int) =~= batch@);
        selected
    }
}

} // verus!
