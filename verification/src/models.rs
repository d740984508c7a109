//! Reference entities of the venue taxonomy, and the trade record.
//!
//! Each type has a view that holds its strings as character sequences; the
//! contracts of the crate speak of those views.

use vstd::prelude::*;

verus! {

/// A trading engine, the broadest level of the taxonomy. Its natural key is
/// its name.
#[derive(Debug, PartialEq, Eq)]
pub struct Engine {
    pub id: i32,
    pub name: String,
    pub title: String,
}

/// A market of an engine. Its natural key is the engine's name with its own.
#[derive(Debug, PartialEq, Eq)]
pub struct Market {
    pub engine: String,
    pub id: i32,
    pub name: String,
    pub title: String,
}

/// A board of a market, the narrowest level. Its natural key is the engine's
/// name, the market's name and the board identifier.
#[derive(Debug, PartialEq, Eq)]
pub struct Board {
    pub engine: String,
    pub market: String,
    pub id: i32,
    pub board_group_id: i32,
    pub boardid: String,
    pub title: String,
    pub is_traded: bool,
}

/// One trade.
///
/// The price is held as the bit pattern of an IEEE 754 double, and both
/// times as seconds since the Unix epoch. The traded value, the price times
/// the quantity, is a floating-point product and is left to the caller.
#[derive(Debug, PartialEq, Eq)]
pub struct Trade {
    pub engine: String,
    pub market: String,
    pub secid: String,
    pub boardid: String,
    pub tradeid: i64,
    pub buysell: String,
    pub quantity: i32,
    pub price_bits: u64,
    pub tradetime: i64,
    pub systime: i64,
}

pub struct EngineView {
    pub id: int,
    pub name: Seq<char>,
    pub title: Seq<char>,
}

pub struct MarketView {
    pub engine: Seq<char>,
    pub id: int,
    pub name: Seq<char>,
    pub title: Seq<char>,
}

pub struct BoardView {
    pub engine: Seq<char>,
    pub market: Seq<char>,
    pub id: int,
    pub board_group_id: int,
    pub boardid: Seq<char>,
    pub title: Seq<char>,
    pub is_traded: bool,
}

pub struct TradeView {
    pub engine: Seq<char>,
    pub market: Seq<char>,
    pub secid: Seq<char>,
    pub boardid: Seq<char>,
    pub tradeid: int,
    pub buysell: Seq<char>,
    pub quantity: int,
    pub price_bits: u64,
    pub tradetime: int,
    pub systime: int,
}

impl View for Engine {
    type V = EngineView;

    open spec fn view(&self) -> EngineView {
        EngineView { id: self.id as int, name: self.name@, title: self.title@ }
    }
}

impl View for Market {
    type V = MarketView;

    open spec fn view(&self) -> MarketView {
        MarketView {
            engine: self.engine@,
            id: self.id as int,
            name: self.name@,
            title: self.title@,
        }
    }
}

impl View for Board {
    type V = BoardView;

    open spec fn view(&self) -> BoardView {
        BoardView {
            engine: self.engine@,
            market: self.market@,
            id: self.id as int,
            board_group_id: self.board_group_id as int,
            boardid: self.boardid@,
            title: self.title@,
            is_traded: self.is_traded,
        }
    }
}

impl View for Trade {
    type V = TradeView;

    open spec fn view(&self) -> TradeView {
        TradeView {
            engine: self.engine@,
            market: self.market@,
            secid: self.secid@,
            boardid: self.boardid@,
            tradeid: self.tradeid as int,
            buysell: self.buysell@,
            quantity: self.quantity as int,
            price_bits: self.price_bits,
            tradetime: self.tradetime as int,
            systime: self.systime as int,
        }
    }
}

impl EngineView {
    /// The natural key of an engine: its name.
    pub open spec fn natural_key(self) -> Seq<Seq<char>> {
        seq![self.name]
    }
}

impl MarketView {
    /// The natural key of a market: engine, then name.
    pub open spec fn natural_key(self) -> Seq<Seq<char>> {
        seq![self.engine, self.name]
    }
}

impl BoardView {
    /// The natural key of a board: engine, market, then board identifier.
    pub open spec fn natural_key(self) -> Seq<Seq<char>> {
        seq![self.engine, self.market, self.boardid]
    }
}

/// The views of a list of engines.
pub open spec fn engine_views(list: Seq<Engine>) -> Seq<EngineView> {
    list.map_values(|engine: Engine| engine@)
}

/// The views of a list of markets.
pub open spec fn market_views(list: Seq<Market>) -> Seq<MarketView> {
    list.map_values(|market: Market| market@)
}

/// The views of a list of boards.
pub open spec fn board_views(list: Seq<Board>) -> Seq<BoardView> {
    list.map_values(|board: Board| board@)
}

/// The views of a list of trades.
pub open spec fn trade_views(list: Seq<Trade>) -> Seq<TradeView> {
    list.map_values(|trade: Trade| trade@)
}

/// The views of a key's components.
pub open spec fn key_view(key: Seq<String>) -> Seq<Seq<char>> {
    key.map_values(|part: String| part@)
}

impl Clone for Engine {
    fn clone(&self) -> (copy: Self)
        ensures
            copy == *self,
    {
        Engine { id: self.id, name: self.name.clone(), title: self.title.clone() }
    }
}

impl Clone for Market {
    fn clone(&self) -> (copy: Self)
        ensures
            copy == *self,
    {
        Market {
            engine: self.engine.clone(),
            id: self.id,
            name: self.name.clone(),
            title: self.title.clone(),
        }
    }
}

impl Clone for Board {
    fn clone(&self) -> (copy: Self)
        ensures
            copy == *self,
    {
        Board {
            engine: self.engine.clone(),
            market: self.market.clone(),
            id: self.id,
            board_group_id: self.board_group_id,
            boardid: self.boardid.clone(),
            title: self.title.clone(),
            is_traded: self.is_traded,
        }
    }
}

impl Clone for Trade {
    fn clone(&self) -> (copy: Self)
        ensures
            copy == *self,
    {
        Trade {
            engine: self.engine.clone(),
            market: self.market.clone(),
            secid: self.secid.clone(),
            boardid: self.boardid.clone(),
            tradeid: self.tradeid,
            buysell: self.buysell.clone(),
            quantity: self.quantity,
            price_bits: self.price_bits,
            tradetime: self.tradetime,
            systime: self.systime,
        }
    }
}

impl Engine {
    /// The components of the natural key, by which the sink is asked whether
    /// the engine is already stored.
    pub fn natural_key(&self) -> (key: Vec<String>)
        ensures
            key_view(key@) == self@.natural_key(),
    {
        let mut key: Vec<String> = Vec::new();
        key.push(self.name.clone());
        assert(key_view(key@) =~= self@.natural_key());
        key
    }
}

impl Market {
    /// The components of the natural key, by which the sink is asked whether
    /// the market is already stored.
    pub fn natural_key(&self) -> (key: Vec<String>)
        ensures
            key_view(key@) == self@.natural_key(),
    {
        let mut key: Vec<String> = Vec::new();
        key.push(self.engine.clone());
        key.push(self.name.clone());
        assert(key_view(key@) =~= self@.natural_key());
        key
    }
}

impl Board {
    /// The components of the natural key, by which the sink is asked whether
    /// the board is already stored.
    pub fn natural_key(&self) -> (key: Vec<String>)
        ensures
            key_view(key@) == self@.natural_key(),
    {
        let mut key: Vec<String> = Vec::new();
        key.push(self.engine.clone());
        key.push(self.market.clone());
        key.push(self.boardid.clone());
        assert(key_view(key@) =~= self@.natural_key());
        key
    }
}

} // verus!
