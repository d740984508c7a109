//! Typed decoding of positional rows.
//!
//! The column order of an endpoint is a contract: a record is built from the
//! cells at fixed positions, after the row's length and each cell's type
//! have been tested. Columns are tested in ascending order and rows from the
//! top; the first fault found is the one reported, and no record is built
//! from a table that has one.

use crate::datetime::{moscow_timestamp, moscow_timestamp_of};
use crate::error::DecodeError;
use crate::models::{
    board_views, engine_views, market_views, trade_views, Board, BoardView, Engine, EngineView,
    Market, MarketView, Trade, TradeView,
};
use crate::table::{read_body, row_view, table_of_body, table_view, Cell, CellView};
use vstd::prelude::*;

verus! {

/// The integer in column `column` of row number `index`.
pub open spec fn integer_at(row: Seq<CellView>, index: usize, column: usize) -> Result<
    i64,
    DecodeError,
> {
    if column >= row.len() {
        Err(DecodeError::MissingColumn { row: index, column })
    } else {
        match row[column as int] {
            CellView::Number { integer: Some(number), .. } => Ok(number),
            _ => Err(DecodeError::WrongType { row: index, column }),
        }
    }
}

/// The integer in column `column`, for a 32-bit field.
pub open spec fn small_integer_at(row: Seq<CellView>, index: usize, column: usize) -> Result<
    i32,
    DecodeError,
> {
    match integer_at(row, index, column) {
        Ok(number) => if i32::MIN <= number <= i32::MAX {
            Ok(number as i32)
        } else {
            Err(DecodeError::OutOfRange { row: index, column })
        },
        Err(error) => Err(error),
    }
}

/// The string in column `column`.
pub open spec fn text_at(row: Seq<CellView>, index: usize, column: usize) -> Result<
    Seq<char>,
    DecodeError,
> {
    if column >= row.len() {
        Err(DecodeError::MissingColumn { row: index, column })
    } else {
        match row[column as int] {
            CellView::Text(chars) => Ok(chars),
            _ => Err(DecodeError::WrongType { row: index, column }),
        }
    }
}

/// The number in column `column`, as the bit pattern of a double.
pub open spec fn real_bits_at(row: Seq<CellView>, index: usize, column: usize) -> Result<
    u64,
    DecodeError,
> {
    if column >= row.len() {
        Err(DecodeError::MissingColumn { row: index, column })
    } else {
        match row[column as int] {
            CellView::Number { real_bits, .. } => Ok(real_bits),
            _ => Err(DecodeError::WrongType { row: index, column }),
        }
    }
}

/// The Moscow timestamp in column `column`, as seconds since the Unix epoch.
pub open spec fn timestamp_at(row: Seq<CellView>, index: usize, column: usize) -> Result<
    i64,
    DecodeError,
> {
    match text_at(row, index, column) {
        Ok(chars) => match moscow_timestamp_of(chars) {
            Some(seconds) => Ok(seconds),
            None => Err(DecodeError::BadTimestamp { row: index, column }),
        },
        Err(error) => Err(error),
    }
}

/// The engine in a row: identifier, name, title.
pub open spec fn engine_of(row: Seq<CellView>, index: usize) -> Result<EngineView, DecodeError> {
    match small_integer_at(row, index, 0) {
        Err(error) => Err(error),
        Ok(id) => match text_at(row, index, 1) {
            Err(error) => Err(error),
            Ok(name) => match text_at(row, index, 2) {
                Err(error) => Err(error),
                Ok(title) => Ok(EngineView { id: id as int, name, title }),
            },
        },
    }
}

/// The market of `engine` in a row: identifier, name, title.
pub open spec fn market_of(engine: Seq<char>, row: Seq<CellView>, index: usize) -> Result<
    MarketView,
    DecodeError,
> {
    match small_integer_at(row, index, 0) {
        Err(error) => Err(error),
        Ok(id) => match text_at(row, index, 1) {
            Err(error) => Err(error),
            Ok(name) => match text_at(row, index, 2) {
                Err(error) => Err(error),
                Ok(title) => Ok(MarketView { engine, id: id as int, name, title }),
            },
        },
    }
}

/// The board of `engine` and `market` in a row: identifier, group, board
/// identifier, title, and the traded flag, which is set by any integer but
/// zero.
pub open spec fn board_of(
    engine: Seq<char>,
    market: Seq<char>,
    row: Seq<CellView>,
    index: usize,
) -> Result<BoardView, DecodeError> {
    match small_integer_at(row, index, 0) {
        Err(error) => Err(error),
        Ok(id) => match small_integer_at(row, index, 1) {
            Err(error) => Err(error),
            Ok(group) => match text_at(row, index, 2) {
                Err(error) => Err(error),
                Ok(boardid) => match text_at(row, index, 3) {
                    Err(error) => Err(error),
                    Ok(title) => match integer_at(row, index, 4) {
                        Err(error) => Err(error),
                        Ok(flag) => Ok(
                            BoardView {
                                engine,
                                market,
                                id: id as int,
                                board_group_id: group as int,
                                boardid,
                                title,
                                is_traded: flag != 0,
                            },
                        ),
                    },
                },
            },
        },
    }
}

/// The trade of `engine` and `market` in a row: trade number in column 0,
/// board in 2, security in 3, price in 4, quantity in 5, system time in 9,
/// side in 10. The system time stands for the trade time too.
pub open spec fn trade_of(
    engine: Seq<char>,
    market: Seq<char>,
    row: Seq<CellView>,
    index: usize,
) -> Result<TradeView, DecodeError> {
    match integer_at(row, index, 0) {
        Err(error) => Err(error),
        Ok(tradeid) => match text_at(row, index, 2) {
            Err(error) => Err(error),
            Ok(boardid) => match text_at(row, index, 3) {
                Err(error) => Err(error),
                Ok(secid) => match real_bits_at(row, index, 4) {
                    Err(error) => Err(error),
                    Ok(price_bits) => match small_integer_at(row, index, 5) {
                        Err(error) => Err(error),
                        Ok(quantity) => match timestamp_at(row, index, 9) {
                            Err(error) => Err(error),
                            Ok(moment) => match text_at(row, index, 10) {
                                Err(error) => Err(error),
                                Ok(buysell) => Ok(
                                    TradeView {
                                        engine,
                                        market,
                                        secid,
                                        boardid,
                                        tradeid: tradeid as int,
                                        buysell,
                                        quantity: quantity as int,
                                        price_bits,
                                        tradetime: moment as int,
                                        systime: moment as int,
                                    },
                                ),
                            },
                        },
                    },
                },
            },
        },
    }
}

/// The records of the first `count` rows, each decoded by `decode`; the
/// fault of the first faulty row where there is one.
pub open spec fn collected<V>(
    rows: Seq<Seq<CellView>>,
    decode: spec_fn(Seq<CellView>, usize) -> Result<V, DecodeError>,
    count: int,
) -> Result<Seq<V>, DecodeError>
    decreases count,
{
    if count <= 0 {
        Ok(Seq::empty())
    } else {
        match collected(rows, decode, count - 1) {
            Err(error) => Err(error),
            Ok(records) => match decode(rows[count - 1], (count - 1) as usize) {
                Ok(record) => Ok(records.push(record)),
                Err(error) => Err(error),
            },
        }
    }
}

/// The engines of a table.
pub open spec fn engines_of(rows: Seq<Seq<CellView>>) -> Result<Seq<EngineView>, DecodeError> {
    collected(rows, |row: Seq<CellView>, index: usize| engine_of(row, index), rows.len() as int)
}

/// The markets of `engine` in a table.
pub open spec fn markets_of(engine: Seq<char>, rows: Seq<Seq<CellView>>) -> Result<
    Seq<MarketView>,
    DecodeError,
> {
    collected(
        rows,
        |row: Seq<CellView>, index: usize| market_of(engine, row, index),
        rows.len() as int,
    )
}

/// The boards of `engine` and `market` in a table.
pub open spec fn boards_of(
    engine: Seq<char>,
    market: Seq<char>,
    rows: Seq<Seq<CellView>>,
) -> Result<Seq<BoardView>, DecodeError> {
    collected(
        rows,
        |row: Seq<CellView>, index: usize| board_of(engine, market, row, index),
        rows.len() as int,
    )
}

/// The trades of `engine` and `market` in a table.
pub open spec fn trades_of(
    engine: Seq<char>,
    market: Seq<char>,
    rows: Seq<Seq<CellView>>,
) -> Result<Seq<TradeView>, DecodeError> {
    collected(
        rows,
        |row: Seq<CellView>, index: usize| trade_of(engine, market, row, index),
        rows.len() as int,
    )
}

proof fn lemma_fault_sticks<V>(
    rows: Seq<Seq<CellView>>,
    decode: spec_fn(Seq<CellView>, usize) -> Result<V, DecodeError>,
    first: int,
    count: int,
)
    requires
        0 <= first <= count,
        collected(rows, decode, first) is Err,
    ensures
        collected(rows, decode, count) == collected(rows, decode, first),
    decreases count - first,
{
    if first < count {
        lemma_fault_sticks(rows, decode, first, count - 1);
    }
}

fn read_integer(row: &Vec<Cell>, index: usize, column: usize) -> (result: Result<i64, DecodeError>)
    ensures
        result == integer_at(row_view(row@), index, column),
{
    if column >= row.len() {
        return Err(DecodeError::MissingColumn { row: index, column });
    }
    match &row[column] {
        Cell::Number { integer: Some(number), .. } => Ok(*number),
        _ => Err(DecodeError::WrongType { row: index, column }),
    }
}

fn read_small_integer(row: &Vec<Cell>, index: usize, column: usize) -> (result: Result<
    i32,
    DecodeError,
>)
    ensures
        result == small_integer_at(row_view(row@), index, column),
{
    match read_integer(row, index, column) {
        Ok(number) => if -2147483648 <= number && number <= 2147483647 {
            Ok(number as i32)
        } else {
            Err(DecodeError::OutOfRange { row: index, column })
        },
        Err(error) => Err(error),
    }
}

fn read_text(row: &Vec<Cell>, index: usize, column: usize) -> (result: Result<String, DecodeError>)
    ensures
        match result {
            Ok(text) => text_at(row_view(row@), index, column) == Ok::<Seq<char>, DecodeError>(
                text@,
            ),
            Err(error) => text_at(row_view(row@), index, column) == Err::<Seq<char>, DecodeError>(
                error,
            ),
        },
{
    if column >= row.len() {
        return Err(DecodeError::MissingColumn { row: index, column });
    }
    match &row[column] {
        Cell::Text(text) => Ok(text.clone()),
        _ => Err(DecodeError::WrongType { row: index, column }),
    }
}

fn read_real_bits(row: &Vec<Cell>, index: usize, column: usize) -> (result: Result<
    u64,
    DecodeError,
>)
    ensures
        result == real_bits_at(row_view(row@), index, column),
{
    if column >= row.len() {
        return Err(DecodeError::MissingColumn { row: index, column });
    }
    match &row[column] {
        Cell::Number { real_bits, .. } => Ok(*real_bits),
        _ => Err(DecodeError::WrongType { row: index, column }),
    }
}

fn read_timestamp(row: &Vec<Cell>, index: usize, column: usize) -> (result: Result<
    i64,
    DecodeError,
>)
    ensures
        result == timestamp_at(row_view(row@), index, column),
{
    match read_text(row, index, column) {
        Ok(text) => match moscow_timestamp(text.as_str()) {
            Some(seconds) => Ok(seconds),
            None => Err(DecodeError::BadTimestamp { row: index, column }),
        },
        Err(error) => Err(error),
    }
}

impl Engine {
    /// Decodes row number `index` of the engines table.
    pub fn from_row(row: &Vec<Cell>, index: usize) -> (result: Result<Engine, DecodeError>)
        ensures
            match result {
                Ok(engine) => engine_of(row_view(row@), index) == Ok::<EngineView, DecodeError>(
                    engine@,
                ),
                Err(error) => engine_of(row_view(row@), index) == Err::<EngineView, DecodeError>(
                    error,
                ),
            },
    {
        let id = match read_small_integer(row, index, 0) {
            Ok(id) => id,
            Err(error) => {
                return Err(error);
            },
        };
        let name = match read_text(row, index, 1) {
            Ok(name) => name,
            Err(error) => {
                return Err(error);
            },
        };
        let title = match read_text(row, index, 2) {
            Ok(title) => title,
            Err(error) => {
                return Err(error);
            },
        };
        Ok(Engine { id, name, title })
    }
}

impl Market {
    /// Decodes row number `index` of the markets table of `engine`.
    pub fn from_row(engine: &str, row: &Vec<Cell>, index: usize) -> (result: Result<
        Market,
        DecodeError,
    >)
        ensures
            match result {
                Ok(market) => market_of(engine@, row_view(row@), index) == Ok::<
                    MarketView,
                    DecodeError,
                >(market@),
                Err(error) => market_of(engine@, row_view(row@), index) == Err::<
                    MarketView,
                    DecodeError,
                >(error),
            },
    {
        let id = match read_small_integer(row, index, 0) {
            Ok(id) => id,
            Err(error) => {
                return Err(error);
            },
        };
        let name = match read_text(row, index, 1) {
            Ok(name) => name,
            Err(error) => {
                return Err(error);
            },
        };
        let title = match read_text(row, index, 2) {
            Ok(title) => title,
            Err(error) => {
                return Err(error);
            },
        };
        Ok(Market { engine: engine.to_owned(), id, name, title })
    }
}

impl Board {
    /// Decodes row number `index` of the boards table of `engine` and
    /// `market`.
    pub fn from_row(engine: &str, market: &str, row: &Vec<Cell>, index: usize) -> (result: Result<
        Board,
        DecodeError,
    >)
        ensures
            match result {
                Ok(board) => board_of(engine@, market@, row_view(row@), index) == Ok::<
                    BoardView,
                    DecodeError,
                >(board@),
                Err(error) => board_of(engine@, market@, row_view(row@), index) == Err::<
                    BoardView,
                    DecodeError,
                >(error),
            },
    {
        let id = match read_small_integer(row, index, 0) {
            Ok(id) => id,
            Err(error) => {
                return Err(error);
            },
        };
        let board_group_id = match read_small_integer(row, index, 1) {
            Ok(group) => group,
            Err(error) => {
                return Err(error);
            },
        };
        let boardid = match read_text(row, index, 2) {
            Ok(boardid) => boardid,
            Err(error) => {
                return Err(error);
            },
        };
        let title = match read_text(row, index, 3) {
            Ok(title) => title,
            Err(error) => {
                return Err(error);
            },
        };
        let flag = match read_integer(row, index, 4) {
            Ok(flag) => flag,
            Err(error) => {
                return Err(error);
            },
        };
        Ok(
            Board {
                engine: engine.to_owned(),
                market: market.to_owned(),
                id,
                board_group_id,
                boardid,
                title,
                is_traded: flag != 0,
            },
        )
    }
}

impl Trade {
    /// Decodes row number `index` of the trades table of `engine` and
    /// `market`.
    pub fn from_row(engine: &str, market: &str, row: &Vec<Cell>, index: usize) -> (result: Result<
        Trade,
        DecodeError,
    >)
        ensures
            match result {
                Ok(trade) => trade_of(engine@, market@, row_view(row@), index) == Ok::<
                    TradeView,
                    DecodeError,
                >(trade@),
                Err(error) => trade_of(engine@, market@, row_view(row@), index) == Err::<
                    TradeView,
                    DecodeError,
                >(error),
            },
    {
        let tradeid = match read_integer(row, index, 0) {
            Ok(tradeid) => tradeid,
            Err(error) => {
                return Err(error);
            },
        };
        let boardid = match read_text(row, index, 2) {
            Ok(boardid) => boardid,
            Err(error) => {
                return Err(error);
            },
        };
        let secid = match read_text(row, index, 3) {
            Ok(secid) => secid,
            Err(error) => {
                return Err(error);
            },
        };
        let price_bits = match read_real_bits(row, index, 4) {
            Ok(bits) => bits,
            Err(error) => {
                return Err(error);
            },
        };
        let quantity = match read_small_integer(row, index, 5) {
            Ok(quantity) => quantity,
            Err(error) => {
                return Err(error);
            },
        };
        let moment = match read_timestamp(row, index, 9) {
            Ok(moment) => moment,
            Err(error) => {
                return Err(error);
            },
        };
        let buysell = match read_text(row, index, 10) {
            Ok(buysell) => buysell,
            Err(error) => {
                return Err(error);
            },
        };
        Ok(
            Trade {
                engine: engine.to_owned(),
                market: market.to_owned(),
                secid,
                boardid,
                tradeid,
                buysell,
                quantity,
                price_bits,
                tradetime: moment,
                systime: moment,
            },
        )
    }
}

/// Decodes the engines table.
pub fn decode_engines(rows: &Vec<Vec<Cell>>) -> (result: Result<Vec<Engine>, DecodeError>)
    ensures
        match result {
            Ok(list) => engines_of(table_view(rows@)) == Ok::<Seq<EngineView>, DecodeError>(
                engine_views(list@),
            ),
            Err(error) => engines_of(table_view(rows@)) == Err::<Seq<EngineView>, DecodeError>(
                error,
            ),
        },
{
    let ghost table = table_view(rows@);
    let ghost decode = |row: Seq<CellView>, index: usize| engine_of(row, index);
    let mut list: Vec<Engine> = Vec::new();
    let mut at: usize = 0;
    assert(engine_views(list@) =~= Seq::<EngineView>::empty());
    while at < rows.len()
        invariant
            at <= rows.len(),
            table == table_view(rows@),
            decode == |row: Seq<CellView>, index: usize| engine_of(row, index),
            collected(table, decode, at as int) == Ok::<Seq<EngineView>, DecodeError>(
                engine_views(list@),
            ),
        decreases rows.len() - at,
    {
        match Engine::from_row(&rows[at], at) {
            Ok(engine) => {
                assert(engine_views(list@.push(engine)) =~= engine_views(list@).push(engine@));
                list.push(engine);
            },
            Err(error) => {
                proof {
                    lemma_fault_sticks(table, decode, at + 1, rows.len() as int);
                }
                return Err(error);
            },
        }
        at = at + 1;
    }
    Ok(list)
}

/// Decodes the markets table of `engine`.
pub fn decode_markets(engine: &str, rows: &Vec<Vec<Cell>>) -> (result: Result<
    Vec<Market>,
    DecodeError,
>)
    ensures
        match result {
            Ok(list) => markets_of(engine@, table_view(rows@)) == Ok::<
                Seq<MarketView>,
                DecodeError,
            >(market_views(list@)),
            Err(error) => markets_of(engine@, table_view(rows@)) == Err::<
                Seq<MarketView>,
                DecodeError,
            >(error),
        },
{
    let ghost table = table_view(rows@);
    let ghost decode = |row: Seq<CellView>, index: usize| market_of(engine@, row, index);
    let mut list: Vec<Market> = Vec::new();
    let mut at: usize = 0;
    assert(market_views(list@) =~= Seq::<MarketView>::empty());
    while at < rows.len()
        invariant
            at <= rows.len(),
            table == table_view(rows@),
            decode == |row: Seq<CellView>, index: usize| market_of(engine@, row, index),
            collected(table, decode, at as int) == Ok::<Seq<MarketView>, DecodeError>(
                market_views(list@),
            ),
        decreases rows.len() - at,
    {
        match Market::from_row(engine, &rows[at], at) {
            Ok(market) => {
                assert(market_views(list@.push(market)) =~= market_views(list@).push(market@));
                list.push(market);
            },
            Err(error) => {
                proof {
                    lemma_fault_sticks(table, decode, at + 1, rows.len() as int);
                }
                return Err(error);
            },
        }
        at = at + 1;
    }
    Ok(list)
}

/// Decodes the boards table of `engine` and `market`.
pub fn decode_boards(engine: &str, market: &str, rows: &Vec<Vec<Cell>>) -> (result: Result<
    Vec<Board>,
    DecodeError,
>)
    ensures
        match result {
            Ok(list) => boards_of(engine@, market@, table_view(rows@)) == Ok::<
                Seq<BoardView>,
                DecodeError,
            >(board_views(list@)),
            Err(error) => boards_of(engine@, market@, table_view(rows@)) == Err::<
                Seq<BoardView>,
                DecodeError,
            >(error),
        },
{
    let ghost table = table_view(rows@);
    let ghost decode = |row: Seq<CellView>, index: usize| board_of(engine@, market@, row, index);
    let mut list: Vec<Board> = Vec::new();
    let mut at: usize = 0;
    assert(board_views(list@) =~= Seq::<BoardView>::empty());
    while at < rows.len()
        invariant
            at <= rows.len(),
            table == table_view(rows@),
            decode == |row: Seq<CellView>, index: usize| board_of(engine@, market@, row, index),
            collected(table, decode, at as int) == Ok::<Seq<BoardView>, DecodeError>(
                board_views(list@),
            ),
        decreases rows.len() - at,
    {
        match Board::from_row(engine, market, &rows[at], at) {
            Ok(board) => {
                assert(board_views(list@.push(board)) =~= board_views(list@).push(board@));
                list.push(board);
            },
            Err(error) => {
                proof {
                    lemma_fault_sticks(table, decode, at + 1, rows.len() as int);
                }
                return Err(error);
            },
        }
        at = at + 1;
    }
    Ok(list)
}

/// Decodes the trades table of `engine` and `market`.
pub fn decode_trades(engine: &str, market: &str, rows: &Vec<Vec<Cell>>) -> (result: Result<
    Vec<Trade>,
    DecodeError,
>)
    ensures
        match result {
            Ok(list) => trades_of(engine@, market@, table_view(rows@)) == Ok::<
                Seq<TradeView>,
                DecodeError,
            >(trade_views(list@)),
            Err(error) => trades_of(engine@, market@, table_view(rows@)) == Err::<
                Seq<TradeView>,
                DecodeError,
            >(error),
        },
{
    let ghost table = table_view(rows@);
    let ghost decode = |row: Seq<CellView>, index: usize| trade_of(engine@, market@, row, index);
    let mut list: Vec<Trade> = Vec::new();
    let mut at: usize = 0;
    assert(trade_views(list@) =~= Seq::<TradeView>::empty());
    while at < rows.len()
        invariant
            at <= rows.len(),
            table == table_view(rows@),
            decode == |row: Seq<CellView>, index: usize| trade_of(engine@, market@, row, index),
            collected(table, decode, at as int) == Ok::<Seq<TradeView>, DecodeError>(
                trade_views(list@),
            ),
        decreases rows.len() - at,
    {
        match Trade::from_row(engine, market, &rows[at], at) {
            Ok(trade) => {
                assert(trade_views(list@.push(trade)) =~= trade_views(list@).push(trade@));
                list.push(trade);
            },
            Err(error) => {
                proof {
                    lemma_fault_sticks(table, decode, at + 1, rows.len() as int);
                }
                return Err(error);
            },
        }
        at = at + 1;
    }
    Ok(list)
}

/// The engines of a response body.
pub open spec fn engines_of_body(body: Seq<char>) -> Result<Seq<EngineView>, DecodeError> {
    match table_of_body(body, "engines"@) {
        Ok(rows) => engines_of(rows),
        Err(error) => Err(error),
    }
}

/// The markets of `engine` in a response body.
pub open spec fn markets_of_body(engine: Seq<char>, body: Seq<char>) -> Result<
    Seq<MarketView>,
    DecodeError,
> {
    match table_of_body(body, "markets"@) {
        Ok(rows) => markets_of(engine, rows),
        Err(error) => Err(error),
    }
}

/// The boards of `engine` and `market` in a response body.
pub open spec fn boards_of_body(engine: Seq<char>, market: Seq<char>, body: Seq<char>) -> Result<
    Seq<BoardView>,
    DecodeError,
> {
    match table_of_body(body, "boards"@) {
        Ok(rows) => boards_of(engine, market, rows),
        Err(error) => Err(error),
    }
}

/// The trades of `engine` and `market` in a response body.
pub open spec fn trades_of_body(engine: Seq<char>, market: Seq<char>, body: Seq<char>) -> Result<
    Seq<TradeView>,
    DecodeError,
> {
    match table_of_body(body, "trades"@) {
        Ok(rows) => trades_of(engine, market, rows),
        Err(error) => Err(error),
    }
}

/// Decodes the body of an engines response.
///
/// Any fault of the body, of the table's shape or of a cell fails the whole
/// page: no engine is returned beside an error.
pub fn engines_from_body(body: &str) -> (result: Result<Vec<Engine>, DecodeError>)
    ensures
        match result {
            Ok(list) => engines_of_body(body@) == Ok::<Seq<EngineView>, DecodeError>(
                engine_views(list@),
            ),
            Err(error) => engines_of_body(body@) == Err::<Seq<EngineView>, DecodeError>(error),
        },
{
    match read_body(body, "engines") {
        Ok(rows) => decode_engines(&rows),
        Err(error) => Err(error),
    }
}

/// Decodes the body of a markets response for `engine`.
pub fn markets_from_body(engine: &str, body: &str) -> (result: Result<Vec<Market>, DecodeError>)
    ensures
        match result {
            Ok(list) => markets_of_body(engine@, body@) == Ok::<Seq<MarketView>, DecodeError>(
                market_views(list@),
            ),
            Err(error) => markets_of_body(engine@, body@) == Err::<Seq<MarketView>, DecodeError>(
                error,
            ),
        },
{
    match read_body(body, "markets") {
        Ok(rows) => decode_markets(engine, &rows),
        Err(error) => Err(error),
    }
}

/// Decodes the body of a boards response for `engine` and `market`.
pub fn boards_from_body(engine: &str, market: &str, body: &str) -> (result: Result<
    Vec<Board>,
    DecodeError,
>)
    ensures
        match result {
            Ok(list) => boards_of_body(engine@, market@, body@) == Ok::<
                Seq<BoardView>,
                DecodeError,
            >(board_views(list@)),
            Err(error) => boards_of_body(engine@, market@, body@) == Err::<
                Seq<BoardView>,
                DecodeError,
            >(error),
        },
{
    match read_body(body, "boards") {
        Ok(rows) => decode_boards(engine, market, &rows),
        Err(error) => Err(error),
    }
}

/// Decodes the body of one page of trades for `engine` and `market`.
///
/// A page with no rows decodes to an empty list, which ends the stream of
/// its board. A malformed page is an error, never a shorter list.
pub fn trades_from_body(engine: &str, market: &str, body: &str) -> (result: Result<
    Vec<Trade>,
    DecodeError,
>)
    ensures
        match result {
            Ok(list) => trades_of_body(engine@, market@, body@) == Ok::<
                Seq<TradeView>,
                DecodeError,
            >(trade_views(list@)),
            Err(error) => trades_of_body(engine@, market@, body@) == Err::<
                Seq<TradeView>,
                DecodeError,
            >(error),
        },
{
    match read_body(body, "trades") {
        Ok(rows) => decode_trades(engine, market, &rows),
        Err(error) => Err(error),
    }
}

} // verus!
