use anselm_scribe::models::{Board, Engine, Market};
use anselm_scribe::taxonomy::{Selection, TaxonomyFilter};
use anselm_scribe::walker::{TaxonomyWalker, WalkStep};

fn engine(id: i32, name: &str) -> Engine {
    Engine { id, name: name.to_string(), title: format!("engine {}", name) }
}

fn market(engine: &str, id: i32, name: &str) -> Market {
    Market { engine: engine.to_string(), id, name: name.to_string(), title: format!("market {}", name) }
}

fn board(engine: &str, market: &str, id: i32, boardid: &str, is_traded: bool) -> Board {
    Board {
        engine: engine.to_string(),
        market: market.to_string(),
        id,
        board_group_id: 57,
        boardid: boardid.to_string(),
        title: format!("board {}", boardid),
        is_traded,
    }
}

fn selection(engine: &str, market: &str, boardid: &str) -> Selection {
    Selection { engine: engine.to_string(), market: market.to_string(), boardid: boardid.to_string() }
}

#[test]
fn only_the_traded_board_is_streamed_and_both_boards_are_persisted() {
    let engines = vec![engine(1, "stock")];
    let markets = vec![market("stock", 1, "shares")];
    let boards = vec![
        board("stock", "shares", 129, "TQBR", true),
        board("stock", "shares", 3, "EQBR", false),
    ];
    let mut walker = TaxonomyWalker::new(TaxonomyFilter::shares_main_board());
    let mut persisted_engines = Vec::new();
    let mut persisted_markets = Vec::new();
    let mut persisted_boards = Vec::new();
    let mut streamed = Vec::new();
    let mut steps = 0;
    loop {
        steps += 1;
        assert!(steps < 100);
        match walker.next_step() {
            WalkStep::FetchEngines => assert!(walker.on_engines(engines.clone())),
            WalkStep::PersistEngines(batch) => persisted_engines.extend(batch),
            WalkStep::FetchMarkets(open) => {
                assert_eq!(open.name, "stock");
                assert!(walker.on_markets(markets.clone()));
            }
            WalkStep::PersistMarkets(batch) => persisted_markets.extend(batch),
            WalkStep::FetchBoards(open) => {
                assert_eq!(open.name, "shares");
                assert!(walker.on_boards(boards.clone()));
            }
            WalkStep::PersistBoards(batch) => persisted_boards.extend(batch),
            WalkStep::StreamBoard(open) => streamed.push(open),
            WalkStep::Done => break,
        }
    }
    assert_eq!(streamed, vec![boards[0].clone()]);
    assert_eq!(persisted_boards, boards);
    assert_eq!(persisted_markets, markets);
    assert_eq!(persisted_engines, engines);
}

#[test]
fn taxonomy_is_enumerated_in_upstream_order_before_boards_are_streamed() {
    let filter = TaxonomyFilter {
        allowed: vec![
            selection("stock", "shares", "TQBR"),
            selection("stock", "bonds", "TQOB"),
            selection("currency", "selt", "CETS"),
            selection("stock", "shares", "TQTF"),
        ],
    };
    let mut walker = TaxonomyWalker::new(filter);
    let mut log: Vec<String> = Vec::new();
    loop {
        match walker.next_step() {
            WalkStep::FetchEngines => {
                log.push("fetch engines".to_string());
                walker.on_engines(vec![engine(1, "stock"), engine(2, "state"), engine(3, "currency")]);
            }
            WalkStep::PersistEngines(batch) => log.push(format!("persist {} engines", batch.len())),
            WalkStep::FetchMarkets(open) => {
                log.push(format!("fetch markets of {}", open.name));
                if open.name == "stock" {
                    walker.on_markets(vec![
                        market("stock", 1, "index"),
                        market("stock", 2, "shares"),
                        market("stock", 3, "bonds"),
                    ]);
                } else {
                    walker.on_markets(vec![market("currency", 4, "selt")]);
                }
            }
            WalkStep::PersistMarkets(batch) => log.push(format!("persist {} markets", batch.len())),
            WalkStep::FetchBoards(open) => {
                log.push(format!("fetch boards of {}/{}", open.engine, open.name));
                let batch = match open.name.as_str() {
                    "shares" => vec![
                        board("stock", "shares", 1, "TQTF", true),
                        board("stock", "shares", 2, "SMAL", true),
                        board("stock", "shares", 3, "TQBR", true),
                    ],
                    "bonds" => vec![board("stock", "bonds", 4, "TQOB", false)],
                    _ => vec![board("currency", "selt", 5, "CETS", true)],
                };
                walker.on_boards(batch);
            }
            WalkStep::PersistBoards(batch) => log.push(format!("persist {} boards", batch.len())),
            WalkStep::StreamBoard(open) => log.push(format!("stream {}", open.boardid)),
            WalkStep::Done => break,
        }
    }
    assert_eq!(
        log,
        vec![
            "fetch engines",
            "persist 3 engines",
            "fetch markets of stock",
            "persist 3 markets",
            "fetch boards of stock/shares",
            "persist 3 boards",
            "fetch boards of stock/bonds",
            "persist 1 boards",
            "fetch markets of currency",
            "persist 1 markets",
            "fetch boards of currency/selt",
            "persist 1 boards",
            "stream TQTF",
            "stream TQBR",
            "stream CETS",
        ]
    );
    assert_eq!(walker.next_step(), WalkStep::Done);
}

#[test]
fn empty_taxonomy_is_persisted_and_done() {
    let mut walker = TaxonomyWalker::new(TaxonomyFilter::shares_main_board());
    assert_eq!(walker.next_step(), WalkStep::FetchEngines);
    assert!(walker.on_engines(vec![]));
    assert_eq!(walker.next_step(), WalkStep::PersistEngines(vec![]));
    assert_eq!(walker.next_step(), WalkStep::Done);
}

#[test]
fn unanswered_fetch_is_named_again() {
    let mut walker = TaxonomyWalker::new(TaxonomyFilter::shares_main_board());
    assert_eq!(walker.next_step(), WalkStep::FetchEngines);
    assert_eq!(walker.next_step(), WalkStep::FetchEngines);
    walker.on_engines(vec![engine(1, "stock")]);
    assert_eq!(walker.next_step(), WalkStep::PersistEngines(vec![engine(1, "stock")]));
    assert_eq!(walker.next_step(), WalkStep::FetchMarkets(engine(1, "stock")));
    assert_eq!(walker.next_step(), WalkStep::FetchMarkets(engine(1, "stock")));
}

#[test]
fn batch_that_was_not_asked_for_is_dropped() {
    let mut walker = TaxonomyWalker::new(TaxonomyFilter::shares_main_board());
    assert!(!walker.on_markets(vec![market("stock", 1, "shares")]));
    assert!(!walker.on_boards(vec![board("stock", "shares", 1, "TQBR", true)]));
    assert_eq!(walker.next_step(), WalkStep::FetchEngines);
    assert!(walker.on_engines(vec![engine(1, "stock")]));
    assert!(!walker.on_engines(vec![engine(2, "state")]));
    assert_eq!(walker.next_step(), WalkStep::PersistEngines(vec![engine(1, "stock")]));
}

#[test]
fn filter_matches_whole_paths() {
    let filter = TaxonomyFilter::single("stock", "shares", "TQBR");
    assert_eq!(filter.allowed, vec![selection("stock", "shares", "TQBR")]);
    assert_eq!(TaxonomyFilter::shares_main_board(), filter);
    assert!(filter.admits_engine(&engine(1, "stock")));
    assert!(!filter.admits_engine(&engine(1, "Stock")));
    assert!(!filter.admits_engine(&engine(1, "state")));
    assert!(filter.admits_market(&market("stock", 1, "shares")));
    assert!(!filter.admits_market(&market("state", 1, "shares")));
    assert!(!filter.admits_market(&market("stock", 1, "bonds")));
    assert!(filter.admits_board(&board("stock", "shares", 1, "TQBR", true)));
    assert!(!filter.admits_board(&board("stock", "shares", 1, "TQBR", false)));
    assert!(!filter.admits_board(&board("stock", "shares", 1, "EQBR", true)));
    assert!(!filter.admits_board(&board("stock", "bonds", 1, "TQBR", true)));
    assert!(!filter.admits_board(&board("state", "shares", 1, "TQBR", true)));
    let nothing = TaxonomyFilter { allowed: vec![] };
    assert!(!nothing.admits_engine(&engine(1, "stock")));
    assert!(!nothing.admits_board(&board("stock", "shares", 1, "TQBR", true)));
}

#[test]
fn selection_keeps_upstream_order() {
    let filter = TaxonomyFilter {
        allowed: vec![selection("b", "m", "x"), selection("a", "m", "x")],
    };
    let batch = vec![engine(1, "a"), engine(2, "c"), engine(3, "b"), engine(4, "a")];
    assert_eq!(
        filter.select_engines(&batch),
        vec![engine(1, "a"), engine(3, "b"), engine(4, "a")]
    );
    let batch = vec![market("a", 1, "m"), market("a", 2, "n"), market("b", 3, "m")];
    assert_eq!(filter.select_markets(&batch), vec![market("a", 1, "m"), market("b", 3, "m")]);
    let batch = vec![
        board("a", "m", 1, "x", false),
        board("b", "m", 2, "x", true),
        board("a", "m", 3, "y", true),
        board("a", "m", 4, "x", true),
    ];
    assert_eq!(
        filter.select_boards(&batch),
        vec![board("b", "m", 2, "x", true), board("a", "m", 4, "x", true)]
    );
}
