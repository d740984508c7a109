use anselm_scribe::config::Config;
use anselm_scribe::models::{Board, Engine, Market, Trade};
use anselm_scribe::request::{boards_url, engines_url, markets_url, PageRequest};
use anselm_scribe::text::decimal;

fn tqbr() -> Board {
    Board {
        engine: "stock".to_string(),
        market: "shares".to_string(),
        id: 129,
        board_group_id: 57,
        boardid: "TQBR".to_string(),
        title: "T+".to_string(),
        is_traded: true,
    }
}

#[test]
fn taxonomy_addresses() {
    assert_eq!(engines_url(), "https://iss.moex.com/iss/engines.json");
    assert_eq!(markets_url("stock"), "https://iss.moex.com/iss/engines/stock/markets.json");
    assert_eq!(
        boards_url("stock", "shares"),
        "https://iss.moex.com/iss/engines/stock/markets/shares/boards.json"
    );
}

#[test]
fn trades_are_asked_for_at_the_cursor() {
    let request = tqbr().trades_request(&"stock".to_string(), &"shares".to_string(), 5000);
    assert_eq!(
        request,
        PageRequest {
            url: "https://iss.moex.com/iss/engines/stock/markets/shares/boards/TQBR/trades.json"
                .to_string(),
            start: 5000,
        }
    );
}

#[test]
fn file_of_a_page_is_named_by_board_and_page() {
    assert_eq!(tqbr().trades_file_path("./", 1), ".//stock-shares-TQBR-1.json");
    assert_eq!(tqbr().trades_file_path("/var/md", 120), "/var/md/stock-shares-TQBR-120.json");
}

#[test]
fn numbers_in_decimal() {
    assert_eq!(decimal(0), "0");
    assert_eq!(decimal(7), "7");
    assert_eq!(decimal(10), "10");
    assert_eq!(decimal(1234567890), "1234567890");
    assert_eq!(decimal(u64::MAX), "18446744073709551615");
    for n in 0..2000u64 {
        assert_eq!(decimal(n), n.to_string());
    }
}

#[test]
fn settings_without_configuration() {
    let config = Config::default();
    assert_eq!(config.md_day_threshold, 14);
    assert!(!config.md_reverse);
    assert!(!config.md_disk);
    assert_eq!(config.md_path, "./");
    assert_eq!(config.ch_url, "http://localhost:8123");
    assert_eq!(config.ch_user, "default");
    assert_eq!(config.ch_password, "");
    assert_eq!(config.ch_db, "md_moex");
    assert_eq!(config.threads, 1);
    assert_eq!(config.chunks, 1000);
}

#[test]
fn natural_keys() {
    let engine = Engine { id: 1, name: "stock".to_string(), title: "t".to_string() };
    assert_eq!(engine.natural_key(), vec!["stock".to_string()]);
    let market = Market { engine: "stock".to_string(), id: 1, name: "shares".to_string(), title: "t".to_string() };
    assert_eq!(market.natural_key(), vec!["stock".to_string(), "shares".to_string()]);
    assert_eq!(
        tqbr().natural_key(),
        vec!["stock".to_string(), "shares".to_string(), "TQBR".to_string()]
    );
}

#[test]
fn copies_are_equal() {
    let board = tqbr();
    assert_eq!(board.clone(), board);
    let trade = Trade {
        engine: "stock".to_string(),
        market: "shares".to_string(),
        secid: "SBER".to_string(),
        boardid: "TQBR".to_string(),
        tradeid: 1,
        buysell: "B".to_string(),
        quantity: 10,
        price_bits: 285.5f64.to_bits(),
        tradetime: 1709794800,
        systime: 1709794800,
    };
    assert_eq!(trade.clone(), trade);
}
