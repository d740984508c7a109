use anselm_scribe::datetime::{moscow_timestamp, moscow_to_utc, to_iso_form, CalendarDate};
use anselm_scribe::decode::{
    boards_from_body, decode_engines, engines_from_body, markets_from_body, trades_from_body,
};
use anselm_scribe::error::DecodeError;
use anselm_scribe::models::{Board, Engine, Market, Trade};
use anselm_scribe::table::{read_body, Cell};

fn number(n: i64) -> Cell {
    Cell::Number { integer: Some(n), real_bits: (n as f64).to_bits() }
}

fn text(s: &str) -> Cell {
    Cell::Text(s.to_string())
}

#[test]
fn body_is_read_as_rows_of_cells() {
    let body = r#"{"engines": {"columns": ["id", "name"], "data": [[1, "stock", null], [2.5, true, [3]]]}}"#;
    let rows = read_body(body, "engines").unwrap();
    assert_eq!(rows.len(), 2);
    assert_eq!(rows[0], vec![number(1), text("stock"), Cell::Other]);
    assert_eq!(
        rows[1],
        vec![Cell::Number { integer: None, real_bits: 2.5f64.to_bits() }, Cell::Other, Cell::Other]
    );
}

#[test]
fn integer_beyond_i64_is_a_number_without_integer() {
    let body = r#"{"t": {"data": [[18446744073709551615]]}}"#;
    let rows = read_body(body, "t").unwrap();
    assert_eq!(
        rows[0],
        vec![Cell::Number { integer: None, real_bits: 18446744073709551615f64.to_bits() }]
    );
}

#[test]
fn body_that_is_not_json_is_a_syntax_error() {
    assert_eq!(read_body("{\"engines\": ", "engines"), Err(DecodeError::Syntax));
    assert_eq!(engines_from_body("<html>"), Err(DecodeError::Syntax));
}

#[test]
fn missing_resource_or_data_is_a_missing_table() {
    assert_eq!(read_body(r#"{"markets": {"data": []}}"#, "engines"), Err(DecodeError::MissingTable));
    assert_eq!(read_body(r#"{"engines": {"rows": []}}"#, "engines"), Err(DecodeError::MissingTable));
    assert_eq!(read_body(r#"{"engines": {"data": {}}}"#, "engines"), Err(DecodeError::MissingTable));
    assert_eq!(read_body(r#"[1, 2]"#, "engines"), Err(DecodeError::MissingTable));
}

#[test]
fn first_row_that_is_no_array_is_reported() {
    let body = r#"{"engines": {"data": [[1, "a", "b"], 7, "x"]}}"#;
    assert_eq!(read_body(body, "engines"), Err(DecodeError::RowNotArray { row: 1 }));
}

#[test]
fn engines_are_decoded_by_position() {
    let body = r#"{"engines": {"data": [[1, "stock", "Фондовый рынок"], [2, "state", "Рынок ГЦБ"]]}}"#;
    let engines = engines_from_body(body).unwrap();
    assert_eq!(
        engines,
        vec![
            Engine { id: 1, name: "stock".to_string(), title: "Фондовый рынок".to_string() },
            Engine { id: 2, name: "state".to_string(), title: "Рынок ГЦБ".to_string() },
        ]
    );
}

#[test]
fn empty_table_decodes_to_no_records() {
    assert_eq!(engines_from_body(r#"{"engines": {"data": []}}"#), Ok(vec![]));
    assert_eq!(trades_from_body("stock", "shares", r#"{"trades": {"data": []}}"#), Ok(vec![]));
}

#[test]
fn markets_carry_the_engine_they_were_asked_for() {
    let body = r#"{"markets": {"data": [[5, "index", "Индексы"], [1, "shares", "Рынок акций"]]}}"#;
    let markets = markets_from_body("stock", body).unwrap();
    assert_eq!(
        markets,
        vec![
            Market { engine: "stock".to_string(), id: 5, name: "index".to_string(), title: "Индексы".to_string() },
            Market { engine: "stock".to_string(), id: 1, name: "shares".to_string(), title: "Рынок акций".to_string() },
        ]
    );
}

#[test]
fn boards_read_the_traded_flag_from_an_integer() {
    let body = r#"{"boards": {"data": [[129, 57, "TQBR", "Т+: Акции и ДР", 1], [3, 9, "EQBR", "Основной режим", 0], [4, 9, "ZZZZ", "x", -5]]}}"#;
    let boards = boards_from_body("stock", "shares", body).unwrap();
    assert_eq!(boards.len(), 3);
    assert_eq!(
        boards[0],
        Board {
            engine: "stock".to_string(),
            market: "shares".to_string(),
            id: 129,
            board_group_id: 57,
            boardid: "TQBR".to_string(),
            title: "Т+: Акции и ДР".to_string(),
            is_traded: true,
        }
    );
    assert!(!boards[1].is_traded);
    assert!(boards[2].is_traded);
}

const TRADE_ROW: &str = r#"[9876543210, "10:00:00", "TQBR", "SBER", 285.5, 30, 8565.0, "N", 1000, "2024-03-07 10:00:00", "B"]"#;

#[test]
fn trades_are_decoded_by_position() {
    let body = format!(r#"{{"trades": {{"data": [{}]}}}}"#, TRADE_ROW);
    let trades = trades_from_body("stock", "shares", &body).unwrap();
    assert_eq!(
        trades,
        vec![Trade {
            engine: "stock".to_string(),
            market: "shares".to_string(),
            secid: "SBER".to_string(),
            boardid: "TQBR".to_string(),
            tradeid: 9876543210,
            buysell: "B".to_string(),
            quantity: 30,
            price_bits: 285.5f64.to_bits(),
            tradetime: 1709794800,
            systime: 1709794800,
        }]
    );
}

#[test]
fn integer_price_reads_as_a_double() {
    let body = r#"{"trades": {"data": [[1, "", "TQBR", "GAZP", 160, 10, 1600, "N", 0, "2024-03-07 23:59:59", "S"]]}}"#;
    let trades = trades_from_body("stock", "shares", body).unwrap();
    assert_eq!(trades[0].price_bits, 160.0f64.to_bits());
    assert_eq!(f64::from_bits(trades[0].price_bits) * trades[0].quantity as f64, 1600.0);
    assert_eq!(trades[0].systime, 1709794800 + 13 * 3600 + 59 * 60 + 59);
}

#[test]
fn short_row_is_a_missing_column() {
    let body = r#"{"engines": {"data": [[1, "stock", "t"], [2, "state"]]}}"#;
    assert_eq!(engines_from_body(body), Err(DecodeError::MissingColumn { row: 1, column: 2 }));
    let body = r#"{"trades": {"data": [[1, "", "TQBR", "GAZP", 160, 10, 1600, "N", 0, "2024-03-07 23:59:59"]]}}"#;
    assert_eq!(
        trades_from_body("stock", "shares", body),
        Err(DecodeError::MissingColumn { row: 0, column: 10 })
    );
}

#[test]
fn cell_of_the_wrong_kind_is_a_wrong_type() {
    let body = r#"{"engines": {"data": [["1", "stock", "t"]]}}"#;
    assert_eq!(engines_from_body(body), Err(DecodeError::WrongType { row: 0, column: 0 }));
    let body = r#"{"engines": {"data": [[1, "stock", "t"], [2, null, "t"]]}}"#;
    assert_eq!(engines_from_body(body), Err(DecodeError::WrongType { row: 1, column: 1 }));
    let body = r#"{"engines": {"data": [[1.5, "stock", "t"]]}}"#;
    assert_eq!(engines_from_body(body), Err(DecodeError::WrongType { row: 0, column: 0 }));
    let body = r#"{"trades": {"data": [[1, "", "TQBR", "GAZP", "160", 10, 1600, "N", 0, "2024-03-07 23:59:59", "S"]]}}"#;
    assert_eq!(
        trades_from_body("stock", "shares", body),
        Err(DecodeError::WrongType { row: 0, column: 4 })
    );
}

#[test]
fn identifier_beyond_32_bits_is_out_of_range() {
    let body = r#"{"engines": {"data": [[2147483648, "stock", "t"]]}}"#;
    assert_eq!(engines_from_body(body), Err(DecodeError::OutOfRange { row: 0, column: 0 }));
    let body = r#"{"engines": {"data": [[-2147483648, "stock", "t"]]}}"#;
    assert_eq!(engines_from_body(body).unwrap()[0].id, i32::MIN);
    let body = r#"{"boards": {"data": [[1, -2147483649, "TQBR", "t", 1]]}}"#;
    assert_eq!(
        boards_from_body("stock", "shares", body),
        Err(DecodeError::OutOfRange { row: 0, column: 1 })
    );
}

#[test]
fn unreadable_time_is_a_bad_timestamp() {
    let body = r#"{"trades": {"data": [[1, "", "TQBR", "GAZP", 160, 10, 1600, "N", 0, "yesterday", "S"]]}}"#;
    assert_eq!(
        trades_from_body("stock", "shares", body),
        Err(DecodeError::BadTimestamp { row: 0, column: 9 })
    );
}

#[test]
fn lowest_faulty_column_of_first_faulty_row_wins() {
    let rows = vec![
        vec![number(1), text("stock"), text("t")],
        vec![text("x"), number(2)],
        vec![],
    ];
    assert_eq!(decode_engines(&rows), Err(DecodeError::WrongType { row: 1, column: 0 }));
    let cells = vec![number(1), Cell::Other];
    assert_eq!(Engine::from_row(&cells, 4), Err(DecodeError::WrongType { row: 4, column: 1 }));
}

#[test]
fn row_decoders_build_the_record() {
    let cells = vec![number(7), text("shares"), text("Shares")];
    assert_eq!(
        Market::from_row("stock", &cells, 0),
        Ok(Market { engine: "stock".to_string(), id: 7, name: "shares".to_string(), title: "Shares".to_string() })
    );
    let cells = vec![number(1), number(2), text("TQBR"), text("T+"), number(0)];
    assert_eq!(Board::from_row("stock", "shares", &cells, 0).unwrap().is_traded, false);
}

#[test]
fn timestamps_are_moscow_time() {
    assert_eq!(to_iso_form("2024-03-07 10:00:00"), "2024-03-07T10:00:00");
    assert_eq!(to_iso_form("a b c"), "aTbTc");
    assert_eq!(to_iso_form(""), "");
    assert_eq!(moscow_timestamp("2024-03-07 10:00:00"), Some(1709794800));
    assert_eq!(moscow_timestamp("1970-01-01 03:00:00"), Some(0));
    assert_eq!(moscow_timestamp("1970-01-01T00:00:00"), Some(-10800));
    assert_eq!(moscow_timestamp("2024-03-07"), None);
    assert_eq!(moscow_timestamp("2024-13-07 10:00:00"), None);
    assert_eq!(moscow_timestamp(""), None);
}

#[test]
fn moscow_offset_is_three_hours() {
    assert_eq!(moscow_to_utc(10800), Some(0));
    assert_eq!(moscow_to_utc(0), Some(-10800));
    assert_eq!(moscow_to_utc(i64::MIN + 10799), None);
    assert_eq!(moscow_to_utc(i64::MIN + 10800), Some(i64::MIN));
}

#[test]
fn calendar_dates_and_day_numbers() {
    let date = CalendarDate { year: 2024, month: 3, day: 10 };
    assert_eq!(date.day_number(), Some(2460380));
    assert_eq!(CalendarDate::from_day_number(2460380), Some(date));
    assert_eq!(CalendarDate::from_day_number(2451545), Some(CalendarDate { year: 2000, month: 1, day: 1 }));
    assert_eq!(CalendarDate { year: 2023, month: 2, day: 29 }.day_number(), None);
    assert_eq!(CalendarDate { year: 2024, month: 2, day: 29 }.day_number(), Some(2460370));
    assert_eq!(CalendarDate { year: 2024, month: 13, day: 1 }.day_number(), None);
    assert_eq!(CalendarDate { year: 2024, month: 0, day: 1 }.day_number(), None);
    assert_eq!(CalendarDate::from_day_number(i32::MAX), None);
}
