//! Hierarchical pagination and incremental ingestion of market data.
//!
//! The crate holds the decisions of a collector that walks a venue taxonomy
//! (engines, their markets, the boards of a market) served as paginated JSON,
//! and writes reference entities and trades to a sink. Network and storage
//! traffic is left to the caller: every function here works on plain values.
//!
//! - [`walker`] and [`taxonomy`]: what to fetch, persist and stream, in which
//!   order, under an allow-list.
//! - [`stream`]: the cursor protocol of a board's pages of trades.
//! - [`window`]: day-by-day fetches with the empty-day cut-off.
//! - [`sync`]: bulk insert or check-then-insert of reference entities.
//! - [`batch`]: writes in chunks of a fixed size.
//! - [`request`], [`table`], [`decode`]: where a resource is asked for, and
//!   how its positional rows become typed records.
//! - [`json`] and [`datetime`]: what is taken from `serde_json` and `time`.

pub mod batch;
pub mod config;
pub mod datetime;
pub mod decode;
pub mod error;
pub mod json;
pub mod models;
pub mod request;
pub mod stream;
pub mod sync;
pub mod table;
pub mod taxonomy;
pub mod text;
pub mod walker;
pub mod window;
