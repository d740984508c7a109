//! Where each resource is asked for, and where a page goes in the file sink.
//!
//! The service answers under one root; a page of trades is asked for with
//! the query parameter `start` set to the cursor. Names are put into the
//! address as they are.

use crate::models::Board;
use crate::text::{decimal, decimal_text};
use vstd::prelude::*;
use vstd::string::StringExecFns;

verus! {

/// One page of a resource: a GET on `url` with the query `start=<start>`.
#[derive(Debug, PartialEq, Eq)]
pub struct PageRequest {
    pub url: String,
    pub start: i32,
}

/// The address of the engines list.
pub open spec fn engines_address() -> Seq<char> {
    "https://iss.moex.com/iss/engines.json"@
}

/// The address of the markets of an engine.
pub open spec fn markets_address(engine: Seq<char>) -> Seq<char> {
    "https://iss.moex.com/iss/engines/"@ + engine + "/markets.json"@
}

/// The address of the boards of a market.
pub open spec fn boards_address(engine: Seq<char>, market: Seq<char>) -> Seq<char> {
    "https://iss.moex.com/iss/engines/"@ + engine + "/markets/"@ + market + "/boards.json"@
}

/// The address of the trades of a board.
pub open spec fn trades_address(engine: Seq<char>, market: Seq<char>, boardid: Seq<char>) -> Seq<
    char,
> {
    "https://iss.moex.com/iss/engines/"@ + engine + "/markets/"@ + market + "/boards/"@ + boardid
        + "/trades.json"@
}

/// The file of page number `page` of a board's trades under `root`:
/// `<root>/<engine>-<market>-<boardid>-<page>.json`.
pub open spec fn trades_file(
    root: Seq<char>,
    engine: Seq<char>,
    market: Seq<char>,
    boardid: Seq<char>,
    page: nat,
) -> Seq<char> {
    root + "/"@ + engine + "-"@ + market + "-"@ + boardid + "-"@ + decimal_text(page) + ".json"@
}

/// The address of the engines list.
pub fn engines_url() -> (url: String)
    ensures
        url@ == engines_address(),
{
    String::from_str("https://iss.moex.com/iss/engines.json")
}

/// The address of the markets of `engine`.
pub fn markets_url(engine: &str) -> (url: String)
    ensures
        url@ == markets_address(engine@),
{
    let mut url: String = String::from_str("https://iss.moex.com/iss/engines/");
    url.append(engine);
    url.append("/markets.json");
    url
}

/// The address of the boards of `market` of `engine`.
pub fn boards_url(engine: &str, market: &str) -> (url: String)
    ensures
        url@ == boards_address(engine@, market@),
{
    let mut url: String = String::from_str("https://iss.moex.com/iss/engines/");
    url.append(engine);
    url.append("/markets/");
    url.append(market);
    url.append("/boards.json");
    url
}

impl Board {
    /// The request for the page of this board's trades that starts at the
    /// cursor `start`, under the given engine and market.
    pub fn trades_request(&self, engine: &String, market: &String, start: i32) -> (request:
        PageRequest)
        ensures
            request.url@ == trades_address(engine@, market@, self.boardid@),
            request.start == start,
    {
        let mut url: String = String::from_str("https://iss.moex.com/iss/engines/");
        url.append(engine.as_str());
        url.append("/markets/");
        url.append(market.as_str());
        url.append("/boards/");
        url.append(self.boardid.as_str());
        url.append("/trades.json");
        PageRequest { url, start }
    }

    /// The file that holds page number `page` of this board's trades in the
    /// file sink rooted at `root`.
    pub fn trades_file_path(&self, root: &str, page: u64) -> (path: String)
        ensures
            path@ == trades_file(root@, self.engine@, self.market@, self.boardid@, page as nat),
    {
        let number: String = decimal(page);
        let mut path: String = String::from_str(root);
        path.append("/");
        path.append(self.engine.as_str());
        path.append("-");
        path.append(self.market.as_str());
        path.append("-");
        path.append(self.boardid.as_str());
        path.append("-");
        path.append(number.as_str());
        path.append(".json");
        path
    }
}

} // verus!
