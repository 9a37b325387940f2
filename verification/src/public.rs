//! Public API endpoints: canonical URLs and the shaping of their
//! responses.
//!
//! Each endpoint's URL is the fixed API base joined with a fixed path;
//! only the query parameters vary per call. The functions here build those
//! URLs exactly and turn decoded wire envelopes into typed results; the
//! HTTP exchange itself is the transport collaborator's job.

use vstd::prelude::*;
use vstd::string::StringExecFns;

use crate::encode::{dec_str, u64_to_string};
use crate::error::Error;
use crate::types::{MarketSummary, Order, OrderBook};
use crate::ApiResult;

verus! {

/// The fixed, versioned API root.
pub open spec fn spec_api_url() -> Seq<char> {
    "https://bittrex.com/api/v1.1/"@
}

/// The fixed API root as a string.
pub fn api_url() -> (r: &'static str)
    ensures
        r@ == spec_api_url(),
{
    "https://bittrex.com/api/v1.1/"
}

/// The URL of the market-list endpoint.
pub open spec fn spec_markets_url() -> Seq<char> {
    spec_api_url() + "/public/getmarkets"@
}

/// Builds the URL for the market-list endpoint.
pub fn markets_url() -> (r: String)
    ensures
        r@ == spec_markets_url(),
{
    let mut url = api_url().to_owned();
    url.append("/public/getmarkets");
    url
}

/// The URL of the currency-list endpoint.
pub open spec fn spec_currencies_url() -> Seq<char> {
    spec_api_url() + "/public/getcurrencies"@
}

/// Builds the URL for the currency-list endpoint.
pub fn currencies_url() -> (r: String)
    ensures
        r@ == spec_currencies_url(),
{
    let mut url = api_url().to_owned();
    url.append("/public/getcurrencies");
    url
}

/// The URL of the ticker endpoint for one market.
pub open spec fn spec_ticker_url(market: Seq<char>) -> Seq<char> {
    spec_api_url() + "/public/getticker"@ + "?market="@ + market
}

/// Builds the URL for the ticker endpoint of the given market.
pub fn ticker_url(market: &str) -> (r: String)
    ensures
        r@ == spec_ticker_url(market@),
{
    let mut url = api_url().to_owned();
    url.append("/public/getticker");
    url.append("?market=");
    url.append(market);
    url
}

/// The URL of the all-market-summaries endpoint.
pub open spec fn spec_market_summaries_url() -> Seq<char> {
    spec_api_url() + "/public/getmarketsummaries"@
}

/// Builds the URL for the all-market-summaries endpoint.
pub fn market_summaries_url() -> (r: String)
    ensures
        r@ == spec_market_summaries_url(),
{
    let mut url = api_url().to_owned();
    url.append("/public/getmarketsummaries");
    url
}

/// The URL of the single-market-summary endpoint.
pub open spec fn spec_market_summary_url(market: Seq<char>) -> Seq<char> {
    spec_api_url() + "/public/getmarketsummary"@ + "?market="@ + market
}

/// Builds the URL for the summary endpoint of the given market.
pub fn market_summary_url(market: &str) -> (r: String)
    ensures
        r@ == spec_market_summary_url(market@),
{
    let mut url = api_url().to_owned();
    url.append("/public/getmarketsummary");
    url.append("?market=");
    url.append(market);
    url
}

/// Builds the URL for the market-history call; the wire endpoint is the
/// single-market-summary one.
pub fn market_history_url(market: &str) -> (r: String)
    ensures
        r@ == spec_market_summary_url(market@),
{
    market_summary_url(market)
}

/// Enumeration representing the type of an order.
#[derive(Debug, Clone, Copy, PartialEq, Eq, Structural)]
pub enum OrderBookType {
    /// Buying order.
    Buy,
    /// Selling order.
    Sell,
    /// Both, buying and selling orders.
    Both,
}

impl OrderBookType {
    /// The wire vocabulary for the order-book `type` parameter.
    pub open spec fn spec_str(self) -> Seq<char> {
        match self {
            OrderBookType::Buy => "buy"@,
            OrderBookType::Sell => "sell"@,
            OrderBookType::Both => "both"@,
        }
    }

    /// Gets a string representation of the order book type.
    pub fn as_str(&self) -> (r: &'static str)
        ensures
            r@ == self.spec_str(),
    {
        match self {
            OrderBookType::Buy => "buy",
            OrderBookType::Sell => "sell",
            OrderBookType::Both => "both",
        }
    }
}

/// The largest depth the order-book endpoint accepts.
pub const MAX_ORDER_BOOK_DEPTH: u8 = 50;

/// The URL of the order-book endpoint for one market, side and depth.
pub open spec fn spec_order_book_url(market: Seq<char>, order_type: OrderBookType, depth: nat) -> Seq<char> {
    spec_api_url() + "/public/getorderbook"@ + "?market="@ + market + "&type="@
        + order_type.spec_str() + "&depth="@ + dec_str(depth)
}

/// Builds the URL for the order-book endpoint.
///
/// The depth must lie in `[0, 50]`; a larger one is rejected before any
/// request could be made.
pub fn order_book_url(market: &str, order_type: OrderBookType, depth: u8) -> (r: Result<
    String,
    Error,
>)
    ensures
        depth <= MAX_ORDER_BOOK_DEPTH ==> (r matches Ok(url) && url@ == spec_order_book_url(
            market@,
            order_type,
            depth as nat,
        )),
        depth > MAX_ORDER_BOOK_DEPTH ==> r == Err::<String, Error>(Error::DepthOutOfRange(depth)),
{
    if depth > MAX_ORDER_BOOK_DEPTH {
        return Err(Error::DepthOutOfRange(depth));
    }
    let mut url = api_url().to_owned();
    url.append("/public/getorderbook");
    url.append("?market=");
    url.append(market);
    url.append("&type=");
    url.append(order_type.as_str());
    url.append("&depth=");
    let depth_str = u64_to_string(depth as u64);
    url.append(depth_str.as_str());
    Ok(url)
}

/// Extracts the one requested summary from the list the wire endpoint
/// returns.
///
/// The endpoint historically answered batch queries, so its result is a
/// list; a successful envelope with an empty list breaks the one-market
/// contract and is reported as its own error.
pub fn first_summary(list: Vec<MarketSummary>) -> (r: Result<MarketSummary, Error>)
    ensures
        list@.len() == 0 ==> r == Err::<MarketSummary, Error>(Error::MissingSummary),
        list@.len() > 0 ==> r == Ok::<MarketSummary, Error>(list@[0]),
{
    let mut list = list;
    if list.len() == 0 {
        Err(Error::MissingSummary)
    } else {
        Ok(list.remove(0))
    }
}

/// Unwraps a single-market-summary response: the envelope, then the one
/// summary the list owes.
pub fn summary_from_wire(wire: ApiResult<Vec<MarketSummary>>) -> (r: Result<MarketSummary, Error>)
    ensures
        !wire.success ==> r == Err::<MarketSummary, Error>(Error::Api(wire.message)),
        wire.success && wire.result is None ==> r == Err::<MarketSummary, Error>(
            Error::MissingResult,
        ),
        wire.success && wire.result is Some && wire.result->0@.len() == 0 ==> r == Err::<
            MarketSummary,
            Error,
        >(Error::MissingSummary),
        wire.success && wire.result is Some && wire.result->0@.len() > 0 ==> r == Ok::<
            MarketSummary,
            Error,
        >(wire.result->0@[0]),
{
    match wire.into_result() {
        Ok(list) => first_summary(list),
        Err(e) => Err(e),
    }
}

/// Builds the order book for a one-sided request: the requested side holds
/// the decoded orders, the other is left empty.
pub fn order_book_from_side(order_type: OrderBookType, orders: Vec<Order>) -> (r: OrderBook)
    requires
        order_type is Buy || order_type is Sell,
    ensures
        order_type is Buy ==> r.spec_buy() == orders@ && r.spec_sell() == Seq::<Order>::empty(),
        order_type is Sell ==> r.spec_sell() == orders@ && r.spec_buy() == Seq::<Order>::empty(),
{
    match order_type {
        OrderBookType::Buy => OrderBook::new(orders, Vec::new()),
        _ => OrderBook::new(Vec::new(), orders),
    }
}

/// Unwraps a one-sided order-book response: the envelope, then the side
/// selection.
pub fn one_sided_order_book(order_type: OrderBookType, wire: ApiResult<Vec<Order>>) -> (r: Result<
    OrderBook,
    Error,
>)
    requires
        order_type is Buy || order_type is Sell,
    ensures
        !wire.success ==> r == Err::<OrderBook, Error>(Error::Api(wire.message)),
        wire.success && wire.result is None ==> r == Err::<OrderBook, Error>(Error::MissingResult),
        wire.success && wire.result is Some ==> (r matches Ok(book) && {
            &&& order_type is Buy ==> book.spec_buy() == wire.result->0@ && book.spec_sell()
                == Seq::<Order>::empty()
            &&& order_type is Sell ==> book.spec_sell() == wire.result->0@ && book.spec_buy()
                == Seq::<Order>::empty()
        }),
{
    match wire.into_result() {
        Ok(orders) => Ok(order_book_from_side(order_type, orders)),
        Err(e) => Err(e),
    }
}

} // verus!
