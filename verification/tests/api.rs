//! Envelope unwrapping, URL building and endpoint policy tests.

use bittrex::public::{
    currencies_url, market_history_url, market_summaries_url, market_summary_url, markets_url,
    one_sided_order_book, order_book_from_side, order_book_url, summary_from_wire, ticker_url,
};
use bittrex::types::{Decimal, MarketSummary, Order, OrderBook, Timestamp};
use bittrex::{ApiResult, Client, Error, OrderBookType};

fn summary(name: &str) -> MarketSummary {
    MarketSummary {
        market_name: String::from(name),
        high: Some(Decimal { mantissa: 14, scale: 3 }),
        low: Some(Decimal { mantissa: 12, scale: 3 }),
        last: Some(Decimal { mantissa: 13, scale: 3 }),
        bid: None,
        ask: None,
        volume: None,
        base_volume: None,
        time_stamp: Timestamp {
            year: 2014,
            month: 7,
            day: 9,
            hour: 7,
            minute: 19,
            second: 30,
            nanosecond: 0,
        },
        open_buy_orders: Some(45),
        open_sell_orders: Some(45),
        prev_day: None,
        created: Timestamp {
            year: 2014,
            month: 3,
            day: 20,
            hour: 6,
            minute: 0,
            second: 0,
            nanosecond: 0,
        },
        display_market_name: None,
    }
}

fn order(rate_mantissa: i64) -> Order {
    Order {
        quantity: Decimal { mantissa: 325, scale: 2 },
        rate: Decimal { mantissa: rate_mantissa, scale: 8 },
    }
}

/// A successful envelope with a result unwraps to the value.
#[test]
fn it_envelope_success() {
    let wire: ApiResult<u32> =
        ApiResult { success: true, message: String::new(), result: Some(17) };
    assert_eq!(wire.into_result(), Ok(17));
}

/// A successful envelope without a result is a protocol violation, not a
/// domain error.
#[test]
fn it_envelope_missing_result() {
    let wire: ApiResult<u32> = ApiResult { success: true, message: String::new(), result: None };
    assert_eq!(wire.into_result(), Err(Error::MissingResult));
}

/// A failed envelope carries the server's message verbatim.
#[test]
fn it_envelope_failure() {
    let wire: ApiResult<u32> = ApiResult {
        success: false,
        message: String::from("INVALID_MARKET"),
        result: Some(3),
    };
    assert_eq!(wire.into_result(), Err(Error::Api(String::from("INVALID_MARKET"))));
}

/// The public endpoint URLs, byte for byte.
#[test]
fn it_public_urls() {
    assert_eq!(markets_url(), "https://bittrex.com/api/v1.1//public/getmarkets");
    assert_eq!(currencies_url(), "https://bittrex.com/api/v1.1//public/getcurrencies");
    assert_eq!(
        ticker_url("BTC-LTC"),
        "https://bittrex.com/api/v1.1//public/getticker?market=BTC-LTC"
    );
    assert_eq!(market_summaries_url(), "https://bittrex.com/api/v1.1//public/getmarketsummaries");
    assert_eq!(
        market_summary_url("BTC-ETH"),
        "https://bittrex.com/api/v1.1//public/getmarketsummary?market=BTC-ETH"
    );
    assert_eq!(market_history_url("BTC-ETH"), market_summary_url("BTC-ETH"));
}

/// Depth 0 and 50 are accepted (the bound is inclusive); anything above
/// is rejected before a request could be made.
#[test]
fn it_order_book_depth_bounds() {
    assert!(order_book_url("BTC-LTC", OrderBookType::Buy, 0).is_ok());
    assert!(order_book_url("BTC-ZEC", OrderBookType::Both, 50).is_ok());
    assert_eq!(
        order_book_url("BTC-LTC", OrderBookType::Both, 51),
        Err(Error::DepthOutOfRange(51))
    );
    assert_eq!(
        order_book_url("BTC-LTC", OrderBookType::Both, 100),
        Err(Error::DepthOutOfRange(100))
    );
}

/// The order-book URL, byte for byte.
#[test]
fn it_order_book_url() {
    assert_eq!(
        order_book_url("BTC-LTC", OrderBookType::Buy, 20).unwrap(),
        "https://bittrex.com/api/v1.1//public/getorderbook?market=BTC-LTC&type=buy&depth=20"
    );
    assert_eq!(
        order_book_url("BTC-ETH", OrderBookType::Sell, 0).unwrap(),
        "https://bittrex.com/api/v1.1//public/getorderbook?market=BTC-ETH&type=sell&depth=0"
    );
    assert_eq!(
        order_book_url("BTC-ZEC", OrderBookType::Both, 50).unwrap(),
        "https://bittrex.com/api/v1.1//public/getorderbook?market=BTC-ZEC&type=both&depth=50"
    );
}

/// The wire vocabulary of the order-book side selector.
#[test]
fn it_order_book_type_strings() {
    assert_eq!(OrderBookType::Buy.as_str(), "buy");
    assert_eq!(OrderBookType::Sell.as_str(), "sell");
    assert_eq!(OrderBookType::Both.as_str(), "both");
}

/// Requesting one side fills that side with the decoded orders and leaves
/// the other empty.
#[test]
fn it_order_book_side_selection() {
    let orders = vec![order(1200), order(1250), order(1300)];
    let book = order_book_from_side(OrderBookType::Buy, orders.clone());
    assert_eq!(book.buy(), &orders);
    assert!(book.sell().is_empty());

    let book = order_book_from_side(OrderBookType::Sell, orders.clone());
    assert_eq!(book.sell(), &orders);
    assert!(book.buy().is_empty());
}

/// A one-sided response goes through the envelope and the side selection;
/// a two-sided one passes through the envelope unmodified.
#[test]
fn it_order_book_from_wire() {
    let orders = vec![order(900), order(910)];
    let wire = ApiResult { success: true, message: String::new(), result: Some(orders.clone()) };
    let book = one_sided_order_book(OrderBookType::Buy, wire).unwrap();
    assert_eq!(book.buy(), &orders);
    assert!(book.sell().is_empty());

    let failed: ApiResult<Vec<Order>> = ApiResult {
        success: false,
        message: String::from("INVALID_MARKET"),
        result: None,
    };
    assert_eq!(
        one_sided_order_book(OrderBookType::Sell, failed),
        Err(Error::Api(String::from("INVALID_MARKET")))
    );

    let two_sided = OrderBook::new(vec![order(900)], vec![order(910)]);
    let wire = ApiResult { success: true, message: String::new(), result: Some(two_sided.clone()) };
    assert_eq!(wire.into_result(), Ok(two_sided));
}

/// A successful summary response with an empty list breaks the one-market
/// contract; one with entries yields the first.
#[test]
fn it_market_summary_extraction() {
    let empty: ApiResult<Vec<MarketSummary>> =
        ApiResult { success: true, message: String::new(), result: Some(Vec::new()) };
    assert_eq!(summary_from_wire(empty), Err(Error::MissingSummary));

    let one = summary("BTC-LTC");
    let wire = ApiResult {
        success: true,
        message: String::new(),
        result: Some(vec![one.clone(), summary("BTC-ETH")]),
    };
    assert_eq!(summary_from_wire(wire), Ok(one));

    let missing: ApiResult<Vec<MarketSummary>> =
        ApiResult { success: true, message: String::new(), result: None };
    assert_eq!(summary_from_wire(missing), Err(Error::MissingResult));
}

/// Private calls before login yield the precondition error, never a
/// request.
#[test]
fn it_private_call_guard() {
    let client = Client::new();
    assert!(matches!(client.balances_request(1500000000), Err(Error::NotLoggedIn)));
    assert!(matches!(client.balances_request_now(), Err(Error::NotLoggedIn)));

    let client = Client::default();
    assert!(matches!(client.balances_request_now(), Err(Error::NotLoggedIn)));
}

/// A signed balances request: the canonical URL appends `apikey` then
/// `nonce`, and the header signs exactly that URL.
#[test]
fn it_balances_request() {
    let mut client = Client::new();
    client.login(String::from("my-api-key"), String::from("my-api-secret"));
    let req = client.balances_request(1500000000).unwrap();
    assert_eq!(
        req.url,
        "https://bittrex.com/api/v1.1//account/getbalances?apikey=my-api-key&nonce=1500000000"
    );
    assert_eq!(client.hash_uri(&req.url).unwrap(), req.apisign);

    let now = client.balances_request_now().unwrap();
    assert!(now.url.starts_with(
        "https://bittrex.com/api/v1.1//account/getbalances?apikey=my-api-key&nonce="
    ));
    assert_eq!(client.hash_uri(&now.url).unwrap(), now.apisign);
}

/// Decimal rendering of the integers that go into query strings.
#[test]
fn it_u64_rendering() {
    assert_eq!(bittrex::u64_to_string(0), "0");
    assert_eq!(bittrex::u64_to_string(7), "7");
    assert_eq!(bittrex::u64_to_string(50), "50");
    assert_eq!(bittrex::u64_to_string(1500000000), "1500000000");
    assert_eq!(bittrex::u64_to_string(u64::MAX), "18446744073709551615");
}
