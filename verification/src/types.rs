//! Typed records for the API's responses.
//!
//! These are immutable value objects populated from the decoded wire
//! fields; they carry no business logic. Quantities the exchange quotes as
//! decimal numbers are held exactly as [`Decimal`]; timestamps as the
//! calendar components of [`Timestamp`].

use vstd::prelude::*;

verus! {

/// A decimal number as the exchange quotes it: `mantissa / 10^scale`.
///
/// Prices, trade sizes and balances are carried through unread, so the
/// exact pair of integers stands for the quoted value.
#[derive(Debug, Clone, Copy, PartialEq, Eq, Structural)]
pub struct Decimal {
    /// All digits of the number, sign included.
    pub mantissa: i64,
    /// How many of the mantissa's trailing digits lie behind the point.
    pub scale: u32,
}

/// Whether a year has a 29th of February.
pub open spec fn is_leap_year(year: nat) -> bool {
    year % 4 == 0 && (year % 100 != 0 || year % 400 == 0)
}

/// How many days the given month of the given year has.
pub open spec fn days_in_month(year: nat, month: nat) -> nat
    recommends
        1 <= month <= 12,
{
    if month == 2 {
        if is_leap_year(year) {
            29
        } else {
            28
        }
    } else if month == 4 || month == 6 || month == 9 || month == 11 {
        30
    } else {
        31
    }
}

/// A calendar timestamp as exchange responses carry it, to nanosecond
/// precision.
#[derive(Debug, Clone, Copy, PartialEq, Eq, Structural)]
pub struct Timestamp {
    /// Calendar year.
    pub year: u16,
    /// Month of the year, from 1.
    pub month: u8,
    /// Day of the month, from 1.
    pub day: u8,
    /// Hour of the day.
    pub hour: u8,
    /// Minute of the hour.
    pub minute: u8,
    /// Second of the minute.
    pub second: u8,
    /// Nanoseconds within the second.
    pub nanosecond: u32,
}

impl Timestamp {
    /// The components name a real calendar date and time of day.
    pub open spec fn well_formed(&self) -> bool {
        &&& 1 <= self.month <= 12
        &&& 1 <= self.day <= days_in_month(self.year as nat, self.month as nat)
        &&& self.hour < 24
        &&& self.minute < 60
        &&& self.second < 60
        &&& self.nanosecond < 1_000_000_000
    }
}

/// Market information structure.
#[derive(Debug, Clone, PartialEq)]
pub struct MarketInfo {
    /// Currency of the market.
    pub market_currency: String,
    /// Base currency of the market.
    pub base_currency: String,
    /// Long name of the currency of the market.
    pub market_currency_long: String,
    /// Long name of the base currency of the market.
    pub base_currency_long: String,
    /// Minimum trade size.
    pub min_trade_size: Decimal,
    /// Market name.
    pub market_name: String,
    /// Whether the market is active or not.
    pub is_active: bool,
    /// Creation date and time of the market.
    pub created: Timestamp,
    /// Notice about the market.
    pub notice: Option<String>,
    /// Whether the market is sponsored.
    pub is_sponsored: Option<bool>,
    /// The logo URL for the market.
    pub logo_url: Option<String>,
}

/// Currency information structure.
#[derive(Debug, Clone, PartialEq)]
pub struct CurrencyInfo {
    /// 3-letter currency code.
    pub currency: String,
    /// Long currency name.
    pub currency_long: String,
    /// Minimum number of confirmations to credit the account.
    pub min_confirmation: u32,
    /// Transaction fee.
    pub tx_fee: Decimal,
    /// Whether the currency is active or not.
    pub is_active: bool,
    /// Coin type string constant.
    pub coin_type: String,
    /// Optional base address for the coin at Bittrex.
    pub base_address: Option<String>,
    /// Optional notice about the currency.
    pub notice: Option<String>,
}

/// Ticker information structure.
#[derive(Debug, Clone, Copy, PartialEq, Eq, Structural)]
pub struct TickerInfo {
    /// Current bidding/buying price for the market.
    pub bid: Decimal,
    /// Current asking/selling price for the market.
    pub ask: Decimal,
    /// Last transaction price.
    pub last: Decimal,
}

/// Market summary structure.
#[derive(Debug, Clone, PartialEq)]
pub struct MarketSummary {
    /// Name of the market.
    pub market_name: String,
    /// Highest transaction value in the last 24 hours for the market.
    pub high: Option<Decimal>,
    /// Lowest transaction value in the last 24 hours for the market.
    pub low: Option<Decimal>,
    /// Last transaction price.
    pub last: Option<Decimal>,
    /// Current bidding/buying price.
    pub bid: Option<Decimal>,
    /// Current asking/selling price.
    pub ask: Option<Decimal>,
    /// Volume of the market.
    pub volume: Option<Decimal>,
    /// Base volume of the market.
    pub base_volume: Option<Decimal>,
    /// Timestamp of the information.
    pub time_stamp: Timestamp,
    /// Number of open buying orders.
    pub open_buy_orders: Option<u32>,
    /// Number of open selling orders.
    pub open_sell_orders: Option<u32>,
    /// The price of the previous day.
    pub prev_day: Option<Decimal>,
    /// Market creation time.
    pub created: Timestamp,
    /// Name to display for the market.
    pub display_market_name: Option<String>,
}

/// Structure representing an order.
#[derive(Debug, Clone, Copy, PartialEq, Eq, Structural)]
pub struct Order {
    /// Quantity being ordered.
    pub quantity: Decimal,
    /// Rate/price of the order.
    pub rate: Decimal,
}

/// Structure representing an order book: the outstanding orders of a
/// market, split into the buying and the selling side.
#[derive(Debug, Clone, PartialEq)]
pub struct OrderBook {
    /// List of buying orders.
    buy: Vec<Order>,
    /// List of selling orders.
    sell: Vec<Order>,
}

impl OrderBook {
    /// The buying side, as a sequence.
    pub closed spec fn spec_buy(&self) -> Seq<Order> {
        self.buy@
    }

    /// The selling side, as a sequence.
    pub closed spec fn spec_sell(&self) -> Seq<Order> {
        self.sell@
    }

    /// Creates a new order book.
    pub fn new(buy: Vec<Order>, sell: Vec<Order>) -> (r: Self)
        ensures
            r.spec_buy() == buy@,
            r.spec_sell() == sell@,
    {
        OrderBook { buy, sell }
    }

    /// Gets the list of buying orders.
    pub fn buy(&self) -> (r: &Vec<Order>)
        ensures
            r@ == self.spec_buy(),
    {
        &self.buy
    }

    /// Gets the list of selling orders.
    pub fn sell(&self) -> (r: &Vec<Order>)
        ensures
            r@ == self.spec_sell(),
    {
        &self.sell
    }
}

/// Structure representing a currency balance information.
#[derive(Debug, Clone, PartialEq)]
pub struct BalanceInfo {
    /// Currency code.
    pub currency: String,
    /// Balance for the currency.
    pub balance: Decimal,
    /// Available balance for the currency.
    pub available: Decimal,
    /// Pending balance for the currency.
    pub pending: Decimal,
    /// Address of the currency for deposits.
    pub crypto_address: Option<String>,
    /// Whether a withdrawal has been requested.
    pub requested: Option<bool>,
    /// UUID of the currency.
    pub uuid: Option<String>,
}

} // verus!
