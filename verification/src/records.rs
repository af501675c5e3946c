//! The per-kind record models and conversion rules.
//!
//! Each struct mirrors, field for field, the native record layout the feed
//! library hands to the event callback. Nine kinds are plain: their records
//! are self-contained scalar data, and the owned payload is the record
//! itself, copied verbatim. Five kinds additionally embed wide-character
//! string pointers; their raw views carry the pointed-to code units, already
//! copied out as plain `u32` values, and conversion decodes each sequence
//! into owned text, reporting [`Error::Utf32Error`] on any invalid unit.
//!
//! Two modelling conventions hold throughout: fields the native records
//! declare as 64-bit floating point are carried as their IEEE-754 bit
//! patterns in a `u64`, so a copy is bit-identical and no arithmetic is ever
//! done on them; and single wide characters (exchange codes and the like) are
//! carried as one `u32` code unit.

use vstd::prelude::*;
use crate::error::Error;
use crate::text::{decode_wide, wide_decoded, wide_ok};

verus! {

/// A trade event record: the last trade and daily totals. Self-contained
/// scalar data; also the shape of an extended-trading-hours trade record.
#[derive(Clone, Copy, Debug, PartialEq)]
pub struct TradeData {
    /// Time of the trade, milliseconds since the epoch.
    pub time: i64,
    /// Sequence number distinguishing trades with the same time.
    pub sequence: i32,
    /// Microsecond and nanosecond part of the time.
    pub time_nanos: i32,
    /// Exchange code of the trade, one wide character.
    pub exchange_code: u32,
    /// Price of the trade (floating-point bits).
    pub price: u64,
    /// Size of the trade (floating-point bits).
    pub size: u64,
    /// Tick direction of the trade.
    pub tick: i32,
    /// Change of the trade (floating-point bits).
    pub change: u64,
    /// Identifier of the day of the trade.
    pub day_id: i32,
    /// Total volume of the day (floating-point bits).
    pub day_volume: u64,
    /// Total turnover of the day (floating-point bits).
    pub day_turnover: u64,
    /// Individual flags of the trade, encoded as an integer.
    pub raw_flags: i32,
    /// Direction of the trade.
    pub direction: u32,
    /// Whether the trade happened in extended trading hours, nonzero for
    /// true; kept verbatim as the native record carries it.
    pub is_eth: i32,
    /// Scope of the trade.
    pub scope: u32,
}

/// A quote event record: the current bid and ask. Self-contained scalar
/// data.
#[derive(Clone, Copy, Debug, PartialEq)]
pub struct QuoteData {
    /// Time of the quote, milliseconds since the epoch.
    pub time: i64,
    /// Sequence number distinguishing quotes with the same time.
    pub sequence: i32,
    /// Microsecond and nanosecond part of the time.
    pub time_nanos: i32,
    /// Time of the last bid change.
    pub bid_time: i64,
    /// Exchange code of the bid, one wide character.
    pub bid_exchange_code: u32,
    /// Bid price (floating-point bits).
    pub bid_price: u64,
    /// Bid size (floating-point bits).
    pub bid_size: u64,
    /// Time of the last ask change.
    pub ask_time: i64,
    /// Exchange code of the ask, one wide character.
    pub ask_exchange_code: u32,
    /// Ask price (floating-point bits).
    pub ask_price: u64,
    /// Ask size (floating-point bits).
    pub ask_size: u64,
    /// Scope of the quote.
    pub scope: u32,
}

/// A summary event record: daily aggregates. Self-contained scalar data.
#[derive(Clone, Copy, Debug, PartialEq)]
pub struct SummaryData {
    /// Identifier of the day this summary represents.
    pub day_id: i32,
    /// Opening price of the day (floating-point bits).
    pub day_open_price: u64,
    /// Highest price of the day (floating-point bits).
    pub day_high_price: u64,
    /// Lowest price of the day (floating-point bits).
    pub day_low_price: u64,
    /// Closing price of the day (floating-point bits).
    pub day_close_price: u64,
    /// Identifier of the previous day.
    pub prev_day_id: i32,
    /// Closing price of the previous day (floating-point bits).
    pub prev_day_close_price: u64,
    /// Total volume of the previous day (floating-point bits).
    pub prev_day_volume: u64,
    /// Open interest of the instrument (floating-point bits).
    pub open_interest: u64,
    /// Individual flags of the summary, encoded as an integer.
    pub raw_flags: i32,
    /// Exchange code of the summary, one wide character.
    pub exchange_code: u32,
    /// Price type of the day's closing price.
    pub day_close_price_type: u32,
    /// Price type of the previous day's closing price.
    pub prev_day_close_price_type: u32,
    /// Scope of the summary.
    pub scope: u32,
}

/// A candle event record: one aggregation period. Self-contained scalar
/// data.
#[derive(Clone, Copy, Debug, PartialEq)]
pub struct CandleData {
    /// Start time of the candle, milliseconds since the epoch.
    pub time: i64,
    /// Sequence number distinguishing candles with the same time.
    pub sequence: i32,
    /// Number of events aggregated into the candle (floating-point bits).
    pub count: u64,
    /// Opening price (floating-point bits).
    pub open: u64,
    /// Highest price (floating-point bits).
    pub high: u64,
    /// Lowest price (floating-point bits).
    pub low: u64,
    /// Closing price (floating-point bits).
    pub close: u64,
    /// Total volume (floating-point bits).
    pub volume: u64,
    /// Volume-weighted average price (floating-point bits).
    pub vwap: u64,
    /// Bid volume (floating-point bits).
    pub bid_volume: u64,
    /// Ask volume (floating-point bits).
    pub ask_volume: u64,
    /// Open interest (floating-point bits).
    pub open_interest: u64,
    /// Implied volatility (floating-point bits).
    pub imp_volatility: u64,
}

/// A greeks event record: option greeks. Self-contained scalar data.
#[derive(Clone, Copy, Debug, PartialEq)]
pub struct GreeksData {
    /// Transactional event flags.
    pub event_flags: u32,
    /// Unique per-symbol index of the event.
    pub index: i64,
    /// Time of the event, milliseconds since the epoch.
    pub time: i64,
    /// Option market price (floating-point bits).
    pub price: u64,
    /// Black-Scholes implied volatility (floating-point bits).
    pub volatility: u64,
    /// Option delta (floating-point bits).
    pub delta: u64,
    /// Option gamma (floating-point bits).
    pub gamma: u64,
    /// Option theta (floating-point bits).
    pub theta: u64,
    /// Option rho (floating-point bits).
    pub rho: u64,
    /// Option vega (floating-point bits).
    pub vega: u64,
}

/// A theoretical price event record. Self-contained scalar data.
#[derive(Clone, Copy, Debug, PartialEq)]
pub struct TheoPriceData {
    /// Time of the theoretical price, milliseconds since the epoch.
    pub time: i64,
    /// Theoretical price (floating-point bits).
    pub price: u64,
    /// Underlying price at the time of the calculation (floating-point
    /// bits).
    pub underlying_price: u64,
    /// Delta of the theoretical price (floating-point bits).
    pub delta: u64,
    /// Gamma of the theoretical price (floating-point bits).
    pub gamma: u64,
    /// Implied simple dividend return of the instrument (floating-point
    /// bits).
    pub dividend: u64,
    /// Implied simple interest return of the instrument (floating-point
    /// bits).
    pub interest: u64,
}

/// An underlying event record: option-market data of the underlying
/// instrument. Self-contained scalar data.
#[derive(Clone, Copy, Debug, PartialEq)]
pub struct UnderlyingData {
    /// 30-day implied volatility (floating-point bits).
    pub volatility: u64,
    /// Front-month implied volatility (floating-point bits).
    pub front_volatility: u64,
    /// Back-month implied volatility (floating-point bits).
    pub back_volatility: u64,
    /// Call option traded volume of the day (floating-point bits).
    pub call_volume: u64,
    /// Put option traded volume of the day (floating-point bits).
    pub put_volume: u64,
    /// Option traded volume of the day (floating-point bits).
    pub option_volume: u64,
    /// Put-call ratio of the day (floating-point bits).
    pub put_call_ratio: u64,
}

/// A series event record: an option series. Self-contained scalar data.
#[derive(Clone, Copy, Debug, PartialEq)]
pub struct SeriesData {
    /// Transactional event flags.
    pub event_flags: u32,
    /// Unique per-symbol index of the event.
    pub index: i64,
    /// Time of the event, milliseconds since the epoch.
    pub time: i64,
    /// Sequence number distinguishing events with the same time.
    pub sequence: i32,
    /// Day identifier of the series expiration.
    pub expiration: i32,
    /// Implied volatility of the series (floating-point bits).
    pub volatility: u64,
    /// Call option traded volume of the day (floating-point bits).
    pub call_volume: u64,
    /// Put option traded volume of the day (floating-point bits).
    pub put_volume: u64,
    /// Option traded volume of the day (floating-point bits).
    pub option_volume: u64,
    /// Put-call ratio of the day (floating-point bits).
    pub put_call_ratio: u64,
    /// Implied forward price of the series (floating-point bits).
    pub forward_price: u64,
    /// Implied simple dividend return of the series (floating-point bits).
    pub dividend: u64,
    /// Implied simple interest return of the series (floating-point bits).
    pub interest: u64,
}

/// The raw view of a profile record: scalar fields plus the code units of
/// its two embedded wide-character strings.
#[derive(Clone, Debug, PartialEq)]
pub struct RawProfile {
    /// Correlation coefficient to the S&P 500 index (floating-point bits).
    pub beta: u64,
    /// Earnings per share (floating-point bits).
    pub eps: u64,
    /// Cash dividend payments per year (floating-point bits).
    pub div_freq: u64,
    /// Amount of the last paid dividend (floating-point bits).
    pub exd_div_amount: u64,
    /// Date of the last dividend payment.
    pub exd_div_date: i32,
    /// Highest price of the last 52 weeks (floating-point bits).
    pub high_52_week_price: u64,
    /// Lowest price of the last 52 weeks (floating-point bits).
    pub low_52_week_price: u64,
    /// Shares outstanding (floating-point bits).
    pub shares: u64,
    /// Free-float shares outstanding (floating-point bits).
    pub free_float: u64,
    /// Highest allowed price (floating-point bits).
    pub high_limit_price: u64,
    /// Lowest allowed price (floating-point bits).
    pub low_limit_price: u64,
    /// Start of the trading halt interval.
    pub halt_start_time: i64,
    /// End of the trading halt interval.
    pub halt_end_time: i64,
    /// Individual flags of the profile, encoded as an integer.
    pub raw_flags: i32,
    /// Description of the instrument, raw wide code units.
    pub description: Vec<u32>,
    /// Reason trading was halted, raw wide code units.
    pub status_reason: Vec<u32>,
    /// Trading status of the instrument.
    pub trading_status: u32,
    /// Short sale restriction of the instrument.
    pub ssr: u32,
}

/// The owned profile payload: the raw profile with both embedded strings
/// decoded into owned text.
#[derive(Clone, Debug, PartialEq)]
pub struct ProfileEventData {
    /// Correlation coefficient to the S&P 500 index (floating-point bits).
    pub beta: u64,
    /// Earnings per share (floating-point bits).
    pub eps: u64,
    /// Cash dividend payments per year (floating-point bits).
    pub div_freq: u64,
    /// Amount of the last paid dividend (floating-point bits).
    pub exd_div_amount: u64,
    /// Date of the last dividend payment.
    pub exd_div_date: i32,
    /// Highest price of the last 52 weeks (floating-point bits).
    pub high_52_week_price: u64,
    /// Lowest price of the last 52 weeks (floating-point bits).
    pub low_52_week_price: u64,
    /// Shares outstanding (floating-point bits).
    pub shares: u64,
    /// Free-float shares outstanding (floating-point bits).
    pub free_float: u64,
    /// Highest allowed price (floating-point bits).
    pub high_limit_price: u64,
    /// Lowest allowed price (floating-point bits).
    pub low_limit_price: u64,
    /// Start of the trading halt interval.
    pub halt_start_time: i64,
    /// End of the trading halt interval.
    pub halt_end_time: i64,
    /// Individual flags of the profile, encoded as an integer.
    pub raw_flags: i32,
    /// Description of the instrument.
    pub description: String,
    /// Reason trading was halted.
    pub status_reason: String,
    /// Trading status of the instrument.
    pub trading_status: u32,
    /// Short sale restriction of the instrument.
    pub ssr: u32,
}

impl ProfileEventData {
    /// The owned payload is exactly the raw record with each embedded string
    /// decoded and everything else copied verbatim.
    pub open spec fn matches_raw(self, raw: RawProfile) -> bool {
        &&& self.beta == raw.beta
        &&& self.eps == raw.eps
        &&& self.div_freq == raw.div_freq
        &&& self.exd_div_amount == raw.exd_div_amount
        &&& self.exd_div_date == raw.exd_div_date
        &&& self.high_52_week_price == raw.high_52_week_price
        &&& self.low_52_week_price == raw.low_52_week_price
        &&& self.shares == raw.shares
        &&& self.free_float == raw.free_float
        &&& self.high_limit_price == raw.high_limit_price
        &&& self.low_limit_price == raw.low_limit_price
        &&& self.halt_start_time == raw.halt_start_time
        &&& self.halt_end_time == raw.halt_end_time
        &&& self.raw_flags == raw.raw_flags
        &&& self.description@ == wide_decoded(raw.description@)
        &&& self.status_reason@ == wide_decoded(raw.status_reason@)
        &&& self.trading_status == raw.trading_status
        &&& self.ssr == raw.ssr
    }

    /// Convert a raw profile record into its owned payload; fails exactly
    /// when one of the embedded strings is not valid text.
    pub fn from_raw(raw: &RawProfile) -> (r: Result<ProfileEventData, Error>)
        ensures
            r is Ok <==> wide_ok(raw.description@) && wide_ok(raw.status_reason@),
            r matches Ok(p) ==> p.matches_raw(*raw),
            r is Err ==> r == Err::<ProfileEventData, Error>(Error::Utf32Error),
    {
        let description = decode_wide(&raw.description)?;
        let status_reason = decode_wide(&raw.status_reason)?;
        Ok(ProfileEventData {
            beta: raw.beta,
            eps: raw.eps,
            div_freq: raw.div_freq,
            exd_div_amount: raw.exd_div_amount,
            exd_div_date: raw.exd_div_date,
            high_52_week_price: raw.high_52_week_price,
            low_52_week_price: raw.low_52_week_price,
            shares: raw.shares,
            free_float: raw.free_float,
            high_limit_price: raw.high_limit_price,
            low_limit_price: raw.low_limit_price,
            halt_start_time: raw.halt_start_time,
            halt_end_time: raw.halt_end_time,
            raw_flags: raw.raw_flags,
            description,
            status_reason,
            trading_status: raw.trading_status,
            ssr: raw.ssr,
        })
    }
}

/// The raw view of an order record. The native record's variable part is a
/// union of a numeric spread-leg identifier and a market-maker string
/// pointer; the view carries the wide-character reading of it, the one this
/// layer always takes (see [`OrderEventData::mm_or_spread`]).
#[derive(Clone, Debug, PartialEq)]
pub struct RawOrder {
    /// Source of the order, a fixed-size wide-character field.
    pub source: [u32; 17],
    /// Transactional event flags.
    pub event_flags: u32,
    /// Unique per-symbol index of the order.
    pub index: i64,
    /// Time of the order, milliseconds since the epoch.
    pub time: i64,
    /// Sequence number distinguishing orders with the same time.
    pub sequence: i32,
    /// Microsecond and nanosecond part of the time.
    pub time_nanos: i32,
    /// Order action, if available.
    pub action: u32,
    /// Time of the last action, if available.
    pub action_time: i64,
    /// Order identifier, if available.
    pub order_id: i64,
    /// Auxiliary order identifier, if available.
    pub aux_order_id: i64,
    /// Price of the order (floating-point bits).
    pub price: u64,
    /// Size of the order (floating-point bits).
    pub size: u64,
    /// Executed size of the order (floating-point bits).
    pub executed_size: u64,
    /// Number of individual orders in this aggregate order (floating-point
    /// bits).
    pub count: u64,
    /// Trade identifier for trade-related actions, if available.
    pub trade_id: i64,
    /// Trade price for trade-related actions (floating-point bits).
    pub trade_price: u64,
    /// Trade size for trade-related actions (floating-point bits).
    pub trade_size: u64,
    /// Exchange code of the order, one wide character.
    pub exchange_code: u32,
    /// Side of the order.
    pub side: u32,
    /// Scope of the order.
    pub scope: u32,
    /// The union field read as a wide-character market-maker string, raw
    /// code units.
    pub market_maker: Vec<u32>,
}

/// The owned order payload, with the union field flattened into one named
/// text field.
#[derive(Clone, Debug, PartialEq)]
pub struct OrderEventData {
    /// Source of the order, a fixed-size wide-character field.
    pub source: [u32; 17],
    /// Transactional event flags.
    pub event_flags: u32,
    /// Unique per-symbol index of the order.
    pub index: i64,
    /// Time of the order, milliseconds since the epoch.
    pub time: i64,
    /// Sequence number distinguishing orders with the same time.
    pub sequence: i32,
    /// Microsecond and nanosecond part of the time.
    pub time_nanos: i32,
    /// Order action, if available.
    pub action: u32,
    /// Time of the last action, if available.
    pub action_time: i64,
    /// Order identifier, if available.
    pub order_id: i64,
    /// Auxiliary order identifier, if available.
    pub aux_order_id: i64,
    /// Price of the order (floating-point bits).
    pub price: u64,
    /// Size of the order (floating-point bits).
    pub size: u64,
    /// Executed size of the order (floating-point bits).
    pub executed_size: u64,
    /// Number of individual orders in this aggregate order (floating-point
    /// bits).
    pub count: u64,
    /// Trade identifier for trade-related actions, if available.
    pub trade_id: i64,
    /// Trade price for trade-related actions (floating-point bits).
    pub trade_price: u64,
    /// Trade size for trade-related actions (floating-point bits).
    pub trade_size: u64,
    /// Exchange code of the order, one wide character.
    pub exchange_code: u32,
    /// Side of the order.
    pub side: u32,
    /// Scope of the order.
    pub scope: u32,
    /// Market maker of the order, or its spread order identification. The
    /// native union is deliberately always read as the wide-character
    /// alternative and flattened into this single field, because the owned
    /// representation cannot carry a union-typed member.
    pub mm_or_spread: String,
}

impl OrderEventData {
    /// The owned payload is exactly the raw record with the union field
    /// decoded as text and everything else copied verbatim.
    pub open spec fn matches_raw(self, raw: RawOrder) -> bool {
        &&& self.source == raw.source
        &&& self.event_flags == raw.event_flags
        &&& self.index == raw.index
        &&& self.time == raw.time
        &&& self.sequence == raw.sequence
        &&& self.time_nanos == raw.time_nanos
        &&& self.action == raw.action
        &&& self.action_time == raw.action_time
        &&& self.order_id == raw.order_id
        &&& self.aux_order_id == raw.aux_order_id
        &&& self.price == raw.price
        &&& self.size == raw.size
        &&& self.executed_size == raw.executed_size
        &&& self.count == raw.count
        &&& self.trade_id == raw.trade_id
        &&& self.trade_price == raw.trade_price
        &&& self.trade_size == raw.trade_size
        &&& self.exchange_code == raw.exchange_code
        &&& self.side == raw.side
        &&& self.scope == raw.scope
        &&& self.mm_or_spread@ == wide_decoded(raw.market_maker@)
    }

    /// Convert a raw order record into its owned payload; fails exactly when
    /// the market-maker string is not valid text.
    pub fn from_raw(raw: &RawOrder) -> (r: Result<OrderEventData, Error>)
        ensures
            r is Ok <==> wide_ok(raw.market_maker@),
            r matches Ok(p) ==> p.matches_raw(*raw),
            r is Err ==> r == Err::<OrderEventData, Error>(Error::Utf32Error),
    {
        let mm_or_spread = decode_wide(&raw.market_maker)?;
        Ok(OrderEventData {
            source: raw.source,
            event_flags: raw.event_flags,
            index: raw.index,
            time: raw.time,
            sequence: raw.sequence,
            time_nanos: raw.time_nanos,
            action: raw.action,
            action_time: raw.action_time,
            order_id: raw.order_id,
            aux_order_id: raw.aux_order_id,
            price: raw.price,
            size: raw.size,
            executed_size: raw.executed_size,
            count: raw.count,
            trade_id: raw.trade_id,
            trade_price: raw.trade_price,
            trade_size: raw.trade_size,
            exchange_code: raw.exchange_code,
            side: raw.side,
            scope: raw.scope,
            mm_or_spread,
        })
    }
}

/// The raw view of a time & sale record: scalar fields plus the code units
/// of its three embedded wide-character strings.
#[derive(Clone, Debug, PartialEq)]
pub struct RawTimeAndSale {
    /// Transactional event flags.
    pub event_flags: u32,
    /// Unique per-symbol index of the event.
    pub index: i64,
    /// Timestamp of the original event.
    pub time: i64,
    /// Exchange code of the event, one wide character.
    pub exchange_code: u32,
    /// Price of the event (floating-point bits).
    pub price: u64,
    /// Size of the event (floating-point bits).
    pub size: u64,
    /// Bid price on the market when the event occurred (floating-point
    /// bits).
    pub bid_price: u64,
    /// Ask price on the market when the event occurred (floating-point
    /// bits).
    pub ask_price: u64,
    /// Sale conditions provided by the data feed, raw wide code units.
    pub exchange_sale_conditions: Vec<u32>,
    /// Individual flags of the event, encoded as an integer.
    pub raw_flags: i32,
    /// Buyer of the event, raw wide code units.
    pub buyer: Vec<u32>,
    /// Seller of the event, raw wide code units.
    pub seller: Vec<u32>,
    /// Aggressor side of the event.
    pub side: u32,
    /// Type of the event.
    pub kind: u32,
    /// Whether the event is a valid intraday tick, nonzero for true.
    pub is_valid_tick: i32,
    /// Whether the event is an extended-trading-hours sale, nonzero for
    /// true.
    pub is_eth_trade: i32,
    /// Trade-through-exempt flag, one wide character.
    pub trade_through_exempt: u32,
    /// Whether the event is a spread leg, nonzero for true.
    pub is_spread_leg: i32,
    /// Scope of the event.
    pub scope: u32,
}

/// The owned time & sale payload: embedded strings decoded and the
/// nonzero-means-true integer flags normalized to booleans.
#[derive(Clone, Debug, PartialEq)]
pub struct TimeAndSaleData {
    /// Transactional event flags.
    pub event_flags: u32,
    /// Unique per-symbol index of the event.
    pub index: i64,
    /// Timestamp of the original event.
    pub time: i64,
    /// Exchange code of the event, one wide character.
    pub exchange_code: u32,
    /// Price of the event (floating-point bits).
    pub price: u64,
    /// Size of the event (floating-point bits).
    pub size: u64,
    /// Bid price on the market when the event occurred (floating-point
    /// bits).
    pub bid_price: u64,
    /// Ask price on the market when the event occurred (floating-point
    /// bits).
    pub ask_price: u64,
    /// Sale conditions provided by the data feed.
    pub exchange_sale_conditions: String,
    /// Individual flags of the event, encoded as an integer.
    pub raw_flags: i32,
    /// Buyer of the event.
    pub buyer: String,
    /// Seller of the event.
    pub seller: String,
    /// Aggressor side of the event.
    pub side: u32,
    /// Type of the event.
    pub kind: u32,
    /// Whether the event is a valid intraday tick.
    pub is_valid_tick: bool,
    /// Whether the event is an extended-trading-hours sale.
    pub is_eth_trade: bool,
    /// Trade-through-exempt flag, one wide character.
    pub trade_through_exempt: u32,
    /// Whether the event is a spread leg.
    pub is_spread_leg: bool,
    /// Scope of the event.
    pub scope: u32,
}

impl TimeAndSaleData {
    /// The owned payload is exactly the raw record with the three embedded
    /// strings decoded, each nonzero-means-true flag normalized to a
    /// boolean, and everything else copied verbatim.
    pub open spec fn matches_raw(self, raw: RawTimeAndSale) -> bool {
        &&& self.event_flags == raw.event_flags
        &&& self.index == raw.index
        &&& self.time == raw.time
        &&& self.exchange_code == raw.exchange_code
        &&& self.price == raw.price
        &&& self.size == raw.size
        &&& self.bid_price == raw.bid_price
        &&& self.ask_price == raw.ask_price
        &&& self.exchange_sale_conditions@ == wide_decoded(raw.exchange_sale_conditions@)
        &&& self.raw_flags == raw.raw_flags
        &&& self.buyer@ == wide_decoded(raw.buyer@)
        &&& self.seller@ == wide_decoded(raw.seller@)
        &&& self.side == raw.side
        &&& self.kind == raw.kind
        &&& self.is_valid_tick == (raw.is_valid_tick != 0)
        &&& self.is_eth_trade == (raw.is_eth_trade != 0)
        &&& self.trade_through_exempt == raw.trade_through_exempt
        &&& self.is_spread_leg == (raw.is_spread_leg != 0)
        &&& self.scope == raw.scope
    }

    /// Convert a raw time & sale record into its owned payload; fails
    /// exactly when one of the embedded strings is not valid text.
    pub fn from_raw(raw: &RawTimeAndSale) -> (r: Result<TimeAndSaleData, Error>)
        ensures
            r is Ok <==> wide_ok(raw.exchange_sale_conditions@) && wide_ok(raw.buyer@)
                && wide_ok(raw.seller@),
            r matches Ok(p) ==> p.matches_raw(*raw),
            r is Err ==> r == Err::<TimeAndSaleData, Error>(Error::Utf32Error),
    {
        let exchange_sale_conditions = decode_wide(&raw.exchange_sale_conditions)?;
        let buyer = decode_wide(&raw.buyer)?;
        let seller = decode_wide(&raw.seller)?;
        Ok(TimeAndSaleData {
            event_flags: raw.event_flags,
            index: raw.index,
            time: raw.time,
            exchange_code: raw.exchange_code,
            price: raw.price,
            size: raw.size,
            bid_price: raw.bid_price,
            ask_price: raw.ask_price,
            exchange_sale_conditions,
            raw_flags: raw.raw_flags,
            buyer,
            seller,
            side: raw.side,
            kind: raw.kind,
            is_valid_tick: raw.is_valid_tick != 0,
            is_eth_trade: raw.is_eth_trade != 0,
            trade_through_exempt: raw.trade_through_exempt,
            is_spread_leg: raw.is_spread_leg != 0,
            scope: raw.scope,
        })
    }
}

/// The raw view of a spread order record: scalar fields plus the code units
/// of the embedded spread symbol.
#[derive(Clone, Debug, PartialEq)]
pub struct RawSpreadOrder {
    /// Unique per-symbol index of the order.
    pub index: i32,
    /// Time of the order.
    pub time: i32,
    /// Microsecond and nanosecond part of the time.
    pub time_nanos: i32,
    /// Sequence number distinguishing orders with the same time.
    pub sequence: i32,
    /// Time of the last action, if available.
    pub action_time: i64,
    /// Order identifier, if available.
    pub order_id: i64,
    /// Auxiliary order identifier, if available.
    pub aux_order_id: i64,
    /// Price of the order (floating-point bits).
    pub price: u64,
    /// Size of the order (floating-point bits).
    pub size: u64,
    /// Executed size of the order (floating-point bits).
    pub executed_size: u64,
    /// Number of individual orders in this aggregate order (floating-point
    /// bits).
    pub count: u64,
    /// Individual flags of the order, encoded as an integer.
    pub flags: i32,
    /// Trade identifier for trade-related actions, if available.
    pub trade_id: i64,
    /// Trade price for trade-related actions (floating-point bits).
    pub trade_price: u64,
    /// Trade size for trade-related actions (floating-point bits).
    pub trade_size: u64,
    /// Spread symbol of the order, raw wide code units.
    pub spread_symbol: Vec<u32>,
}

/// The owned spread order payload, with the spread symbol decoded into owned
/// text.
#[derive(Clone, Debug, PartialEq)]
pub struct SpreadOrderData {
    /// Unique per-symbol index of the order.
    pub index: i32,
    /// Time of the order.
    pub time: i32,
    /// Microsecond and nanosecond part of the time.
    pub time_nanos: i32,
    /// Sequence number distinguishing orders with the same time.
    pub sequence: i32,
    /// Time of the last action, if available.
    pub action_time: i64,
    /// Order identifier, if available.
    pub order_id: i64,
    /// Auxiliary order identifier, if available.
    pub aux_order_id: i64,
    /// Price of the order (floating-point bits).
    pub price: u64,
    /// Size of the order (floating-point bits).
    pub size: u64,
    /// Executed size of the order (floating-point bits).
    pub executed_size: u64,
    /// Number of individual orders in this aggregate order (floating-point
    /// bits).
    pub count: u64,
    /// Individual flags of the order, encoded as an integer.
    pub flags: i32,
    /// Trade identifier for trade-related actions, if available.
    pub trade_id: i64,
    /// Trade price for trade-related actions (floating-point bits).
    pub trade_price: u64,
    /// Trade size for trade-related actions (floating-point bits).
    pub trade_size: u64,
    /// Spread symbol of the order.
    pub spread_symbol: String,
}

impl SpreadOrderData {
    /// The owned payload is exactly the raw record with the spread symbol
    /// decoded and everything else copied verbatim.
    pub open spec fn matches_raw(self, raw: RawSpreadOrder) -> bool {
        &&& self.index == raw.index
        &&& self.time == raw.time
        &&& self.time_nanos == raw.time_nanos
        &&& self.sequence == raw.sequence
        &&& self.action_time == raw.action_time
        &&& self.order_id == raw.order_id
        &&& self.aux_order_id == raw.aux_order_id
        &&& self.price == raw.price
        &&& self.size == raw.size
        &&& self.executed_size == raw.executed_size
        &&& self.count == raw.count
        &&& self.flags == raw.flags
        &&& self.trade_id == raw.trade_id
        &&& self.trade_price == raw.trade_price
        &&& self.trade_size == raw.trade_size
        &&& self.spread_symbol@ == wide_decoded(raw.spread_symbol@)
    }

    /// Convert a raw spread order record into its owned payload; fails
    /// exactly when the spread symbol is not valid text.
    pub fn from_raw(raw: &RawSpreadOrder) -> (r: Result<SpreadOrderData, Error>)
        ensures
            r is Ok <==> wide_ok(raw.spread_symbol@),
            r matches Ok(p) ==> p.matches_raw(*raw),
            r is Err ==> r == Err::<SpreadOrderData, Error>(Error::Utf32Error),
    {
        let spread_symbol = decode_wide(&raw.spread_symbol)?;
        Ok(SpreadOrderData {
            index: raw.index,
            time: raw.time,
            time_nanos: raw.time_nanos,
            sequence: raw.sequence,
            action_time: raw.action_time,
            order_id: raw.order_id,
            aux_order_id: raw.aux_order_id,
            price: raw.price,
            size: raw.size,
            executed_size: raw.executed_size,
            count: raw.count,
            flags: raw.flags,
            trade_id: raw.trade_id,
            trade_price: raw.trade_price,
            trade_size: raw.trade_size,
            spread_symbol,
        })
    }
}

/// The raw view of a configuration record: a version and the code units of
/// one embedded wide-character string.
#[derive(Clone, Debug, PartialEq)]
pub struct RawConfiguration {
    /// Version of the configuration object.
    pub version: i32,
    /// The configuration object, raw wide code units.
    pub object: Vec<u32>,
}

/// The owned configuration payload, with the object decoded into owned text.
#[derive(Clone, Debug, PartialEq)]
pub struct ConfigurationData {
    /// Version of the configuration object.
    pub version: i32,
    /// The configuration object.
    pub object: String,
}

impl ConfigurationData {
    /// The owned payload is exactly the raw record with the object decoded
    /// and the version copied verbatim.
    pub open spec fn matches_raw(self, raw: RawConfiguration) -> bool {
        &&& self.version == raw.version
        &&& self.object@ == wide_decoded(raw.object@)
    }

    /// Convert a raw configuration record into its owned payload; fails
    /// exactly when the object string is not valid text.
    pub fn from_raw(raw: &RawConfiguration) -> (r: Result<ConfigurationData, Error>)
        ensures
            r is Ok <==> wide_ok(raw.object@),
            r matches Ok(p) ==> p.matches_raw(*raw),
            r is Err ==> r == Err::<ConfigurationData, Error>(Error::Utf32Error),
    {
        let object = decode_wide(&raw.object)?;
        Ok(ConfigurationData { version: raw.version, object })
    }
}

} // verus!
