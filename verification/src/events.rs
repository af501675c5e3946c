//! The owned event payload, the raw event view, and the envelope.
//!
//! [`RawEventData`] is the typed view of the tag-dependent record memory a
//! callback delivers, already copied out as plain values; it is born and dies
//! within one callback. [`EventData`] is the fully owned payload produced
//! from it, and [`Event`] pairs that payload with the decoded symbol: the
//! unit that is free of any reference to native memory and may cross thread
//! boundaries. The core correctness property of the layer is that an
//! envelope's kind always equals the kind resolved from the numeric tag that
//! produced it, and the conversion contracts here state exactly that.

use vstd::prelude::*;
use crate::error::Error;
use crate::kinds::{kind_from_tag, EventType};
use crate::records::{
    CandleData, ConfigurationData, GreeksData, OrderEventData, ProfileEventData, QuoteData,
    RawConfiguration, RawOrder, RawProfile, RawSpreadOrder, RawTimeAndSale, SeriesData,
    SpreadOrderData, SummaryData, TheoPriceData, TimeAndSaleData, TradeData, UnderlyingData,
};
use crate::text::{decode_wide, wide_decoded, wide_ok};

verus! {

/// The typed view of one raw event record, one variant per kind. The nine
/// plain kinds carry the self-contained record itself; the five text-bearing
/// kinds carry their raw view with the embedded wide strings copied out as
/// code units.
#[derive(Clone, Debug, PartialEq)]
pub enum RawEventData {
    Trade(TradeData),
    Quote(QuoteData),
    Summary(SummaryData),
    Profile(RawProfile),
    Order(RawOrder),
    TimeAndSale(RawTimeAndSale),
    Candle(CandleData),
    TradeETH(TradeData),
    SpreadOrder(RawSpreadOrder),
    Greeks(GreeksData),
    TheoPrice(TheoPriceData),
    Underlying(UnderlyingData),
    Series(SeriesData),
    Configuration(RawConfiguration),
}

impl RawEventData {
    /// The kind this view is shaped for.
    pub open spec fn kind(self) -> EventType {
        match self {
            RawEventData::Trade(_) => EventType::Trade,
            RawEventData::Quote(_) => EventType::Quote,
            RawEventData::Summary(_) => EventType::Summary,
            RawEventData::Profile(_) => EventType::Profile,
            RawEventData::Order(_) => EventType::Order,
            RawEventData::TimeAndSale(_) => EventType::TimeAndSale,
            RawEventData::Candle(_) => EventType::Candle,
            RawEventData::TradeETH(_) => EventType::TradeETH,
            RawEventData::SpreadOrder(_) => EventType::SpreadOrder,
            RawEventData::Greeks(_) => EventType::Greeks,
            RawEventData::TheoPrice(_) => EventType::TheoPrice,
            RawEventData::Underlying(_) => EventType::Underlying,
            RawEventData::Series(_) => EventType::Series,
            RawEventData::Configuration(_) => EventType::Configuration,
        }
    }

    /// Every embedded wide-character sequence of the view is valid text;
    /// vacuously true for the plain kinds, which embed none.
    pub open spec fn texts_ok(self) -> bool {
        match self {
            RawEventData::Profile(p) => wide_ok(p.description@) && wide_ok(p.status_reason@),
            RawEventData::Order(o) => wide_ok(o.market_maker@),
            RawEventData::TimeAndSale(t) => wide_ok(t.exchange_sale_conditions@) && wide_ok(
                t.buyer@,
            ) && wide_ok(t.seller@),
            RawEventData::SpreadOrder(s) => wide_ok(s.spread_symbol@),
            RawEventData::Configuration(c) => wide_ok(c.object@),
            _ => true,
        }
    }

    /// The kind this view is shaped for.
    pub fn event_kind(&self) -> (k: EventType)
        ensures
            k == self.kind(),
    {
        match self {
            RawEventData::Trade(_) => EventType::Trade,
            RawEventData::Quote(_) => EventType::Quote,
            RawEventData::Summary(_) => EventType::Summary,
            RawEventData::Profile(_) => EventType::Profile,
            RawEventData::Order(_) => EventType::Order,
            RawEventData::TimeAndSale(_) => EventType::TimeAndSale,
            RawEventData::Candle(_) => EventType::Candle,
            RawEventData::TradeETH(_) => EventType::TradeETH,
            RawEventData::SpreadOrder(_) => EventType::SpreadOrder,
            RawEventData::Greeks(_) => EventType::Greeks,
            RawEventData::TheoPrice(_) => EventType::TheoPrice,
            RawEventData::Underlying(_) => EventType::Underlying,
            RawEventData::Series(_) => EventType::Series,
            RawEventData::Configuration(_) => EventType::Configuration,
        }
    }
}

/// One fully owned event payload, one variant per kind; the unit a consumer
/// receives, holding no reference to native memory.
#[derive(Clone, Debug, PartialEq)]
pub enum EventData {
    Trade(TradeData),
    Quote(QuoteData),
    Summary(SummaryData),
    Profile(ProfileEventData),
    Order(OrderEventData),
    TimeAndSale(TimeAndSaleData),
    Candle(CandleData),
    TradeETH(TradeData),
    SpreadOrder(SpreadOrderData),
    Greeks(GreeksData),
    TheoPrice(TheoPriceData),
    Underlying(UnderlyingData),
    Series(SeriesData),
    Configuration(ConfigurationData),
}

impl EventData {
    /// The kind of this payload, derivable from its variant.
    pub open spec fn kind(self) -> EventType {
        match self {
            EventData::Trade(_) => EventType::Trade,
            EventData::Quote(_) => EventType::Quote,
            EventData::Summary(_) => EventType::Summary,
            EventData::Profile(_) => EventType::Profile,
            EventData::Order(_) => EventType::Order,
            EventData::TimeAndSale(_) => EventType::TimeAndSale,
            EventData::Candle(_) => EventType::Candle,
            EventData::TradeETH(_) => EventType::TradeETH,
            EventData::SpreadOrder(_) => EventType::SpreadOrder,
            EventData::Greeks(_) => EventType::Greeks,
            EventData::TheoPrice(_) => EventType::TheoPrice,
            EventData::Underlying(_) => EventType::Underlying,
            EventData::Series(_) => EventType::Series,
            EventData::Configuration(_) => EventType::Configuration,
        }
    }

    /// This payload is the conversion of the given raw view: same kind, the
    /// plain kinds copied verbatim, the text-bearing kinds with each embedded
    /// string decoded and the nonzero-means-true flags normalized.
    pub open spec fn matches_raw(self, raw: RawEventData) -> bool {
        match (raw, self) {
            (RawEventData::Trade(r), EventData::Trade(d)) => d == r,
            (RawEventData::Quote(r), EventData::Quote(d)) => d == r,
            (RawEventData::Summary(r), EventData::Summary(d)) => d == r,
            (RawEventData::Profile(r), EventData::Profile(d)) => d.matches_raw(r),
            (RawEventData::Order(r), EventData::Order(d)) => d.matches_raw(r),
            (RawEventData::TimeAndSale(r), EventData::TimeAndSale(d)) => d.matches_raw(r),
            (RawEventData::Candle(r), EventData::Candle(d)) => d == r,
            (RawEventData::TradeETH(r), EventData::TradeETH(d)) => d == r,
            (RawEventData::SpreadOrder(r), EventData::SpreadOrder(d)) => d.matches_raw(r),
            (RawEventData::Greeks(r), EventData::Greeks(d)) => d == r,
            (RawEventData::TheoPrice(r), EventData::TheoPrice(d)) => d == r,
            (RawEventData::Underlying(r), EventData::Underlying(d)) => d == r,
            (RawEventData::Series(r), EventData::Series(d)) => d == r,
            (RawEventData::Configuration(r), EventData::Configuration(d)) => d.matches_raw(r),
            _ => false,
        }
    }

    /// The kind of this payload, derivable from its variant.
    pub fn event_kind(&self) -> (k: EventType)
        ensures
            k == self.kind(),
    {
        match self {
            EventData::Trade(_) => EventType::Trade,
            EventData::Quote(_) => EventType::Quote,
            EventData::Summary(_) => EventType::Summary,
            EventData::Profile(_) => EventType::Profile,
            EventData::Order(_) => EventType::Order,
            EventData::TimeAndSale(_) => EventType::TimeAndSale,
            EventData::Candle(_) => EventType::Candle,
            EventData::TradeETH(_) => EventType::TradeETH,
            EventData::SpreadOrder(_) => EventType::SpreadOrder,
            EventData::Greeks(_) => EventType::Greeks,
            EventData::TheoPrice(_) => EventType::TheoPrice,
            EventData::Underlying(_) => EventType::Underlying,
            EventData::Series(_) => EventType::Series,
            EventData::Configuration(_) => EventType::Configuration,
        }
    }

    /// The numeric tag of this payload's kind.
    pub fn get_event_type(&self) -> (t: i32)
        ensures
            t == self.kind().tag_spec(),
            kind_from_tag(t) == Some(self.kind()),
    {
        self.event_kind().tag()
    }

    /// Convert one raw event view into its owned payload, dispatching on the
    /// kind the tag resolves to.
    ///
    /// Succeeds exactly when the tag resolves to the view's own kind and
    /// every embedded string is valid text; on failure no partial payload is
    /// exposed. An unrecognized tag is reported as `Invalid`, a view shaped
    /// for another kind than the tag's as `Unknown` (a bug signal: the view
    /// is built from the very memory the tag describes), and an invalid
    /// embedded string as `Utf32Error`.
    pub fn try_get_event_data(event_type: i32, data: &RawEventData) -> (r: Result<
        EventData,
        Error,
    >)
        ensures
            r is Ok <==> kind_from_tag(event_type) == Some(data.kind()) && data.texts_ok(),
            r matches Ok(d) ==> d.matches_raw(*data) && d.kind() == data.kind(),
            kind_from_tag(event_type) is None ==> r == Err::<EventData, Error>(
                Error::Invalid(event_type),
            ),
            kind_from_tag(event_type) matches Some(k) && k != data.kind() ==> r == Err::<
                EventData,
                Error,
            >(Error::Unknown),
            kind_from_tag(event_type) == Some(data.kind()) && !data.texts_ok() ==> r == Err::<
                EventData,
                Error,
            >(Error::Utf32Error),
    {
        let kind = match EventType::try_from(event_type) {
            Ok(k) => k,
            Err(e) => {
                return Err(e);
            },
        };
        match (kind, data) {
            (EventType::Trade, RawEventData::Trade(t)) => Ok(EventData::Trade(*t)),
            (EventType::Quote, RawEventData::Quote(q)) => Ok(EventData::Quote(*q)),
            (EventType::Summary, RawEventData::Summary(s)) => Ok(EventData::Summary(*s)),
            (EventType::Profile, RawEventData::Profile(p)) => Ok(
                EventData::Profile(ProfileEventData::from_raw(p)?),
            ),
            (EventType::Order, RawEventData::Order(o)) => Ok(
                EventData::Order(OrderEventData::from_raw(o)?),
            ),
            (EventType::TimeAndSale, RawEventData::TimeAndSale(t)) => Ok(
                EventData::TimeAndSale(TimeAndSaleData::from_raw(t)?),
            ),
            (EventType::Candle, RawEventData::Candle(c)) => Ok(EventData::Candle(*c)),
            (EventType::TradeETH, RawEventData::TradeETH(t)) => Ok(EventData::TradeETH(*t)),
            (EventType::SpreadOrder, RawEventData::SpreadOrder(s)) => Ok(
                EventData::SpreadOrder(SpreadOrderData::from_raw(s)?),
            ),
            (EventType::Greeks, RawEventData::Greeks(g)) => Ok(EventData::Greeks(*g)),
            (EventType::TheoPrice, RawEventData::TheoPrice(t)) => Ok(EventData::TheoPrice(*t)),
            (EventType::Underlying, RawEventData::Underlying(u)) => Ok(EventData::Underlying(*u)),
            (EventType::Series, RawEventData::Series(s)) => Ok(EventData::Series(*s)),
            (EventType::Configuration, RawEventData::Configuration(c)) => Ok(
                EventData::Configuration(ConfigurationData::from_raw(c)?),
            ),
            _ => Err(Error::Unknown),
        }
    }
}

/// The owned event envelope: a decoded symbol paired with an owned payload.
/// Fully independent of the native memory it was read from; safe to transfer
/// and to serialize.
#[derive(Clone, Debug, PartialEq)]
pub struct Event {
    /// The symbol the event belongs to.
    pub sym: String,
    /// The owned payload of the event.
    pub data: EventData,
}

impl Event {
    /// Assemble an envelope from an already-decoded symbol and payload.
    pub fn new(sym: String, data: EventData) -> (e: Event)
        ensures
            e.sym == sym,
            e.data == data,
    {
        Event { sym, data }
    }

    /// Build the envelope for one callback invocation: decode the raw
    /// wide-character symbol, resolve the tag, convert the raw record, and
    /// pair the results.
    ///
    /// Succeeds exactly when the symbol decodes, the tag resolves to the
    /// view's kind and every embedded string decodes; any fault surfaces as
    /// one typed error and no partial envelope. On success the payload's
    /// kind equals the kind the tag resolves to: the envelope can never
    /// carry a payload under a foreign tag.
    pub fn try_from_c(event_type: i32, raw_sym: &Vec<u32>, data: &RawEventData) -> (r: Result<
        Event,
        Error,
    >)
        ensures
            r is Ok <==> wide_ok(raw_sym@) && kind_from_tag(event_type) == Some(data.kind())
                && data.texts_ok(),
            r matches Ok(e) ==> e.sym@ == wide_decoded(raw_sym@) && e.data.matches_raw(*data)
                && kind_from_tag(event_type) == Some(e.data.kind()),
            !wide_ok(raw_sym@) ==> r == Err::<Event, Error>(Error::Utf32Error),
            wide_ok(raw_sym@) && kind_from_tag(event_type) is None ==> r == Err::<Event, Error>(
                Error::Invalid(event_type),
            ),
            wide_ok(raw_sym@) && (kind_from_tag(event_type) matches Some(k) && k != data.kind())
                ==> r == Err::<Event, Error>(Error::Unknown),
            wide_ok(raw_sym@) && kind_from_tag(event_type) == Some(data.kind())
                && !data.texts_ok() ==> r == Err::<Event, Error>(Error::Utf32Error),
    {
        let sym = decode_wide(raw_sym)?;
        let event_data = EventData::try_get_event_data(event_type, data)?;
        Ok(Event::new(sym, event_data))
    }
}

/// For the plain kinds, conversion is the identity on the record: a payload
/// that matches a plain raw view wraps that view's record unchanged, and a
/// plain view always has valid texts (it embeds none).
pub proof fn lemma_plain_kinds_copied(raw: RawEventData, owned: EventData)
    requires
        owned.matches_raw(raw),
    ensures
        raw matches RawEventData::Trade(t) ==> owned == EventData::Trade(t),
        raw matches RawEventData::Quote(q) ==> owned == EventData::Quote(q),
        raw matches RawEventData::Summary(s) ==> owned == EventData::Summary(s),
        raw matches RawEventData::Candle(c) ==> owned == EventData::Candle(c),
        raw matches RawEventData::TradeETH(t) ==> owned == EventData::TradeETH(t),
        raw matches RawEventData::Greeks(g) ==> owned == EventData::Greeks(g),
        raw matches RawEventData::TheoPrice(t) ==> owned == EventData::TheoPrice(t),
        raw matches RawEventData::Underlying(u) ==> owned == EventData::Underlying(u),
        raw matches RawEventData::Series(s) ==> owned == EventData::Series(s),
        raw.texts_ok() || raw.kind() == EventType::Profile || raw.kind() == EventType::Order
            || raw.kind() == EventType::TimeAndSale || raw.kind() == EventType::SpreadOrder
            || raw.kind() == EventType::Configuration,
{
}

/// A payload that matches a raw view has that view's kind: conversion never
/// changes the kind, which is what makes an envelope's kind equal the kind
/// resolved from the tag that produced it.
pub proof fn lemma_conversion_preserves_kind(raw: RawEventData, owned: EventData)
    requires
        owned.matches_raw(raw),
    ensures
        owned.kind() == raw.kind(),
{
}

} // verus!
