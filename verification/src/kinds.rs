//! The event type registry: the closed enumeration of event kinds and the
//! bidirectional mapping between kinds and the numeric bit-flag tags the
//! native feed library delivers.
//!
//! The tags are bit flags, not sequential integers, because the native
//! library reuses the same numeric space as a subscription bitmask; the exact
//! values form a versioned compatibility contract with the native library's
//! own enumeration and must never be renumbered independently of it.

use vstd::prelude::*;
use vstd::string::StringExecFns;
use crate::error::Error;
use crate::text::{dec_seq, format_int};

verus! {

/// Tag of a trade event.
pub const DXF_ET_TRADE: i32 = 1;

/// Tag of a quote event.
pub const DXF_ET_QUOTE: i32 = 2;

/// Tag of a summary event.
pub const DXF_ET_SUMMARY: i32 = 4;

/// Tag of a profile event.
pub const DXF_ET_PROFILE: i32 = 8;

/// Tag of an order event.
pub const DXF_ET_ORDER: i32 = 16;

/// Tag of a time & sale event.
pub const DXF_ET_TIME_AND_SALE: i32 = 32;

/// Tag of a candle event.
pub const DXF_ET_CANDLE: i32 = 64;

/// Tag of an extended-trading-hours trade event.
pub const DXF_ET_TRADE_ETH: i32 = 128;

/// Tag of a spread order event.
pub const DXF_ET_SPREAD_ORDER: i32 = 256;

/// Tag of a greeks event.
pub const DXF_ET_GREEKS: i32 = 512;

/// Tag of a theoretical price event.
pub const DXF_ET_THEO_PRICE: i32 = 1024;

/// Tag of an underlying event.
pub const DXF_ET_UNDERLYING: i32 = 2048;

/// Tag of a series event.
pub const DXF_ET_SERIES: i32 = 4096;

/// Tag of a configuration event.
pub const DXF_ET_CONFIGURATION: i32 = 8192;

/// Mask of every bit above the known kinds, reserved for future event kinds;
/// exposed but never matched to a concrete kind.
pub const DXF_ET_UNUSED: u32 = 0xFFFF_C000;

/// The symbolic identity of one of the event kinds the feed delivers.
#[derive(Clone, Copy, Debug, Hash, PartialEq, Eq, Structural)]
pub enum EventType {
    Trade,
    Quote,
    Summary,
    Profile,
    Order,
    TimeAndSale,
    Candle,
    TradeETH,
    SpreadOrder,
    Greeks,
    TheoPrice,
    Underlying,
    Series,
    Configuration,
}

impl EventType {
    /// The numeric bit-flag tag bound to this kind.
    pub open spec fn tag_spec(self) -> i32 {
        match self {
            EventType::Trade => DXF_ET_TRADE,
            EventType::Quote => DXF_ET_QUOTE,
            EventType::Summary => DXF_ET_SUMMARY,
            EventType::Profile => DXF_ET_PROFILE,
            EventType::Order => DXF_ET_ORDER,
            EventType::TimeAndSale => DXF_ET_TIME_AND_SALE,
            EventType::Candle => DXF_ET_CANDLE,
            EventType::TradeETH => DXF_ET_TRADE_ETH,
            EventType::SpreadOrder => DXF_ET_SPREAD_ORDER,
            EventType::Greeks => DXF_ET_GREEKS,
            EventType::TheoPrice => DXF_ET_THEO_PRICE,
            EventType::Underlying => DXF_ET_UNDERLYING,
            EventType::Series => DXF_ET_SERIES,
            EventType::Configuration => DXF_ET_CONFIGURATION,
        }
    }

    /// The display name of this kind.
    pub open spec fn name_spec(self) -> Seq<char> {
        match self {
            EventType::Trade => "Trade"@,
            EventType::Quote => "Quote"@,
            EventType::Summary => "Summary"@,
            EventType::Profile => "Profile"@,
            EventType::Order => "Order"@,
            EventType::TimeAndSale => "TimeAndSale"@,
            EventType::Candle => "Candle"@,
            EventType::TradeETH => "TradeETH"@,
            EventType::SpreadOrder => "SpreadOrder"@,
            EventType::Greeks => "Greeks"@,
            EventType::TheoPrice => "TheoPrice"@,
            EventType::Underlying => "Underlying"@,
            EventType::Series => "Series"@,
            EventType::Configuration => "Configuration"@,
        }
    }

    /// The numeric tag bound to this kind.
    pub fn tag(self) -> (t: i32)
        ensures
            t == self.tag_spec(),
    {
        match self {
            EventType::Trade => DXF_ET_TRADE,
            EventType::Quote => DXF_ET_QUOTE,
            EventType::Summary => DXF_ET_SUMMARY,
            EventType::Profile => DXF_ET_PROFILE,
            EventType::Order => DXF_ET_ORDER,
            EventType::TimeAndSale => DXF_ET_TIME_AND_SALE,
            EventType::Candle => DXF_ET_CANDLE,
            EventType::TradeETH => DXF_ET_TRADE_ETH,
            EventType::SpreadOrder => DXF_ET_SPREAD_ORDER,
            EventType::Greeks => DXF_ET_GREEKS,
            EventType::TheoPrice => DXF_ET_THEO_PRICE,
            EventType::Underlying => DXF_ET_UNDERLYING,
            EventType::Series => DXF_ET_SERIES,
            EventType::Configuration => DXF_ET_CONFIGURATION,
        }
    }

    /// The display name of this kind.
    pub fn name(self) -> (r: &'static str)
        ensures
            r@ == self.name_spec(),
    {
        match self {
            EventType::Trade => "Trade",
            EventType::Quote => "Quote",
            EventType::Summary => "Summary",
            EventType::Profile => "Profile",
            EventType::Order => "Order",
            EventType::TimeAndSale => "TimeAndSale",
            EventType::Candle => "Candle",
            EventType::TradeETH => "TradeETH",
            EventType::SpreadOrder => "SpreadOrder",
            EventType::Greeks => "Greeks",
            EventType::TheoPrice => "TheoPrice",
            EventType::Underlying => "Underlying",
            EventType::Series => "Series",
            EventType::Configuration => "Configuration",
        }
    }

    /// Resolve a numeric tag to its kind; total and panic-free for any tag,
    /// including attacker-controlled or future-version values.
    pub fn try_from(value: i32) -> (r: Result<EventType, Error>)
        ensures
            r == (match kind_from_tag(value) {
                Some(k) => Ok::<EventType, Error>(k),
                None => Err::<EventType, Error>(Error::Invalid(value)),
            }),
    {
        match value {
            DXF_ET_TRADE => Ok(EventType::Trade),
            DXF_ET_QUOTE => Ok(EventType::Quote),
            DXF_ET_SUMMARY => Ok(EventType::Summary),
            DXF_ET_PROFILE => Ok(EventType::Profile),
            DXF_ET_ORDER => Ok(EventType::Order),
            DXF_ET_TIME_AND_SALE => Ok(EventType::TimeAndSale),
            DXF_ET_CANDLE => Ok(EventType::Candle),
            DXF_ET_TRADE_ETH => Ok(EventType::TradeETH),
            DXF_ET_SPREAD_ORDER => Ok(EventType::SpreadOrder),
            DXF_ET_GREEKS => Ok(EventType::Greeks),
            DXF_ET_THEO_PRICE => Ok(EventType::TheoPrice),
            DXF_ET_UNDERLYING => Ok(EventType::Underlying),
            DXF_ET_SERIES => Ok(EventType::Series),
            DXF_ET_CONFIGURATION => Ok(EventType::Configuration),
            _ => Err(Error::Invalid(value)),
        }
    }

    /// Diagnostic description of a numeric tag: the kind's display name when
    /// known, else a placeholder carrying the literal numeric value. Never
    /// fails, whatever the input.
    pub fn to_string(value: i32) -> (r: String)
        ensures
            r@ == describe_spec(value),
    {
        match Self::try_from(value) {
            Ok(kind) => String::from_str(kind.name()),
            Err(_) => {
                let mut s = String::from_str("<Unknown>(");
                let num = format_int(value);
                s.append(num.as_str());
                s.append(")");
                s
            },
        }
    }
}

/// The kind a numeric tag resolves to, if any.
pub open spec fn kind_from_tag(tag: i32) -> Option<EventType> {
    if tag == DXF_ET_TRADE {
        Some(EventType::Trade)
    } else if tag == DXF_ET_QUOTE {
        Some(EventType::Quote)
    } else if tag == DXF_ET_SUMMARY {
        Some(EventType::Summary)
    } else if tag == DXF_ET_PROFILE {
        Some(EventType::Profile)
    } else if tag == DXF_ET_ORDER {
        Some(EventType::Order)
    } else if tag == DXF_ET_TIME_AND_SALE {
        Some(EventType::TimeAndSale)
    } else if tag == DXF_ET_CANDLE {
        Some(EventType::Candle)
    } else if tag == DXF_ET_TRADE_ETH {
        Some(EventType::TradeETH)
    } else if tag == DXF_ET_SPREAD_ORDER {
        Some(EventType::SpreadOrder)
    } else if tag == DXF_ET_GREEKS {
        Some(EventType::Greeks)
    } else if tag == DXF_ET_THEO_PRICE {
        Some(EventType::TheoPrice)
    } else if tag == DXF_ET_UNDERLYING {
        Some(EventType::Underlying)
    } else if tag == DXF_ET_SERIES {
        Some(EventType::Series)
    } else if tag == DXF_ET_CONFIGURATION {
        Some(EventType::Configuration)
    } else {
        None
    }
}

/// What describing a tag yields: the kind's name when the tag is known, else
/// the unknown-tag placeholder around the tag's decimal value.
pub open spec fn describe_spec(tag: i32) -> Seq<char> {
    match kind_from_tag(tag) {
        Some(k) => k.name_spec(),
        None => "<Unknown>("@ + dec_seq(tag as int) + ")"@,
    }
}

/// The tag-to-kind mapping inverts the kind-to-tag mapping: resolving a
/// kind's own tag gives back exactly that kind.
pub proof fn lemma_kind_tag_round_trip(k: EventType)
    ensures
        kind_from_tag(k.tag_spec()) == Some(k),
{
}

/// A tag is resolved to a kind exactly when it is one of the known kinds'
/// tags: everything else, zero, negative values and the reserved mask
/// included, is unrecognized.
pub proof fn lemma_unknown_tag(tag: i32)
    ensures
        kind_from_tag(tag) is None <==> forall|k: EventType| tag != #[trigger] k.tag_spec(),
{
    match kind_from_tag(tag) {
        Some(k0) => {
            assert(tag == k0.tag_spec());
        },
        None => {},
    }
}

} // verus!
