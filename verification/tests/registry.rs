use dxfeed::kinds::{
    DXF_ET_CANDLE, DXF_ET_CONFIGURATION, DXF_ET_GREEKS, DXF_ET_ORDER, DXF_ET_PROFILE,
    DXF_ET_QUOTE, DXF_ET_SERIES, DXF_ET_SPREAD_ORDER, DXF_ET_SUMMARY, DXF_ET_THEO_PRICE,
    DXF_ET_TIME_AND_SALE, DXF_ET_TRADE, DXF_ET_TRADE_ETH, DXF_ET_UNDERLYING, DXF_ET_UNUSED,
};
use dxfeed::{Error, EventType};

#[test]
fn it_works() {
    let result = dxfeed::add(2, 2);
    assert_eq!(result, 4);
}

#[test]
fn tags_are_bit_flags() {
    assert_eq!(DXF_ET_TRADE, 1 << 0);
    assert_eq!(DXF_ET_QUOTE, 1 << 1);
    assert_eq!(DXF_ET_SUMMARY, 1 << 2);
    assert_eq!(DXF_ET_PROFILE, 1 << 3);
    assert_eq!(DXF_ET_ORDER, 1 << 4);
    assert_eq!(DXF_ET_TIME_AND_SALE, 1 << 5);
    assert_eq!(DXF_ET_CANDLE, 1 << 6);
    assert_eq!(DXF_ET_TRADE_ETH, 1 << 7);
    assert_eq!(DXF_ET_SPREAD_ORDER, 1 << 8);
    assert_eq!(DXF_ET_GREEKS, 1 << 9);
    assert_eq!(DXF_ET_THEO_PRICE, 1 << 10);
    assert_eq!(DXF_ET_UNDERLYING, 1 << 11);
    assert_eq!(DXF_ET_SERIES, 1 << 12);
    assert_eq!(DXF_ET_CONFIGURATION, 1 << 13);
    assert_eq!(DXF_ET_UNUSED, !((1u32 << 14) - 1));
}

#[test]
fn kind_tag_round_trip() {
    let kinds = [
        EventType::Trade,
        EventType::Quote,
        EventType::Summary,
        EventType::Profile,
        EventType::Order,
        EventType::TimeAndSale,
        EventType::Candle,
        EventType::TradeETH,
        EventType::SpreadOrder,
        EventType::Greeks,
        EventType::TheoPrice,
        EventType::Underlying,
        EventType::Series,
        EventType::Configuration,
    ];
    for kind in kinds {
        assert_eq!(EventType::try_from(kind.tag()), Ok(kind));
    }
}

#[test]
fn unknown_tags_are_rejected() {
    for tag in [0, -1, 3, 5, 1 << 14, i32::MIN, DXF_ET_UNUSED as i32] {
        assert_eq!(EventType::try_from(tag), Err(Error::Invalid(tag)));
    }
}

#[test]
fn describe_known_tag() {
    assert_eq!(EventType::to_string(DXF_ET_QUOTE), "Quote");
    assert_eq!(EventType::to_string(DXF_ET_TIME_AND_SALE), "TimeAndSale");
    assert_eq!(EventType::to_string(DXF_ET_CONFIGURATION), "Configuration");
}

#[test]
fn describe_unknown_tag() {
    assert_eq!(EventType::to_string(0), "<Unknown>(0)");
    assert_eq!(EventType::to_string(3), "<Unknown>(3)");
    assert_eq!(EventType::to_string(16384), "<Unknown>(16384)");
    assert_eq!(EventType::to_string(-7), "<Unknown>(-7)");
    assert_eq!(EventType::to_string(i32::MIN), "<Unknown>(-2147483648)");
}

#[test]
fn kind_names() {
    assert_eq!(EventType::Trade.name(), "Trade");
    assert_eq!(EventType::SpreadOrder.name(), "SpreadOrder");
}

#[test]
fn error_messages() {
    assert_eq!(Error::Invalid(3).message(), "Invalid event_type: `3`");
    assert_eq!(Error::Invalid(-42).message(), "Invalid event_type: `-42`");
    assert_eq!(Error::Utf32Error.message(), "Converting from UTF-32");
    assert_eq!(Error::Unknown.message(), "Unknown error");
}
