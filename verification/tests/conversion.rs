use dxfeed::kinds::{DXF_ET_ORDER, DXF_ET_QUOTE, DXF_ET_TRADE};
use dxfeed::records::{
    CandleData, GreeksData, QuoteData, RawConfiguration, RawOrder, RawProfile, RawSpreadOrder,
    RawTimeAndSale, SeriesData, SummaryData, TheoPriceData, TradeData, UnderlyingData,
};
use dxfeed::{Error, Event, EventData, EventType, RawEventData};

fn wide(s: &str) -> Vec<u32> {
    s.chars().map(|c| c as u32).collect()
}

fn sample_quote() -> QuoteData {
    QuoteData {
        time: 1_660_000_000_123,
        sequence: 7,
        time_nanos: 456_789,
        bid_time: 1_660_000_000_100,
        bid_exchange_code: 'Q' as u32,
        bid_price: (170.25f64).to_bits(),
        bid_size: (300.0f64).to_bits(),
        ask_time: 1_660_000_000_110,
        ask_exchange_code: 'N' as u32,
        ask_price: (170.27f64).to_bits(),
        ask_size: (200.0f64).to_bits(),
        scope: 0,
    }
}

fn sample_profile() -> RawProfile {
    RawProfile {
        beta: (1.23f64).to_bits(),
        eps: (6.1f64).to_bits(),
        div_freq: (4.0f64).to_bits(),
        exd_div_amount: (0.23f64).to_bits(),
        exd_div_date: 19_300,
        high_52_week_price: (182.94f64).to_bits(),
        low_52_week_price: (129.04f64).to_bits(),
        shares: (1.6e10f64).to_bits(),
        free_float: f64::NAN.to_bits(),
        high_limit_price: (190.0f64).to_bits(),
        low_limit_price: (120.0f64).to_bits(),
        halt_start_time: 0,
        halt_end_time: 0,
        raw_flags: 0b0011,
        description: wide("AAPL"),
        status_reason: wide(""),
        trading_status: 1,
        ssr: 0,
    }
}

fn sample_order() -> RawOrder {
    RawOrder {
        source: [0; 17],
        event_flags: 0,
        index: 42,
        time: 1_660_000_000_123,
        sequence: 3,
        time_nanos: 0,
        action: 1,
        action_time: 0,
        order_id: 9_001,
        aux_order_id: 0,
        price: (170.26f64).to_bits(),
        size: (100.0f64).to_bits(),
        executed_size: (0.0f64).to_bits(),
        count: (1.0f64).to_bits(),
        trade_id: 0,
        trade_price: (0.0f64).to_bits(),
        trade_size: (0.0f64).to_bits(),
        exchange_code: 'Q' as u32,
        side: 1,
        scope: 3,
        market_maker: wide("NSDQ"),
    }
}

fn sample_time_and_sale(valid_tick: i32, eth: i32, spread_leg: i32) -> RawTimeAndSale {
    RawTimeAndSale {
        event_flags: 0,
        index: 11,
        time: 1_660_000_000_200,
        exchange_code: 'D' as u32,
        price: (170.26f64).to_bits(),
        size: (50.0f64).to_bits(),
        bid_price: (170.25f64).to_bits(),
        ask_price: (170.27f64).to_bits(),
        exchange_sale_conditions: wide("@TI"),
        raw_flags: 0,
        buyer: wide(""),
        seller: wide(""),
        side: 2,
        kind: 0,
        is_valid_tick: valid_tick,
        is_eth_trade: eth,
        trade_through_exempt: 0,
        is_spread_leg: spread_leg,
        scope: 0,
    }
}

#[test]
fn plain_kind_is_copied_verbatim() {
    let quote = sample_quote();
    let data = RawEventData::Quote(quote);
    let payload = EventData::try_get_event_data(DXF_ET_QUOTE, &data).unwrap();
    assert_eq!(payload, EventData::Quote(quote));
    assert_eq!(payload.get_event_type(), DXF_ET_QUOTE);
}

#[test]
fn profile_strings_are_decoded() {
    let raw = sample_profile();
    let data = RawEventData::Profile(raw.clone());
    match EventData::try_get_event_data(8, &data).unwrap() {
        EventData::Profile(p) => {
            assert_eq!(p.description, "AAPL");
            assert_eq!(p.status_reason, "");
            assert_eq!(p.beta, raw.beta);
            assert_eq!(p.free_float, f64::NAN.to_bits());
            assert_eq!(p.raw_flags, raw.raw_flags);
        }
        other => panic!("expected a profile payload, got {:?}", other),
    }
}

#[test]
fn order_union_is_flattened_to_text() {
    let raw = sample_order();
    match EventData::try_get_event_data(DXF_ET_ORDER, &RawEventData::Order(raw.clone())).unwrap()
    {
        EventData::Order(o) => {
            assert_eq!(o.mm_or_spread, "NSDQ");
            assert_eq!(o.index, raw.index);
            assert_eq!(o.price, raw.price);
            assert_eq!(o.source, raw.source);
        }
        other => panic!("expected an order payload, got {:?}", other),
    }
}

#[test]
fn boolean_flags_are_normalized() {
    let raw = sample_time_and_sale(2, 0, 7);
    match EventData::try_get_event_data(32, &RawEventData::TimeAndSale(raw)).unwrap() {
        EventData::TimeAndSale(t) => {
            assert!(t.is_valid_tick);
            assert!(!t.is_eth_trade);
            assert!(t.is_spread_leg);
            assert_eq!(t.exchange_sale_conditions, "@TI");
            assert_eq!(t.buyer, "");
            assert_eq!(t.seller, "");
        }
        other => panic!("expected a time-and-sale payload, got {:?}", other),
    }
}

#[test]
fn spread_order_symbol_is_decoded() {
    let raw = RawSpreadOrder {
        index: 1,
        time: 2,
        time_nanos: 3,
        sequence: 4,
        action_time: 5,
        order_id: 6,
        aux_order_id: 7,
        price: (9.5f64).to_bits(),
        size: (10.0f64).to_bits(),
        executed_size: (0.0f64).to_bits(),
        count: (1.0f64).to_bits(),
        flags: 0,
        trade_id: 0,
        trade_price: (0.0f64).to_bits(),
        trade_size: (0.0f64).to_bits(),
        spread_symbol: wide("=2*AAPL"),
    };
    match EventData::try_get_event_data(256, &RawEventData::SpreadOrder(raw)).unwrap() {
        EventData::SpreadOrder(s) => {
            assert_eq!(s.spread_symbol, "=2*AAPL");
            assert_eq!(s.index, 1);
        }
        other => panic!("expected a spread order payload, got {:?}", other),
    }
}

#[test]
fn configuration_object_is_decoded() {
    let raw = RawConfiguration {
        version: 2,
        object: wide("{\"a\":1}"),
    };
    match EventData::try_get_event_data(8192, &RawEventData::Configuration(raw)).unwrap() {
        EventData::Configuration(c) => {
            assert_eq!(c.version, 2);
            assert_eq!(c.object, "{\"a\":1}");
        }
        other => panic!("expected a configuration payload, got {:?}", other),
    }
}

#[test]
fn invalid_code_point_is_a_decode_fault() {
    let mut raw = sample_profile();
    raw.description = vec![0xD800, 65];
    let r = EventData::try_get_event_data(8, &RawEventData::Profile(raw));
    assert_eq!(r, Err(Error::Utf32Error));

    let mut order = sample_order();
    order.market_maker = vec![0x11_0000];
    let r = EventData::try_get_event_data(DXF_ET_ORDER, &RawEventData::Order(order));
    assert_eq!(r, Err(Error::Utf32Error));
}

#[test]
fn invalid_symbol_builds_no_envelope() {
    let bad_sym = vec![0xDFFF_u32];
    let r = Event::try_from_c(DXF_ET_QUOTE, &bad_sym, &RawEventData::Quote(sample_quote()));
    assert_eq!(r, Err(Error::Utf32Error));
}

#[test]
fn unknown_tag_builds_no_envelope() {
    let sym = wide("AAPL");
    let r = Event::try_from_c(3, &sym, &RawEventData::Quote(sample_quote()));
    assert_eq!(r, Err(Error::Invalid(3)));
}

#[test]
fn mismatched_view_is_a_bug_signal() {
    let sym = wide("AAPL");
    let r = Event::try_from_c(DXF_ET_TRADE, &sym, &RawEventData::Quote(sample_quote()));
    assert_eq!(r, Err(Error::Unknown));
}

#[test]
fn quote_envelope_end_to_end() {
    let quote = sample_quote();
    let sym = wide("AAPL");
    let evt = Event::try_from_c(DXF_ET_QUOTE, &sym, &RawEventData::Quote(quote)).unwrap();
    assert_eq!(evt.sym, "AAPL");
    assert_eq!(evt.data, EventData::Quote(quote));
    assert_eq!(evt.data.get_event_type(), DXF_ET_QUOTE);
    assert_eq!(EventType::try_from(evt.data.get_event_type()), Ok(EventType::Quote));
    assert_eq!(f64::from_bits(quote.bid_price), 170.25);
}

#[test]
fn empty_wide_sequence_is_empty_text() {
    let raw = RawConfiguration {
        version: 1,
        object: Vec::new(),
    };
    match EventData::try_get_event_data(8192, &RawEventData::Configuration(raw)).unwrap() {
        EventData::Configuration(c) => assert_eq!(c.object, ""),
        other => panic!("expected a configuration payload, got {:?}", other),
    }
}

#[test]
fn envelope_construction_from_parts() {
    let quote = sample_quote();
    let evt = Event::new(String::from("IBM"), EventData::Quote(quote));
    assert_eq!(evt.sym, "IBM");
    assert_eq!(evt.data.get_event_type(), DXF_ET_QUOTE);
}

#[test]
fn every_plain_kind_is_copied() {
    let trade = TradeData {
        time: 1,
        sequence: 2,
        time_nanos: 3,
        exchange_code: 'A' as u32,
        price: (4.5f64).to_bits(),
        size: (6.0f64).to_bits(),
        tick: 1,
        change: (0.25f64).to_bits(),
        day_id: 7,
        day_volume: (8.0f64).to_bits(),
        day_turnover: (9.0f64).to_bits(),
        raw_flags: 10,
        direction: 11,
        is_eth: 1,
        scope: 0,
    };
    let summary = SummaryData {
        day_id: 1,
        day_open_price: (2.0f64).to_bits(),
        day_high_price: (3.0f64).to_bits(),
        day_low_price: (4.0f64).to_bits(),
        day_close_price: (5.0f64).to_bits(),
        prev_day_id: 6,
        prev_day_close_price: (7.0f64).to_bits(),
        prev_day_volume: (8.0f64).to_bits(),
        open_interest: (9.0f64).to_bits(),
        raw_flags: 10,
        exchange_code: 'B' as u32,
        day_close_price_type: 1,
        prev_day_close_price_type: 2,
        scope: 0,
    };
    let candle = CandleData {
        time: 1,
        sequence: 2,
        count: (3.0f64).to_bits(),
        open: (4.0f64).to_bits(),
        high: (5.0f64).to_bits(),
        low: (6.0f64).to_bits(),
        close: (7.0f64).to_bits(),
        volume: (8.0f64).to_bits(),
        vwap: (9.0f64).to_bits(),
        bid_volume: (10.0f64).to_bits(),
        ask_volume: (11.0f64).to_bits(),
        open_interest: (12.0f64).to_bits(),
        imp_volatility: (0.3f64).to_bits(),
    };
    let greeks = GreeksData {
        event_flags: 1,
        index: 2,
        time: 3,
        price: (4.0f64).to_bits(),
        volatility: (0.5f64).to_bits(),
        delta: (0.6f64).to_bits(),
        gamma: (0.7f64).to_bits(),
        theta: (0.8f64).to_bits(),
        rho: (0.9f64).to_bits(),
        vega: (1.0f64).to_bits(),
    };
    let theo = TheoPriceData {
        time: 1,
        price: (2.0f64).to_bits(),
        underlying_price: (3.0f64).to_bits(),
        delta: (0.4f64).to_bits(),
        gamma: (0.5f64).to_bits(),
        dividend: (0.6f64).to_bits(),
        interest: (0.7f64).to_bits(),
    };
    let underlying = UnderlyingData {
        volatility: (0.1f64).to_bits(),
        front_volatility: (0.2f64).to_bits(),
        back_volatility: (0.3f64).to_bits(),
        call_volume: (4.0f64).to_bits(),
        put_volume: (5.0f64).to_bits(),
        option_volume: (9.0f64).to_bits(),
        put_call_ratio: (0.8f64).to_bits(),
    };
    let series = SeriesData {
        event_flags: 1,
        index: 2,
        time: 3,
        sequence: 4,
        expiration: 5,
        volatility: (0.6f64).to_bits(),
        call_volume: (7.0f64).to_bits(),
        put_volume: (8.0f64).to_bits(),
        option_volume: (15.0f64).to_bits(),
        put_call_ratio: (0.9f64).to_bits(),
        forward_price: (10.0f64).to_bits(),
        dividend: (0.11f64).to_bits(),
        interest: (0.12f64).to_bits(),
    };

    let cases = [
        (1, RawEventData::Trade(trade), EventData::Trade(trade)),
        (2, RawEventData::Quote(sample_quote()), EventData::Quote(sample_quote())),
        (4, RawEventData::Summary(summary), EventData::Summary(summary)),
        (64, RawEventData::Candle(candle), EventData::Candle(candle)),
        (128, RawEventData::TradeETH(trade), EventData::TradeETH(trade)),
        (512, RawEventData::Greeks(greeks), EventData::Greeks(greeks)),
        (1024, RawEventData::TheoPrice(theo), EventData::TheoPrice(theo)),
        (2048, RawEventData::Underlying(underlying), EventData::Underlying(underlying)),
        (4096, RawEventData::Series(series), EventData::Series(series)),
    ];
    for (tag, raw, expected) in cases {
        let payload = EventData::try_get_event_data(tag, &raw).unwrap();
        assert_eq!(payload, expected);
        assert_eq!(payload.get_event_type(), tag);
    }
}

#[test]
fn trade_view_under_eth_tag_is_a_mismatch() {
    let quote = sample_quote();
    // a regular-trade view under the extended-hours tag is a foreign shape
    let r = EventData::try_get_event_data(128, &RawEventData::Quote(quote));
    assert_eq!(r, Err(Error::Unknown));
}
