use exchange_feed::binance::Binance;
use exchange_feed::candle::{candle_stick, CandleStickBuilder};
use exchange_feed::common::{create_exchange, Exchange, ExchangeFeed, Frame, Service};
use exchange_feed::config::{BinanceConfig, Config, OkxConfig};
use exchange_feed::json::Json;
use exchange_feed::reading::Reading;

fn config(enable: bool, pin: isize) -> Config {
    Config {
        binance: BinanceConfig {
            base_url: String::from("wss://stream.binance.com:9443/ws/"),
            symbol: String::from("btcusdt@kline_1m"),
            enable,
            pin,
        },
        okx: OkxConfig {
            base_url: String::from("wss://ws.okx.com:8443/ws/v5/business"),
            symbol: String::from("BTC-USDT@candle1m"),
            enable: true,
            pin: -1,
        },
    }
}

fn fresh_candle() -> candle_stick {
    CandleStickBuilder::new().source(String::from("Binance")).build()
}

fn float_of(reading: &Reading) -> f64 {
    reading.as_str().parse::<f64>().unwrap_or(0.0)
}

fn same_candle(a: &candle_stick, b: &candle_stick) -> bool {
    a.source == b.source
        && a.ts == b.ts
        && a.o.as_str() == b.o.as_str()
        && a.h.as_str() == b.h.as_str()
        && a.l.as_str() == b.l.as_str()
        && a.c.as_str() == b.c.as_str()
        && a.v.as_str() == b.v.as_str()
}

#[test]
fn binance_kline_updates_the_candle() {
    let mut candle = fresh_candle();
    let frame = Binance::parse_text(
        "{\"k\":{\"t\":123,\"o\":\"1.1\",\"h\":\"2.2\",\"l\":\"0.9\",\"c\":\"1.5\",\"v\":\"100\"}}",
        &mut candle,
    );
    assert_eq!(candle.source, "Binance");
    assert_eq!(candle.ts, 123);
    assert_eq!(float_of(&candle.o), 1.1);
    assert_eq!(float_of(&candle.h), 2.2);
    assert_eq!(float_of(&candle.l), 0.9);
    assert_eq!(float_of(&candle.c), 1.5);
    assert_eq!(float_of(&candle.v), 100.0);
    match frame {
        Frame::Ticks(ticks) => {
            assert_eq!(ticks.len(), 1);
            assert!(same_candle(&ticks[0], &candle));
        },
        other => panic!("not market data: {:?}", other),
    }
}

#[test]
fn binance_real_frame_with_more_members() {
    let text = "{\"e\":\"kline\",\"E\":1672515782136,\"s\":\"BTCUSDT\",\"k\":{\"t\":1672515780000,\
        \"T\":1672515839999,\"s\":\"BTCUSDT\",\"i\":\"1m\",\"f\":100,\"L\":200,\"o\":\"0.0010\",\
        \"c\":\"0.0020\",\"h\":\"0.0025\",\"l\":\"0.0015\",\"v\":\"1000\",\"n\":100,\"x\":false,\
        \"q\":\"1.0000\",\"V\":\"500\",\"Q\":\"0.500\",\"B\":\"123456\"}}";
    let mut candle = fresh_candle();
    let frame = Binance::parse_text(text, &mut candle);
    assert!(matches!(frame, Frame::Ticks(_)));
    assert_eq!(candle.ts, 1672515780000);
    assert_eq!(candle.o.as_str(), "0.0010");
    assert_eq!(candle.h.as_str(), "0.0025");
    assert_eq!(candle.l.as_str(), "0.0015");
    assert_eq!(candle.c.as_str(), "0.0020");
    assert_eq!(candle.v.as_str(), "1000");
    assert_eq!(float_of(&candle.c), 0.002);
}

#[test]
fn binance_malformed_quote_reads_zero() {
    let mut candle = fresh_candle();
    let frame = Binance::parse_text(
        "{\"k\":{\"t\":5,\"o\":\"abc\",\"h\":\"\",\"l\":\"1,5\",\"c\":\" 2\",\"v\":\"7.5\"}}",
        &mut candle,
    );
    assert!(matches!(frame, Frame::Ticks(_)));
    assert_eq!(candle.ts, 5);
    assert_eq!(float_of(&candle.o), 0.0);
    assert_eq!(float_of(&candle.h), 0.0);
    assert_eq!(float_of(&candle.l), 0.0);
    assert_eq!(float_of(&candle.c), 0.0);
    assert_eq!(float_of(&candle.v), 7.5);
    assert_eq!(candle.o.as_str(), "0.0");
}

#[test]
fn binance_each_update_overwrites_the_last() {
    let mut candle = fresh_candle();
    Binance::parse_text(
        "{\"k\":{\"t\":1,\"o\":\"1\",\"h\":\"2\",\"l\":\"3\",\"c\":\"4\",\"v\":\"5\"}}",
        &mut candle,
    );
    Binance::parse_text(
        "{\"k\":{\"t\":2,\"o\":\"x\",\"h\":\"20\",\"l\":\"30\",\"c\":\"40\",\"v\":\"50\"}}",
        &mut candle,
    );
    assert_eq!(candle.ts, 2);
    assert_eq!(float_of(&candle.o), 0.0);
    assert_eq!(float_of(&candle.h), 20.0);
    assert_eq!(float_of(&candle.v), 50.0);
}

#[test]
fn binance_undecodable_frames_leave_the_candle() {
    let frames = [
        "",
        "not json",
        "{}",
        "[]",
        "null",
        "{\"k\":null}",
        "{\"k\":[]}",
        "{\"k\":{}}",
        "{\"k\":{\"t\":123,\"o\":\"1.1\",\"h\":\"2.2\",\"l\":\"0.9\",\"c\":\"1.5\"}}",
        "{\"k\":{\"o\":\"1.1\",\"h\":\"2.2\",\"l\":\"0.9\",\"c\":\"1.5\",\"v\":\"100\"}}",
        "{\"k\":{\"t\":\"123\",\"o\":\"1.1\",\"h\":\"2.2\",\"l\":\"0.9\",\"c\":\"1.5\",\"v\":\"100\"}}",
        "{\"k\":{\"t\":-1,\"o\":\"1.1\",\"h\":\"2.2\",\"l\":\"0.9\",\"c\":\"1.5\",\"v\":\"100\"}}",
        "{\"k\":{\"t\":1.5,\"o\":\"1.1\",\"h\":\"2.2\",\"l\":\"0.9\",\"c\":\"1.5\",\"v\":\"100\"}}",
        "{\"k\":{\"t\":123,\"o\":1.1,\"h\":\"2.2\",\"l\":\"0.9\",\"c\":\"1.5\",\"v\":\"100\"}}",
        "{\"k\":{\"t\":123,\"o\":\"1.1\",\"h\":\"2.2\",\"l\":\"0.9\",\"c\":\"1.5\",\"v\":null}}",
        "{\"K\":{\"t\":123,\"o\":\"1.1\",\"h\":\"2.2\",\"l\":\"0.9\",\"c\":\"1.5\",\"v\":\"100\"}}",
        "{\"result\":null,\"id\":1}",
    ];
    for text in frames {
        let mut candle = fresh_candle();
        candle.ts = 77;
        candle.o = Reading::parse("3.5");
        let frame = Binance::parse_text(text, &mut candle);
        assert!(matches!(frame, Frame::Malformed), "frame {:?}", text);
        assert_eq!(candle.source, "Binance");
        assert_eq!(candle.ts, 77);
        assert_eq!(candle.o.as_str(), "3.5");
        assert_eq!(candle.h.as_str(), "0.0");
    }
}

#[test]
fn binance_apply_reads_a_decoded_frame() {
    let k = Json::Object(vec![
        (String::from("t"), Json::Number(Some(9))),
        (String::from("o"), Json::Text(String::from("1"))),
        (String::from("h"), Json::Text(String::from("2"))),
        (String::from("l"), Json::Text(String::from("3"))),
        (String::from("c"), Json::Text(String::from("4"))),
        (String::from("v"), Json::Text(String::from("bad"))),
    ]);
    let doc = Some(Json::Object(vec![(String::from("k"), k)]));
    let mut candle = fresh_candle();
    let frame = Binance::apply(&doc, &mut candle);
    assert!(matches!(frame, Frame::Ticks(_)));
    assert_eq!(candle.ts, 9);
    assert_eq!(candle.l.as_str(), "3");
    assert_eq!(candle.v.as_str(), "0.0");
    let mut other = fresh_candle();
    assert!(matches!(Binance::apply(&None, &mut other), Frame::Malformed));
    assert!(matches!(Binance::apply(&Some(Json::Null), &mut other), Frame::Malformed));
    assert_eq!(other.ts, 0);
}

#[test]
fn binance_symbol_goes_into_the_url() {
    assert!(Binance::check_symbol("btcusdt@kline_1m"));
    assert!(Binance::check_symbol(""));
    assert_eq!(Binance::get_sub_channel("btcusdt@kline_1m"), ("btcusdt@kline_1m", ""));
    assert_eq!(
        Binance::get_connection_str("wss://stream.binance.com:9443/ws/", "btcusdt@kline_1m"),
        "wss://stream.binance.com:9443/ws/btcusdt@kline_1m"
    );
    assert_eq!(Binance::send_subscribe("", "btcusdt@kline_1m"), None);
}

#[test]
fn binance_new_takes_its_section_of_the_config() {
    let feed = Binance::new(&config(true, 3)).unwrap();
    assert_eq!(feed.name(), "Binance");
    assert_eq!(feed.base_url(), "wss://stream.binance.com:9443/ws/");
    assert_eq!(feed.symbol(), "btcusdt@kline_1m");
    assert!(feed.enable());
    assert_eq!(feed.core_pin(), Some(3));
    assert_eq!(feed.service.name(), "Binance");
    let off = Binance::new(&config(false, -1)).unwrap();
    assert!(!off.enable());
    assert_eq!(off.core_pin(), None);
}

#[test]
fn binance_is_a_service() {
    let feed = Binance::new(&config(true, 0)).unwrap();
    assert_eq!(Service::name(&feed), "Binance");
    assert_eq!(Service::symbol(&feed), "btcusdt@kline_1m");
    assert_eq!(Service::base(&feed), "wss://stream.binance.com:9443/ws/");
    assert!(Service::enable(&feed));
    assert_eq!(feed.start(), "Starting Service: Binance");
    assert_eq!(feed.stop(), "Stopping Service: Binance");
}

#[test]
fn create_exchange_makes_the_binance_feed() {
    let feed: Binance = create_exchange(&config(true, 2));
    assert_eq!(feed.name(), "Binance");
    assert_eq!(feed.symbol(), "btcusdt@kline_1m");
    assert_eq!(feed.core_pin(), Some(2));
    let again = <Binance as Exchange>::new(&config(false, -5));
    assert!(!again.enable());
    assert_eq!(again.core_pin(), None);
}
