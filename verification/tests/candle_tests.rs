use exchange_feed::candle::{candle_stick, CandleStickBuilder};
use exchange_feed::reading::Reading;

fn float_of(reading: &Reading) -> f64 {
    reading.as_str().parse::<f64>().unwrap()
}

#[test]
fn builder_starts_blank() {
    let candle = CandleStickBuilder::new().build();
    assert_eq!(candle.source, "");
    assert_eq!(candle.ts, 0);
    assert_eq!(float_of(&candle.o), 0.0);
    assert_eq!(float_of(&candle.h), 0.0);
    assert_eq!(float_of(&candle.l), 0.0);
    assert_eq!(float_of(&candle.c), 0.0);
    assert_eq!(float_of(&candle.v), 0.0);
}

#[test]
fn builder_round_trip_keeps_every_value() {
    let candle = CandleStickBuilder::new()
        .source(String::from("Binance"))
        .ts(1_700_000_000_123)
        .o(Reading::parse("1.1"))
        .h(Reading::parse("2.2"))
        .l(Reading::parse("0.9"))
        .c(Reading::parse("1.5"))
        .v(Reading::parse("100"))
        .build();
    assert_eq!(candle.source, "Binance");
    assert_eq!(candle.ts, 1_700_000_000_123);
    assert_eq!(candle.o.as_str(), "1.1");
    assert_eq!(candle.h.as_str(), "2.2");
    assert_eq!(candle.l.as_str(), "0.9");
    assert_eq!(candle.c.as_str(), "1.5");
    assert_eq!(candle.v.as_str(), "100");
    assert_eq!(float_of(&candle.o), 1.1);
    assert_eq!(float_of(&candle.h), 2.2);
    assert_eq!(float_of(&candle.l), 0.9);
    assert_eq!(float_of(&candle.c), 1.5);
    assert_eq!(float_of(&candle.v), 100.0);
}

#[test]
fn builder_setters_in_any_order() {
    let candle = CandleStickBuilder::new()
        .v(Reading::parse("7"))
        .c(Reading::parse("6"))
        .ts(5)
        .l(Reading::parse("4"))
        .source(String::from("OKXN"))
        .h(Reading::parse("3"))
        .o(Reading::parse("2"))
        .build();
    assert_eq!(candle.source, "OKXN");
    assert_eq!(candle.ts, 5);
    assert_eq!(candle.o.as_str(), "2");
    assert_eq!(candle.h.as_str(), "3");
    assert_eq!(candle.l.as_str(), "4");
    assert_eq!(candle.c.as_str(), "6");
    assert_eq!(candle.v.as_str(), "7");
}

#[test]
fn builder_last_value_wins() {
    let candle = CandleStickBuilder::new().ts(1).ts(2).o(Reading::parse("1")).o(Reading::parse("9")).build();
    assert_eq!(candle.ts, 2);
    assert_eq!(candle.o.as_str(), "9");
    assert_eq!(candle.h.as_str(), "0.0");
}

#[test]
fn builder_partly_set_keeps_the_rest_blank() {
    let candle = CandleStickBuilder::new().c(Reading::parse("3.25")).build();
    assert_eq!(candle.source, "");
    assert_eq!(candle.ts, 0);
    assert_eq!(candle.o.as_str(), "0.0");
    assert_eq!(candle.c.as_str(), "3.25");
}

#[test]
fn candle_is_written_in_place() {
    let mut candle: candle_stick = CandleStickBuilder::new().source(String::from("x")).build();
    candle.ts = 42;
    candle.o = Reading::parse("12.5");
    assert_eq!(candle.ts, 42);
    assert_eq!(float_of(&candle.o), 12.5);
    assert_eq!(candle.source, "x");
}

#[test]
fn candle_clone_has_the_same_values() {
    let candle = CandleStickBuilder::new()
        .source(String::from("Binance"))
        .ts(9)
        .o(Reading::parse("1"))
        .h(Reading::parse("2"))
        .l(Reading::parse("3"))
        .c(Reading::parse("4"))
        .v(Reading::parse("5"))
        .build();
    let copy = candle.clone();
    assert_eq!(copy.source, candle.source);
    assert_eq!(copy.ts, 9);
    assert_eq!(copy.o.as_str(), "1");
    assert_eq!(copy.h.as_str(), "2");
    assert_eq!(copy.l.as_str(), "3");
    assert_eq!(copy.c.as_str(), "4");
    assert_eq!(copy.v.as_str(), "5");
}
