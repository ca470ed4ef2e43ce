use exchange_feed::binance::Binance;
use exchange_feed::common::Service;
use exchange_feed::config::{core_pin, BinanceConfig, Config, ConfigError, OkxConfig};
use exchange_feed::connection::{connect, Action, Event};
use exchange_feed::okx::OKX;
use exchange_feed::runner::{connect_on_thread, RetryState, RunnerStep, BACKOFF_SECS, MAX_ATTEMPTS};

fn config(enable: bool) -> Config {
    Config {
        binance: BinanceConfig {
            base_url: String::from("wss://stream.binance.com:9443/ws/"),
            symbol: String::from("btcusdt@kline_1m"),
            enable,
            pin: 4,
        },
        okx: OkxConfig {
            base_url: String::from("wss://ws.okx.com:8443/ws/v5/business"),
            symbol: String::from("BTC-USDT@candle1m"),
            enable,
            pin: -1,
        },
    }
}

/// What a run of the retry loop did, as the thread of a feed would do it.
struct Run {
    connects: u32,
    sleeps: Vec<u64>,
    stops: Vec<String>,
    last: Option<Result<String, String>>,
}

/// One connection over a socket that opens or not, and that ends at once
/// where it opens.
fn connect_once(feed: &Binance, opens: bool, run: &mut Run) -> Result<String, String> {
    let (mut conn, mut action) = connect(feed);
    loop {
        let event = match action {
            Action::Open(_) => {
                run.connects += 1;
                if opens {
                    Event::Opened
                } else {
                    Event::OpenFailed(String::from("refused"))
                }
            },
            Action::Greet { .. } => Event::Greeted,
            Action::Receive | Action::Deliver(_) => Event::Ended,
            Action::Finish(outcome) => return outcome,
            Action::Ignore => panic!("event out of turn"),
        };
        action = conn.advance(feed, event);
    }
}

fn run_feed(feed: &Binance, opens_from: u32) -> Run {
    let mut run = Run { connects: 0, sleeps: Vec::new(), stops: Vec::new(), last: None };
    let plan = connect_on_thread(feed, feed.core_pin());
    let mut retry = plan.retry;
    loop {
        let opens = run.connects + 1 >= opens_from;
        let outcome = connect_once(feed, opens, &mut run);
        let step = retry.record(outcome.is_ok());
        run.last = Some(outcome);
        match step {
            RunnerStep::Exit => return run,
            RunnerStep::Retry { delay_secs } => run.sleeps.push(delay_secs),
            RunnerStep::GiveUp => {
                run.stops.push(feed.stop());
                return run;
            },
        }
        assert!(run.connects < 100);
    }
}

#[test]
fn failing_feed_is_tried_five_times_then_stopped_once() {
    let feed = Binance::new(&config(true)).unwrap();
    let run = run_feed(&feed, u32::MAX);
    assert_eq!(run.connects, 5);
    assert_eq!(run.sleeps, vec![30, 30, 30, 30]);
    assert_eq!(run.stops, vec![String::from("Stopping Service: Binance")]);
    assert_eq!(run.last, Some(Err(String::from("Error Connecting: refused"))));
}

#[test]
fn feed_that_connects_at_once_is_never_retried() {
    let feed = Binance::new(&config(true)).unwrap();
    let run = run_feed(&feed, 1);
    assert_eq!(run.connects, 1);
    assert!(run.sleeps.is_empty());
    assert!(run.stops.is_empty());
    assert_eq!(run.last, Some(Ok(String::from("Finished. Binance"))));
}

#[test]
fn feed_that_connects_at_the_last_attempt_is_not_stopped() {
    let feed = Binance::new(&config(true)).unwrap();
    let run = run_feed(&feed, 5);
    assert_eq!(run.connects, 5);
    assert_eq!(run.sleeps, vec![30, 30, 30, 30]);
    assert!(run.stops.is_empty());
    assert_eq!(run.last, Some(Ok(String::from("Finished. Binance"))));
}

#[test]
fn feed_that_connects_at_the_third_attempt() {
    let feed = Binance::new(&config(true)).unwrap();
    let run = run_feed(&feed, 3);
    assert_eq!(run.connects, 3);
    assert_eq!(run.sleeps, vec![30, 30]);
    assert!(run.stops.is_empty());
}

#[test]
fn disabled_feed_runs_without_a_single_connect() {
    let feed = Binance::new(&config(false)).unwrap();
    let run = run_feed(&feed, u32::MAX);
    assert_eq!(run.connects, 0);
    assert!(run.sleeps.is_empty());
    assert!(run.stops.is_empty());
    assert_eq!(run.last, Some(Ok(String::from("disabled"))));
}

#[test]
fn retry_state_starts_fresh() {
    let retry = RetryState::new();
    assert_eq!(retry.attempts(), 0);
    assert_eq!(retry.max_attempts(), 5);
    assert_eq!(retry.backoff_secs(), 30);
    assert_eq!(MAX_ATTEMPTS, 5);
    assert_eq!(BACKOFF_SECS, 30);
}

#[test]
fn retry_state_counts_failures_only() {
    let mut retry = RetryState::new();
    assert_eq!(retry.record(false), RunnerStep::Retry { delay_secs: 30 });
    assert_eq!(retry.attempts(), 1);
    assert_eq!(retry.record(true), RunnerStep::Exit);
    assert_eq!(retry.attempts(), 1);
    assert_eq!(retry.record(false), RunnerStep::Retry { delay_secs: 30 });
    assert_eq!(retry.record(false), RunnerStep::Retry { delay_secs: 30 });
    assert_eq!(retry.record(false), RunnerStep::Retry { delay_secs: 30 });
    assert_eq!(retry.attempts(), 4);
    assert_eq!(retry.record(false), RunnerStep::GiveUp);
    assert_eq!(retry.attempts(), 5);
    assert_eq!(retry.record(false), RunnerStep::GiveUp);
    assert_eq!(retry.attempts(), 5);
    assert_eq!(retry.record(true), RunnerStep::Exit);
    assert_eq!(retry.max_attempts(), 5);
    assert_eq!(retry.backoff_secs(), 30);
}

#[test]
fn thread_plan_names_the_feed_and_the_core() {
    let binance = Binance::new(&config(true)).unwrap();
    let plan = connect_on_thread(&binance, binance.core_pin());
    assert_eq!(plan.thread_name, "Binance");
    assert_eq!(plan.core_pin, Some(4));
    assert_eq!(plan.retry.attempts(), 0);
    let okx = OKX::new(&config(true)).unwrap();
    let plan = connect_on_thread(&okx, okx.core_pin());
    assert_eq!(plan.thread_name, "OKXN");
    assert_eq!(plan.core_pin, None);
    let plan = connect_on_thread(&okx, Some(20));
    assert_eq!(plan.core_pin, Some(20));
    assert_eq!(plan.thread_name, Service::name(&okx));
}

#[test]
fn core_pin_is_none_below_zero() {
    assert_eq!(core_pin(-1), None);
    assert_eq!(core_pin(isize::MIN), None);
    assert_eq!(core_pin(0), Some(0));
    assert_eq!(core_pin(20), Some(20));
    assert_eq!(core_pin(isize::MAX), Some(isize::MAX as usize));
}

#[test]
fn config_error_in_words() {
    let error = ConfigError::IncorrectSymbol(String::from("BTC-USDT"));
    assert_eq!(error.message(), "incorrect symbol: BTC-USDT");
}
