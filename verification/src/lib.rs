//! Candlestick ticks from cryptocurrency exchanges, normalised.
//!
//! An exchange is an [`common::ExchangeFeed`]: it says how its symbols are
//! written, where to connect, what to send first, and how its text frames are
//! read. [`connection`] runs a connection for any of them as a state machine
//! that is told what happened on the socket and answers what to do next, and
//! [`runner`] decides after each connection whether to try again. Sockets,
//! threads and clocks are the caller's; nothing here waits or does I/O.
//!
//! Prices and volumes are kept as the text that the exchange quoted
//! ([`reading::Reading`]), so no precision is lost on the way; a quote that is
//! no number reads as zero and never fails the frame that carries it.

pub mod binance;
pub mod candle;
pub mod common;
pub mod config;
pub mod connection;
pub mod json;
pub mod okx;
pub mod reading;
pub mod runner;
pub mod text;
