use crate::text::join;
use vstd::prelude::*;

verus! {

/// The settings of the Binance feed.
#[derive(Debug)]
pub struct BinanceConfig {
    pub base_url: String,
    pub symbol: String,
    pub enable: bool,
    /// The processor core for the feed's thread; a negative number asks for
    /// none.
    pub pin: isize,
}

/// The settings of the OKX feed.
#[derive(Debug)]
pub struct OkxConfig {
    pub base_url: String,
    pub symbol: String,
    pub enable: bool,
    /// The processor core for the feed's thread; a negative number asks for
    /// none.
    pub pin: isize,
}

/// The settings of every feed, one section for each exchange.
#[derive(Debug)]
pub struct Config {
    pub binance: BinanceConfig,
    pub okx: OkxConfig,
}

/// Why a feed could not be made from its settings.
#[derive(Debug)]
pub enum ConfigError {
    /// The symbol is not written as the exchange wants it. It holds the
    /// symbol.
    IncorrectSymbol(String),
}

impl ConfigError {
    /// The error in words.
    pub fn message(&self) -> (r: String)
        ensures
            self matches ConfigError::IncorrectSymbol(symbol) ==> r@ == "incorrect symbol: "@
                + symbol@,
    {
        match self {
            ConfigError::IncorrectSymbol(symbol) => join("incorrect symbol: ", symbol.as_str()),
        }
    }
}

/// The core that the setting `pin` names: `pin` itself from zero on, none
/// below zero.
pub open spec fn pinned_core(pin: isize) -> Option<usize> {
    if pin >= 0 {
        Some(pin as usize)
    } else {
        None
    }
}

/// The core to which a feed's thread is bound under the setting `pin`.
pub fn core_pin(pin: isize) -> (r: Option<usize>)
    ensures
        r == pinned_core(pin),
{
    if pin >= 0 {
        Some(pin as usize)
    } else {
        None
    }
}

} // verus!
