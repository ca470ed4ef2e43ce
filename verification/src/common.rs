use crate::candle::{candle_stick, CandleView};
use crate::config::Config;
use crate::text::join;
use vstd::prelude::*;

verus! {

/// One exchange connection's identity and settings as contracts see them.
pub struct ServiceView {
    pub base_url: Seq<char>,
    pub symbol: Seq<char>,
    pub enable: bool,
    pub name: Seq<char>,
    pub core_pin: Option<usize>,
}

/// What every service says of itself, and its two lifecycle hooks.
pub trait Service {
    /// The identity and settings of this service.
    spec fn descriptor(&self) -> ServiceView;

    /// The name of the exchange.
    fn name(&self) -> (r: &str)
        ensures
            r@ == self.descriptor().name,
    ;

    /// The symbol as it was configured.
    fn symbol(&self) -> (r: &str)
        ensures
            r@ == self.descriptor().symbol,
    ;

    /// The base URL of the exchange's endpoint.
    fn base(&self) -> (r: &str)
        ensures
            r@ == self.descriptor().base_url,
    ;

    /// Whether the service is switched on.
    fn enable(&self) -> (r: bool)
        ensures
            r == self.descriptor().enable,
    ;

    /// Called when the service starts. Hands back the line that announces it.
    fn start(&self) -> (line: String)
        ensures
            line@ == "Starting Service: "@ + self.descriptor().name,
    {
        join("Starting Service: ", self.name())
    }

    /// Called when the service is stopped for good. Hands back the line that
    /// announces it.
    fn stop(&self) -> (line: String)
        ensures
            line@ == "Stopping Service: "@ + self.descriptor().name,
    {
        join("Stopping Service: ", self.name())
    }
}

/// An exchange that can be made from the settings.
pub trait Exchange: Sized {
    /// Whether `made` is this exchange as `config` describes it.
    spec fn built(config: &Config, made: &Self) -> bool;

    /// The exchange that `config` describes.
    fn new(config: &Config) -> (r: Self)
        ensures
            Self::built(config, &r),
    ;
}

/// The exchange of kind `T` that `config` describes.
pub fn create_exchange<T: Exchange>(config: &Config) -> (r: T)
    ensures
        T::built(config, &r),
{
    T::new(config)
}

/// The identity and settings of one exchange connection. Nothing changes
/// them once they are made.
#[derive(Debug)]
pub struct BasicService {
    base_url: String,
    symbol: String,
    enable: bool,
    name: String,
    core_pin: Option<usize>,
}

impl View for BasicService {
    type V = ServiceView;

    closed spec fn view(&self) -> ServiceView {
        ServiceView {
            base_url: self.base_url@,
            symbol: self.symbol@,
            enable: self.enable,
            name: self.name@,
            core_pin: self.core_pin,
        }
    }
}

impl BasicService {
    /// A service with these settings, bound to no core.
    pub fn new(base_url: String, symbol: String, enable: bool, name: String) -> (r: Self)
        ensures
            r@ == (ServiceView {
                base_url: base_url@,
                symbol: symbol@,
                enable: enable,
                name: name@,
                core_pin: None,
            }),
    {
        BasicService { base_url, symbol, enable, name, core_pin: None }
    }

    /// The same service, with its thread bound to `core_pin` where that names
    /// a core.
    pub fn pinned(self, core_pin: Option<usize>) -> (r: Self)
        ensures
            r@ == (ServiceView { core_pin: core_pin, ..self@ }),
    {
        let mut r = self;
        r.core_pin = core_pin;
        r
    }

    pub fn base_url(&self) -> (r: &str)
        ensures
            r@ == self@.base_url,
    {
        self.base_url.as_str()
    }

    pub fn enable(&self) -> (r: bool)
        ensures
            r == self@.enable,
    {
        self.enable
    }

    pub fn name(&self) -> (r: &str)
        ensures
            r@ == self@.name,
    {
        self.name.as_str()
    }

    pub fn symbol(&self) -> (r: &str)
        ensures
            r@ == self@.symbol,
    {
        self.symbol.as_str()
    }

    /// The core to which the feed's thread is to be bound, if any.
    pub fn core_pin(&self) -> (r: Option<usize>)
        ensures
            r == self@.core_pin,
    {
        self.core_pin
    }
}

/// What one text frame turned out to be.
#[derive(Debug)]
pub enum Frame {
    /// Market data. It holds the ticks that the frame carried, oldest first,
    /// each as the record stood once the tick was written to it.
    Ticks(Vec<candle_stick>),
    /// The exchange confirms a subscription.
    Subscribed,
    /// The exchange refuses a subscription.
    Refused,
    /// A frame that was understood and that says nothing of the market.
    Ignored,
    /// A frame that could not be decoded.
    Malformed,
}

/// A frame as contracts see it.
pub enum FrameView {
    Ticks(Seq<CandleView>),
    Subscribed,
    Refused,
    Ignored,
    Malformed,
}

/// The candlesticks of `ticks` as contracts see them.
pub open spec fn candle_views(ticks: Seq<candle_stick>) -> Seq<CandleView> {
    Seq::new(ticks.len(), |i: int| ticks[i]@)
}

impl View for Frame {
    type V = FrameView;

    open spec fn view(&self) -> FrameView {
        match self {
            Frame::Ticks(ticks) => FrameView::Ticks(candle_views(ticks@)),
            Frame::Subscribed => FrameView::Subscribed,
            Frame::Refused => FrameView::Refused,
            Frame::Ignored => FrameView::Ignored,
            Frame::Malformed => FrameView::Malformed,
        }
    }
}

/// Whether `after` and `frame` may be what a feed leaves of the record
/// `before` and makes of one text frame, whatever the exchange: the source
/// stays; only market data changes the record; and the last tick of a frame
/// is the record as the frame leaves it.
pub open spec fn keeps_record(before: CandleView, after: CandleView, frame: FrameView) -> bool {
    &&& after.source == before.source
    &&& match frame {
        FrameView::Ticks(ticks) => {
            &&& ticks.len() == 0 ==> after == before
            &&& ticks.len() > 0 ==> after == ticks.last()
            &&& forall|i: int| 0 <= i < ticks.len() ==> (#[trigger] ticks[i]).source == before.source
        },
        _ => after == before,
    }
}

/// What an exchange adapter provides: how its symbols are written, where to
/// connect, what to send first, and how its text frames are read. The
/// connection itself is run in the same way for every exchange.
pub trait ExchangeFeed: Service + Sized {
    /// Whether `symbol` is written as this exchange wants it.
    spec fn valid_symbol(symbol: Seq<char>) -> bool;

    /// The symbol of the stream and the channel that the configured `symbol`
    /// names.
    spec fn sub_channel(symbol: Seq<char>) -> (Seq<char>, Seq<char>);

    /// The URL to connect to for the stream `symbol` under `base`.
    spec fn connection_str(base: Seq<char>, symbol: Seq<char>) -> Seq<char>;

    /// The frame that asks for `channel` of `symbol`, where the exchange
    /// wants one.
    spec fn subscription(channel: Seq<char>, symbol: Seq<char>) -> Option<Seq<char>>;

    /// What the text frame `text` makes of the record `before`, and what kind
    /// of frame it is.
    spec fn parsed(text: Seq<char>, before: CandleView) -> (CandleView, FrameView);

    /// Tells whether `symbol` is written as this exchange wants it.
    fn check_symbol(symbol: &str) -> (r: bool)
        ensures
            r == Self::valid_symbol(symbol@),
    ;

    /// Decodes one text frame. Market data is written to `candle` and handed
    /// back tick by tick; any other frame, and one that cannot be decoded,
    /// leaves `candle` as it was.
    fn parse_text(text: &str, candle: &mut candle_stick) -> (frame: Frame)
        ensures
            (final(candle)@, frame@) == Self::parsed(text@, old(candle)@),
    ;

    /// Whatever the frame, the record keeps its source, only market data
    /// changes it, and the last tick of a frame is the record as the frame
    /// leaves it.
    proof fn lemma_parsed_keeps_record(text: Seq<char>, before: CandleView)
        ensures
            keeps_record(before, Self::parsed(text, before).0, Self::parsed(text, before).1),
    ;

    /// Splits a configured symbol into the symbol of the stream and the
    /// channel.
    fn get_sub_channel(symbol: &str) -> (r: (&str, &str))
        requires
            Self::valid_symbol(symbol@),
        ensures
            (r.0@, r.1@) == Self::sub_channel(symbol@),
    ;

    /// Composes the URL to connect to.
    fn get_connection_str(base: &str, symbol: &str) -> (r: String)
        ensures
            r@ == Self::connection_str(base@, symbol@),
    ;

    /// Composes the frame to send once the socket is open, where the
    /// exchange wants one.
    fn send_subscribe(channel: &str, symbol: &str) -> (r: Option<String>)
        ensures
            match r {
                Some(frame) => Self::subscription(channel@, symbol@) == Some(frame@),
                None => Self::subscription(channel@, symbol@) is None,
            },
    ;
}

} // verus!
