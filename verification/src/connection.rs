use crate::candle::{blank, candle_stick, CandleStickBuilder, CandleView};
use crate::common::{ExchangeFeed, Frame, FrameView, ServiceView};
use crate::text::join;
use vstd::prelude::*;

verus! {

/// Where a connection stands.
#[derive(Debug, Clone, Copy, PartialEq, Eq, Structural)]
pub enum FeedState {
    /// The feed is switched off. Nothing was opened and nothing will be.
    Disabled,
    /// The socket was asked for.
    Connecting,
    /// The socket is open; the subscription, if any, is on its way.
    Connected,
    /// Frames are read one by one.
    Receiving,
    /// The socket could not be opened.
    ConnectFailed,
    /// The socket failed while frames were read.
    ReceiveFailed,
    /// The stream ended in good order.
    Finished,
}

/// What happened on the socket.
#[derive(Debug)]
pub enum Event {
    /// The socket is open.
    Opened,
    /// The socket could not be opened, and why.
    OpenFailed(String),
    /// The greeting was passed on and the subscription, if any, was sent.
    Greeted,
    /// A text frame came in.
    Text(String),
    /// A frame of another kind came in.
    Other,
    /// Reading failed, and why.
    ReadFailed(String),
    /// The stream ended.
    Ended,
}

/// An event as contracts see it.
pub enum EventView {
    Opened,
    OpenFailed(Seq<char>),
    Greeted,
    Text(Seq<char>),
    Other,
    ReadFailed(Seq<char>),
    Ended,
}

impl View for Event {
    type V = EventView;

    open spec fn view(&self) -> EventView {
        match self {
            Event::Opened => EventView::Opened,
            Event::OpenFailed(detail) => EventView::OpenFailed(detail@),
            Event::Greeted => EventView::Greeted,
            Event::Text(text) => EventView::Text(text@),
            Event::Other => EventView::Other,
            Event::ReadFailed(detail) => EventView::ReadFailed(detail@),
            Event::Ended => EventView::Ended,
        }
    }
}

/// What is to be done on the socket next.
#[derive(Debug)]
pub enum Action {
    /// Open a socket to this URL, and report `Opened` or `OpenFailed`.
    Open(String),
    /// Pass `notice` to whoever wants to know that the feed is connected,
    /// send `subscribe` where there is one, and report `Greeted`.
    Greet { notice: String, subscribe: Option<String> },
    /// Read the next frame, and report what came.
    Receive,
    /// Hand the frame to the sink, then read the next frame.
    Deliver(Frame),
    /// The connection is over, with this result.
    Finish(Result<String, String>),
    /// The event does not belong where the connection stands. Nothing has
    /// changed.
    Ignore,
}

/// An action as contracts see it.
pub enum ActionView {
    Open(Seq<char>),
    Greet { notice: Seq<char>, subscribe: Option<Seq<char>> },
    Receive,
    Deliver(FrameView),
    Finish(Result<Seq<char>, Seq<char>>),
    Ignore,
}

impl View for Action {
    type V = ActionView;

    open spec fn view(&self) -> ActionView {
        match self {
            Action::Open(url) => ActionView::Open(url@),
            Action::Greet { notice, subscribe } => ActionView::Greet {
                notice: notice@,
                subscribe: match subscribe {
                    Some(frame) => Some(frame@),
                    None => None,
                },
            },
            Action::Receive => ActionView::Receive,
            Action::Deliver(frame) => ActionView::Deliver(frame@),
            Action::Finish(result) => ActionView::Finish(
                match result {
                    Ok(status) => Ok(status@),
                    Err(error) => Err(error@),
                },
            ),
            Action::Ignore => ActionView::Ignore,
        }
    }
}

/// A connection as contracts see it.
pub struct ConnectionView {
    pub state: FeedState,
    pub symbol: Seq<char>,
    pub channel: Seq<char>,
    pub candle: CandleView,
}

/// The record with which a feed named `name` starts.
pub open spec fn first_candle(name: Seq<char>) -> CandleView {
    CandleView { source: name, ..blank() }
}

/// How the connection of the feed `d` starts, and what it asks for first.
pub open spec fn begin<F: ExchangeFeed>(d: ServiceView) -> (ConnectionView, ActionView) {
    if d.enable {
        let (symbol, channel) = F::sub_channel(d.symbol);
        (
            ConnectionView {
                state: FeedState::Connecting,
                symbol,
                channel,
                candle: first_candle(d.name),
            },
            ActionView::Open(F::connection_str(d.base_url, symbol)),
        )
    } else {
        (
            ConnectionView {
                state: FeedState::Disabled,
                symbol: Seq::empty(),
                channel: Seq::empty(),
                candle: first_candle(d.name),
            },
            ActionView::Finish(Ok("disabled"@)),
        )
    }
}

/// Where the connection `conn` of the feed `d` stands after `event`, and what
/// is to be done next.
pub open spec fn step<F: ExchangeFeed>(d: ServiceView, conn: ConnectionView, event: EventView) -> (
    ConnectionView,
    ActionView,
) {
    match (conn.state, event) {
        (FeedState::Connecting, EventView::Opened) => (
            ConnectionView { state: FeedState::Connected, ..conn },
            ActionView::Greet {
                notice: d.name + " connected."@,
                subscribe: F::subscription(conn.channel, conn.symbol),
            },
        ),
        (FeedState::Connecting, EventView::OpenFailed(detail)) => (
            ConnectionView { state: FeedState::ConnectFailed, ..conn },
            ActionView::Finish(Err("Error Connecting: "@ + detail)),
        ),
        (FeedState::Connected, EventView::Greeted) => (
            ConnectionView { state: FeedState::Receiving, ..conn },
            ActionView::Receive,
        ),
        (FeedState::Receiving, EventView::Text(text)) => (
            ConnectionView { candle: F::parsed(text, conn.candle).0, ..conn },
            ActionView::Deliver(F::parsed(text, conn.candle).1),
        ),
        (FeedState::Receiving, EventView::Other) => (conn, ActionView::Receive),
        (FeedState::Receiving, EventView::ReadFailed(detail)) => (
            ConnectionView { state: FeedState::ReceiveFailed, ..conn },
            ActionView::Finish(Err("Error receiving message: "@ + detail)),
        ),
        (FeedState::Receiving, EventView::Ended) => (
            ConnectionView { state: FeedState::Finished, ..conn },
            ActionView::Finish(Ok("Finished. "@ + d.name)),
        ),
        _ => (conn, ActionView::Ignore),
    }
}

/// Whether a connection in `state` is over.
pub open spec fn is_over(state: FeedState) -> bool {
    state is Disabled || state is ConnectFailed || state is ReceiveFailed || state is Finished
}

/// The actions of a connection of the feed `d` that stands at `conn` and
/// receives `events` one after the other.
pub open spec fn actions<F: ExchangeFeed>(
    d: ServiceView,
    conn: ConnectionView,
    events: Seq<EventView>,
) -> Seq<ActionView>
    decreases events.len(),
{
    if events.len() == 0 {
        Seq::empty()
    } else {
        seq![step::<F>(d, conn, events[0]).1] + actions::<F>(
            d,
            step::<F>(d, conn, events[0]).0,
            events.skip(1),
        )
    }
}

/// A feed that is switched off is done as soon as it starts, with the status
/// `disabled`, and whatever is reported to it afterwards, it never asks for
/// a socket, nor for anything else.
pub proof fn lemma_disabled_feed_opens_nothing<F: ExchangeFeed>(
    d: ServiceView,
    events: Seq<EventView>,
)
    requires
        !d.enable,
    ensures
        begin::<F>(d).0.state == FeedState::Disabled,
        begin::<F>(d).1 == ActionView::Finish(Ok("disabled"@)),
        forall|i: int|
            0 <= i < events.len() ==> #[trigger] actions::<F>(d, begin::<F>(d).0, events)[i]
                == ActionView::Ignore,
        actions::<F>(d, begin::<F>(d).0, events).len() == events.len(),
{
    lemma_over_stays_over::<F>(d, begin::<F>(d).0, events);
}

/// A connection that is over stays as it is: every further event is
/// ignored.
pub proof fn lemma_over_stays_over<F: ExchangeFeed>(
    d: ServiceView,
    conn: ConnectionView,
    events: Seq<EventView>,
)
    requires
        is_over(conn.state),
    ensures
        actions::<F>(d, conn, events).len() == events.len(),
        forall|i: int|
            0 <= i < events.len() ==> #[trigger] actions::<F>(d, conn, events)[i]
                == ActionView::Ignore,
    decreases events.len(),
{
    if events.len() > 0 {
        assert(step::<F>(d, conn, events[0]) == (conn, ActionView::Ignore));
        lemma_over_stays_over::<F>(d, conn, events.skip(1));
        let rest = actions::<F>(d, conn, events.skip(1));
        assert forall|i: int| 0 <= i < events.len() implies #[trigger] actions::<F>(
            d,
            conn,
            events,
        )[i] == ActionView::Ignore by {
            if i > 0 {
                assert(actions::<F>(d, conn, events)[i] == rest[i - 1]);
            }
        }
    }
}

/// No text frame ends a connection, whatever it holds: the connection goes
/// on receiving, the frame is handed on, be it as one that could not be
/// decoded, and the record keeps its source.
pub proof fn lemma_text_never_ends_connection<F: ExchangeFeed>(
    d: ServiceView,
    conn: ConnectionView,
    text: Seq<char>,
)
    requires
        conn.state == FeedState::Receiving,
    ensures
        step::<F>(d, conn, EventView::Text(text)).0.state == FeedState::Receiving,
        step::<F>(d, conn, EventView::Text(text)).1 is Deliver,
        step::<F>(d, conn, EventView::Text(text)).0.candle.source == conn.candle.source,
        step::<F>(d, conn, EventView::Text(text)).1->Deliver_0 !is Ticks ==> step::<F>(
            d,
            conn,
            EventView::Text(text),
        ).0 == conn,
{
    F::lemma_parsed_keeps_record(text, conn.candle);
}

/// The record of a connection always names the feed that owns it: it does so
/// when the connection starts, and no event changes it.
pub proof fn lemma_source_is_feed<F: ExchangeFeed>(
    d: ServiceView,
    conn: ConnectionView,
    event: EventView,
)
    ensures
        begin::<F>(d).0.candle.source == d.name,
        step::<F>(d, conn, event).0.candle.source == conn.candle.source,
{
    match event {
        EventView::Text(text) => {
            F::lemma_parsed_keeps_record(text, conn.candle);
        },
        _ => {},
    }
}

/// One connection of one feed, from the request for a socket to its end:
/// where it stands, what it subscribed to, and the record that its ticks are
/// written to.
#[derive(Debug)]
pub struct Connection {
    state: FeedState,
    symbol: String,
    channel: String,
    candle: candle_stick,
}

impl View for Connection {
    type V = ConnectionView;

    closed spec fn view(&self) -> ConnectionView {
        ConnectionView {
            state: self.state,
            symbol: self.symbol@,
            channel: self.channel@,
            candle: self.candle@,
        }
    }
}

/// Starts a connection of `feed`. A feed that is switched off is done at
/// once, with the status `disabled`, and nothing is opened. Any other feed
/// asks for its socket.
pub fn connect<F: ExchangeFeed>(feed: &F) -> (r: (Connection, Action))
    requires
        feed.descriptor().enable ==> F::valid_symbol(feed.descriptor().symbol),
    ensures
        (r.0@, r.1@) == begin::<F>(feed.descriptor()),
{
    let candle = CandleStickBuilder::new().source(feed.name().to_owned()).build();
    if feed.enable() {
        let (symbol, channel) = F::get_sub_channel(feed.symbol());
        let url = F::get_connection_str(feed.base(), symbol);
        (
            Connection {
                state: FeedState::Connecting,
                symbol: symbol.to_owned(),
                channel: channel.to_owned(),
                candle,
            },
            Action::Open(url),
        )
    } else {
        (
            Connection {
                state: FeedState::Disabled,
                symbol: String::new(),
                channel: String::new(),
                candle,
            },
            Action::Finish(Ok("disabled".to_owned())),
        )
    }
}

impl Connection {
    /// Where the connection stands.
    pub fn state(&self) -> (r: FeedState)
        ensures
            r == self@.state,
    {
        self.state
    }

    /// The record as the last tick left it.
    pub fn candle(&self) -> (r: &candle_stick)
        ensures
            r@ == self@.candle,
    {
        &self.candle
    }

    /// Takes `event` and says what is to be done next.
    pub fn advance<F: ExchangeFeed>(&mut self, feed: &F, event: Event) -> (action: Action)
        ensures
            (final(self)@, action@) == step::<F>(feed.descriptor(), old(self)@, event@),
    {
        match self.state {
            FeedState::Connecting => match event {
                Event::Opened => {
                    self.state = FeedState::Connected;
                    let notice = join(feed.name(), " connected.");
                    let subscribe = F::send_subscribe(self.channel.as_str(), self.symbol.as_str());
                    Action::Greet { notice, subscribe }
                },
                Event::OpenFailed(detail) => {
                    self.state = FeedState::ConnectFailed;
                    Action::Finish(Err(join("Error Connecting: ", detail.as_str())))
                },
                _ => Action::Ignore,
            },
            FeedState::Connected => match event {
                Event::Greeted => {
                    self.state = FeedState::Receiving;
                    Action::Receive
                },
                _ => Action::Ignore,
            },
            FeedState::Receiving => match event {
                Event::Text(text) => {
                    let frame = F::parse_text(text.as_str(), &mut self.candle);
                    Action::Deliver(frame)
                },
                Event::Other => Action::Receive,
                Event::ReadFailed(detail) => {
                    self.state = FeedState::ReceiveFailed;
                    Action::Finish(Err(join("Error receiving message: ", detail.as_str())))
                },
                Event::Ended => {
                    self.state = FeedState::Finished;
                    Action::Finish(Ok(join("Finished. ", feed.name())))
                },
                _ => Action::Ignore,
            },
            _ => Action::Ignore,
        }
    }
}

} // verus!
