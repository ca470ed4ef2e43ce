use crate::candle::{candle_stick, CandleView};
use crate::common::{
    candle_views, BasicService, ExchangeFeed, Frame, FrameView, Service, ServiceView,
};
use crate::config::{core_pin, pinned_core, Config, ConfigError};
use crate::json::{decode, json_of, json_string, quote, str_views, Json};
use crate::reading::{is_number, reading_of, zero_text, Reading};
use crate::text::{chars_of, find_char, first_index, parse_u64, same_text, unsigned_of};
use vstd::prelude::*;
use vstd::string::{StrSliceExecFns, StringExecFns};

verus! {

/// The columns that a row of market data must have at least: timestamp, open,
/// high, low, close and volume, in this order.
pub const COLUMNS: usize = 6;

/// One frame of OKX as far as the feed reads it. A member that is missing and
/// one that is `null` are both none.
pub struct OkxMessage {
    /// The member `event`, which marks an answer to a request.
    pub event: Option<Seq<char>>,
    /// The member `data`: rows of columns, each column a text.
    pub data: Option<Seq<Seq<Seq<char>>>>,
}

/// Whether every one of `rows` is an array of strings.
pub open spec fn all_rows(rows: Seq<Json>) -> bool {
    forall|i: int| 0 <= i < rows.len() ==> (#[trigger] rows[i]).texts_of() is Some
}

/// The columns of each of `rows`, which are arrays of strings.
pub open spec fn row_texts(rows: Seq<Json>) -> Seq<Seq<Seq<char>>> {
    Seq::new(rows.len(), |i: int| rows[i].texts_of()->Some_0)
}

/// The member `event` of `root`: outside none where it is neither missing,
/// nor `null`, nor a string.
pub open spec fn event_of(root: Json) -> Option<Option<Seq<char>>> {
    match root.member_of("event"@) {
        None => Some(None),
        Some(Json::Null) => Some(None),
        Some(Json::Text(event)) => Some(Some(event@)),
        Some(_) => None,
    }
}

/// The member `data` of `root`: outside none where it is neither missing,
/// nor `null`, nor an array of arrays of strings.
pub open spec fn data_of(root: Json) -> Option<Option<Seq<Seq<Seq<char>>>>> {
    match root.member_of("data"@) {
        None => Some(None),
        Some(Json::Null) => Some(None),
        Some(Json::Array(rows)) => if all_rows(rows@) {
            Some(Some(row_texts(rows@)))
        } else {
            None
        },
        Some(_) => None,
    }
}

/// The frame that the document `doc` holds: an object whose members `event`
/// and `data`, where it has them, are of their kinds. Other members are
/// passed over. Any other document holds none.
pub open spec fn message_of(doc: Option<Json>) -> Option<OkxMessage> {
    match doc {
        Some(root) => if root is Object {
            match (event_of(root), data_of(root)) {
                (Some(event), Some(data)) => Some(OkxMessage { event, data }),
                _ => None,
            }
        } else {
            None
        },
        None => None,
    }
}

/// Whether every one of `rows` has all the columns of a tick.
pub open spec fn full_rows(rows: Seq<Seq<Seq<char>>>) -> bool {
    forall|i: int| 0 <= i < rows.len() ==> (#[trigger] rows[i]).len() >= COLUMNS
}

/// The timestamp that the text `s` gives: the number that it spells, and
/// zero where it spells none.
pub open spec fn stamp_of(s: Seq<char>) -> u64 {
    match unsigned_of(s) {
        Some(ts) => ts,
        None => 0,
    }
}

/// The record of `source` once the row `row` is written to it. A timestamp
/// or a quote that is no number is written as zero.
pub open spec fn row_tick(source: Seq<char>, row: Seq<Seq<char>>) -> CandleView {
    CandleView {
        source,
        ts: stamp_of(row[0]),
        o: reading_of(row[1]),
        h: reading_of(row[2]),
        l: reading_of(row[3]),
        c: reading_of(row[4]),
        v: reading_of(row[5]),
    }
}

/// The ticks of `rows` for the record of `source`, in order.
pub open spec fn row_ticks(source: Seq<char>, rows: Seq<Seq<Seq<char>>>) -> Seq<CandleView> {
    Seq::new(rows.len(), |i: int| row_tick(source, rows[i]))
}

/// What kind of answer the event `event` is.
pub open spec fn answer(event: Seq<char>) -> FrameView {
    if event == "subscribe"@ {
        FrameView::Subscribed
    } else if event == "error"@ {
        FrameView::Refused
    } else {
        FrameView::Ignored
    }
}

/// What the document `doc` makes of the record `before`. A frame with an
/// event is an answer and leaves the record alone, whatever else it holds.
/// A frame without one whose data has all its columns in every row is market
/// data: each row is a tick, and the last row is what the record holds
/// afterwards. A frame with neither says nothing, and one that holds no
/// frame, or a row that is too short, could not be decoded; both leave the
/// record alone.
pub open spec fn okx_update(doc: Option<Json>, before: CandleView) -> (CandleView, FrameView) {
    match message_of(doc) {
        None => (before, FrameView::Malformed),
        Some(message) => match message.event {
            Some(event) => (before, answer(event)),
            None => match message.data {
                None => (before, FrameView::Ignored),
                Some(rows) => if full_rows(rows) {
                    (
                        if rows.len() == 0 {
                            before
                        } else {
                            row_tick(before.source, rows.last())
                        },
                        FrameView::Ticks(row_ticks(before.source, rows)),
                    )
                } else {
                    (before, FrameView::Malformed)
                },
            },
        },
    }
}

/// A frame with an event never changes the record, whatever else it holds:
/// an answer to a subscription is not market data.
pub proof fn lemma_answer_leaves_record(doc: Option<Json>, before: CandleView)
    requires
        doc is Some,
        doc->Some_0.member_of("event"@) matches Some(Json::Text(_)),
    ensures
        okx_update(doc, before).0 == before,
        okx_update(doc, before).1 !is Ticks,
{
}

/// Only market data changes the record: where a frame has changed it, the
/// frame had no event, and its data had a row.
pub proof fn lemma_only_data_changes_record(doc: Option<Json>, before: CandleView)
    requires
        okx_update(doc, before).0 != before,
    ensures
        okx_update(doc, before).1 is Ticks,
        message_of(doc) is Some,
        message_of(doc)->Some_0.event is None,
        message_of(doc)->Some_0.data is Some,
        message_of(doc)->Some_0.data->Some_0.len() > 0,
        okx_update(doc, before).0 == row_tick(
            before.source,
            message_of(doc)->Some_0.data->Some_0.last(),
        ),
{
}

/// A timestamp or a quote that is no number never costs the row: the tick
/// is still made, with zero in place of each such column and every other
/// column as the row gave it.
pub proof fn lemma_row_reads_zero(source: Seq<char>, row: Seq<Seq<char>>)
    ensures
        unsigned_of(row[0]) is None ==> row_tick(source, row).ts == 0,
        unsigned_of(row[0]) matches Some(ts) ==> row_tick(source, row).ts == ts,
        !is_number(row[1]) ==> row_tick(source, row).o == zero_text(),
        !is_number(row[2]) ==> row_tick(source, row).h == zero_text(),
        !is_number(row[3]) ==> row_tick(source, row).l == zero_text(),
        !is_number(row[4]) ==> row_tick(source, row).c == zero_text(),
        !is_number(row[5]) ==> row_tick(source, row).v == zero_text(),
        is_number(row[1]) ==> row_tick(source, row).o == row[1],
        is_number(row[2]) ==> row_tick(source, row).h == row[2],
        is_number(row[3]) ==> row_tick(source, row).l == row[3],
        is_number(row[4]) ==> row_tick(source, row).c == row[4],
        is_number(row[5]) ==> row_tick(source, row).v == row[5],
{
}

/// Whether `symbol` names a stream and a channel: whether it holds an `@`.
pub open spec fn has_channel(symbol: Seq<char>) -> bool {
    symbol.contains('@')
}

/// The parts of `symbol` before its first `@` and between its first `@` and
/// its second, or its end where it has no second.
pub open spec fn split_symbol(symbol: Seq<char>) -> (Seq<char>, Seq<char>) {
    let i = first_index(symbol, '@');
    let rest = symbol.skip(i + 1);
    (symbol.take(i), rest.take(first_index(rest, '@')))
}

/// How much of `symbol` its stream, the `@` behind it, and its channel take
/// up.
pub open spec fn split_length(symbol: Seq<char>) -> int {
    (split_symbol(symbol).0.len() + 1 + split_symbol(symbol).1.len()) as int
}

/// A symbol that names a channel is split at its first `@`: neither part
/// holds an `@`, and the symbol begins with the stream, an `@` and the
/// channel, behind which it ends or goes on with another `@`.
pub proof fn lemma_split_symbol(symbol: Seq<char>)
    requires
        has_channel(symbol),
    ensures
        !split_symbol(symbol).0.contains('@'),
        !split_symbol(symbol).1.contains('@'),
        (split_symbol(symbol).0 + seq!['@'] + split_symbol(symbol).1).is_prefix_of(symbol),
        symbol.len() == split_length(symbol) || symbol[split_length(symbol)] == '@',
{
    let i = first_index(symbol, '@');
    let rest = symbol.skip(i + 1);
    let j = first_index(rest, '@');
    crate::text::lemma_first_index(symbol, '@');
    crate::text::lemma_first_index(rest, '@');
    let stream = symbol.take(i);
    let channel = rest.take(j);
    let joined = stream + seq!['@'] + channel;
    assert forall|k: int| 0 <= k < joined.len() implies joined[k] == symbol[k] by {
        if k > i {
            assert(joined[k] == channel[k - i - 1]);
            assert(channel[k - i - 1] == rest[k - i - 1]);
        }
    }
    assert(joined =~= symbol.take(joined.len() as int));
    if joined.len() < symbol.len() {
        assert(rest[j] == symbol[i + 1 + j]);
    }
    if stream.contains('@') {
        let k = choose|k: int| 0 <= k < stream.len() && stream[k] == '@';
        assert(symbol[k] == '@');
    }
    if channel.contains('@') {
        let k = choose|k: int| 0 <= k < channel.len() && channel[k] == '@';
        assert(rest[k] == '@');
    }
}

/// The request that subscribes to `channel` of the instrument `symbol`.
pub open spec fn subscribe_frame(channel: Seq<char>, symbol: Seq<char>) -> Seq<char> {
    "{\"op\":\"subscribe\",\"args\":[{\"channel\":"@ + json_string(channel) + ",\"instId\":"@
        + json_string(symbol) + "}]}"@
}

/// The descriptor of the OKX feed that `config` describes.
pub open spec fn okx_service(config: &Config) -> ServiceView {
    ServiceView {
        base_url: config.okx.base_url@,
        symbol: config.okx.symbol@,
        enable: config.okx.enable,
        name: "OKXN"@,
        core_pin: pinned_core(config.okx.pin),
    }
}

/// The OKX feed. OKX has one endpoint for all streams and wants a request
/// after connecting; a symbol is written as the instrument, an `@`, and the
/// channel.
#[derive(Debug)]
pub struct OKX {
    pub service: BasicService,
}

impl OKX {
    /// The OKX feed that `config` describes. It fails where the symbol names
    /// no channel.
    pub fn new(config: &Config) -> (r: Result<Self, ConfigError>)
        ensures
            match r {
                Ok(feed) => has_channel(config.okx.symbol@) && feed.service@ == okx_service(config),
                Err(ConfigError::IncorrectSymbol(symbol)) => !has_channel(config.okx.symbol@)
                    && symbol@ == config.okx.symbol@,
            },
    {
        if !OKX::check_symbol(config.okx.symbol.as_str()) {
            return Err(ConfigError::IncorrectSymbol(config.okx.symbol.clone()));
        }
        Ok(
            OKX {
                service: BasicService::new(
                    config.okx.base_url.clone(),
                    config.okx.symbol.clone(),
                    config.okx.enable,
                    "OKXN".to_owned(),
                ).pinned(core_pin(config.okx.pin)),
            },
        )
    }

    pub fn base_url(&self) -> (r: &str)
        ensures
            r@ == self.service@.base_url,
    {
        self.service.base_url()
    }

    pub fn enable(&self) -> (r: bool)
        ensures
            r == self.service@.enable,
    {
        self.service.enable()
    }

    pub fn name(&self) -> (r: &str)
        ensures
            r@ == self.service@.name,
    {
        self.service.name()
    }

    pub fn symbol(&self) -> (r: &str)
        ensures
            r@ == self.service@.symbol,
    {
        self.service.symbol()
    }

    /// The core to which the feed's thread is to be bound, if any.
    pub fn core_pin(&self) -> (r: Option<usize>)
        ensures
            r == self.service@.core_pin,
    {
        self.service.core_pin()
    }

    /// The member `event` of `root`.
    fn event(root: &Json) -> (r: Option<Option<&str>>)
        ensures
            match r {
                Some(Some(event)) => event_of(*root) == Some(Some(event@)),
                Some(None) => event_of(*root) == Some(None::<Seq<char>>),
                None => event_of(*root) is None,
            },
    {
        match root.member("event") {
            None => Some(None),
            Some(Json::Null) => Some(None),
            Some(Json::Text(event)) => Some(Some(event.as_str())),
            Some(_) => None,
        }
    }

    /// The member `data` of `root`.
    fn data(root: &Json) -> (r: Option<Option<Vec<Vec<&str>>>>)
        ensures
            match r {
                Some(Some(rows)) => data_of(*root) == Some(Some(rows_views(rows@))),
                Some(None) => data_of(*root) == Some(None::<Seq<Seq<Seq<char>>>>),
                None => data_of(*root) is None,
            },
    {
        match root.member("data") {
            None => Some(None),
            Some(Json::Null) => Some(None),
            Some(Json::Array(items)) => {
                let mut rows: Vec<Vec<&str>> = Vec::new();
                let mut i: usize = 0;
                while i < items.len()
                    invariant
                        i <= items.len(),
                        rows.len() == i,
                        root.member_of("data"@) == Some(Json::Array(*items)),
                        forall|j: int| 0 <= j < i ==> (#[trigger] items@[j]).texts_of() is Some,
                        forall|j: int|
                            0 <= j < i ==> str_views((#[trigger] rows@[j])@)
                                == items@[j].texts_of()->Some_0,
                    decreases items.len() - i,
                {
                    match items[i].as_texts() {
                        Some(row) => {
                            rows.push(row);
                        },
                        None => {
                            return None;
                        },
                    }
                    i += 1;
                }
                assert(rows_views(rows@) =~= row_texts(items@));
                Some(Some(rows))
            },
            Some(_) => None,
        }
    }

    /// The tick that the row `row` makes for the record of `source`.
    fn tick(source: &String, row: &Vec<&str>) -> (r: candle_stick)
        requires
            row.len() >= COLUMNS,
        ensures
            r@ == row_tick(source@, str_views(row@)),
    {
        let ts = match parse_u64(row[0]) {
            Some(ts) => ts,
            None => 0,
        };
        candle_stick {
            source: source.clone(),
            ts,
            o: Reading::parse(row[1]),
            h: Reading::parse(row[2]),
            l: Reading::parse(row[3]),
            c: Reading::parse(row[4]),
            v: Reading::parse(row[5]),
        }
    }

    /// Writes what the decoded frame `doc` holds to `candle`.
    pub fn apply(doc: &Option<Json>, candle: &mut candle_stick) -> (frame: Frame)
        ensures
            (final(candle)@, frame@) == okx_update(*doc, old(candle)@),
    {
        let root = match doc {
            Some(root) => root,
            None => {
                return Frame::Malformed;
            },
        };
        if !root.is_object() {
            return Frame::Malformed;
        }
        let (event, data) = match (OKX::event(root), OKX::data(root)) {
            (Some(event), Some(data)) => (event, data),
            _ => {
                return Frame::Malformed;
            },
        };
        if let Some(event) = event {
            return if same_text(event, "subscribe") {
                Frame::Subscribed
            } else if same_text(event, "error") {
                Frame::Refused
            } else {
                Frame::Ignored
            };
        }
        let rows = match data {
            Some(rows) => rows,
            None => {
                return Frame::Ignored;
            },
        };
        let ghost texts = rows_views(rows@);
        let mut ticks: Vec<candle_stick> = Vec::new();
        let mut i: usize = 0;
        while i < rows.len()
            invariant
                i <= rows.len(),
                ticks.len() == i,
                texts == rows_views(rows@),
                message_of(*doc) == Some(OkxMessage { event: None, data: Some(texts) }),
                *candle == *old(candle),
                forall|j: int| 0 <= j < i ==> (#[trigger] texts[j]).len() >= COLUMNS,
                forall|j: int|
                    0 <= j < i ==> (#[trigger] ticks@[j])@ == row_tick(candle@.source, texts[j]),
            decreases rows.len() - i,
        {
            if rows[i].len() < COLUMNS {
                assert(texts[i as int].len() < COLUMNS);
                return Frame::Malformed;
            }
            let tick = OKX::tick(&candle.source, &rows[i]);
            ticks.push(tick);
            i += 1;
        }
        assert(candle_views(ticks@) =~= row_ticks(candle@.source, texts));
        if ticks.len() > 0 {
            *candle = ticks[ticks.len() - 1].clone();
        }
        Frame::Ticks(ticks)
    }
}

/// The columns of each of `rows`, as texts.
pub open spec fn rows_views(rows: Seq<Vec<&str>>) -> Seq<Seq<Seq<char>>> {
    Seq::new(rows.len(), |i: int| str_views(rows[i]@))
}

impl Service for OKX {
    open spec fn descriptor(&self) -> ServiceView {
        self.service@
    }

    fn name(&self) -> (r: &str) {
        self.service.name()
    }

    fn symbol(&self) -> (r: &str) {
        self.service.symbol()
    }

    fn base(&self) -> (r: &str) {
        self.service.base_url()
    }

    fn enable(&self) -> (r: bool) {
        self.service.enable()
    }
}

impl ExchangeFeed for OKX {
    open spec fn valid_symbol(symbol: Seq<char>) -> bool {
        has_channel(symbol)
    }

    open spec fn sub_channel(symbol: Seq<char>) -> (Seq<char>, Seq<char>) {
        split_symbol(symbol)
    }

    open spec fn connection_str(base: Seq<char>, symbol: Seq<char>) -> Seq<char> {
        base
    }

    open spec fn subscription(channel: Seq<char>, symbol: Seq<char>) -> Option<Seq<char>> {
        Some(subscribe_frame(channel, symbol))
    }

    open spec fn parsed(text: Seq<char>, before: CandleView) -> (CandleView, FrameView) {
        okx_update(json_of(text), before)
    }

    fn check_symbol(symbol: &str) -> (r: bool) {
        let cs = chars_of(symbol);
        proof {
            crate::text::lemma_first_index(symbol@, '@');
            assert(cs@.skip(0) =~= symbol@);
        }
        find_char(&cs, 0, '@') < cs.len()
    }

    fn parse_text(text: &str, candle: &mut candle_stick) -> (frame: Frame) {
        let doc = decode(text);
        OKX::apply(&doc, candle)
    }

    proof fn lemma_parsed_keeps_record(text: Seq<char>, before: CandleView) {
    }

    fn get_sub_channel(symbol: &str) -> (r: (&str, &str)) {
        let cs = chars_of(symbol);
        proof {
            crate::text::lemma_first_index(symbol@, '@');
            assert(cs@.skip(0) =~= symbol@);
        }
        let i = find_char(&cs, 0, '@');
        let j = find_char(&cs, i + 1, '@');
        let stream = symbol.substring_char(0, i);
        let channel = symbol.substring_char(i + 1, j);
        proof {
            let rest = symbol@.skip(i + 1);
            assert(stream@ =~= symbol@.take(i as int));
            assert(channel@ =~= rest.take(first_index(rest, '@')));
        }
        (stream, channel)
    }

    fn get_connection_str(base: &str, symbol: &str) -> (r: String) {
        base.to_owned()
    }

    fn send_subscribe(channel: &str, symbol: &str) -> (r: Option<String>) {
        let mut frame = "{\"op\":\"subscribe\",\"args\":[{\"channel\":".to_owned();
        frame.append(quote(channel).as_str());
        frame.append(",\"instId\":");
        frame.append(quote(symbol).as_str());
        frame.append("}]}");
        Some(frame)
    }
}

} // verus!
