use crate::candle::{candle_stick, CandleView};
use crate::common::{BasicService, Exchange, ExchangeFeed, Frame, FrameView, Service, ServiceView};
use crate::config::{core_pin, pinned_core, Config, ConfigError};
use crate::json::{decode, json_of, Json};
use crate::reading::{is_number, reading_of, zero_text, Reading};
use crate::text::join;
use vstd::prelude::*;

verus! {

/// One kline as Binance sends it: the start of its time bucket and the five
/// quotes, each as the text that the frame held.
pub struct KlineView {
    pub t: u64,
    pub o: Seq<char>,
    pub h: Seq<char>,
    pub l: Seq<char>,
    pub c: Seq<char>,
    pub v: Seq<char>,
}

/// The kline that the document `doc` holds: the member `k` of the document,
/// an object whose member `t` is a whole number that fits 64 bits without a
/// sign and whose members `o`, `h`, `l`, `c` and `v` are strings. Other
/// members are passed over. Any other document holds none.
pub open spec fn kline_of(doc: Option<Json>) -> Option<KlineView> {
    match doc {
        Some(root) => match root.member_of("k"@) {
            Some(k) => match (
                k.member_unsigned_of("t"@),
                k.member_text_of("o"@),
                k.member_text_of("h"@),
                k.member_text_of("l"@),
                k.member_text_of("c"@),
                k.member_text_of("v"@),
            ) {
                (Some(t), Some(o), Some(h), Some(l), Some(c), Some(v)) => Some(
                    KlineView { t, o, h, l, c, v },
                ),
                _ => None,
            },
            None => None,
        },
        None => None,
    }
}

/// The record of `source` once the kline `k` is written to it. A quote that
/// is no number is written as zero.
pub open spec fn kline_tick(source: Seq<char>, k: KlineView) -> CandleView {
    CandleView {
        source,
        ts: k.t,
        o: reading_of(k.o),
        h: reading_of(k.h),
        l: reading_of(k.l),
        c: reading_of(k.c),
        v: reading_of(k.v),
    }
}

/// What the document `doc` makes of the record `before`: a kline is written
/// to it and is the one tick of the frame; anything else leaves the record
/// alone and is a frame that could not be decoded.
pub open spec fn kline_update(doc: Option<Json>, before: CandleView) -> (CandleView, FrameView) {
    match kline_of(doc) {
        Some(k) => (
            kline_tick(before.source, k),
            FrameView::Ticks(seq![kline_tick(before.source, k)]),
        ),
        None => (before, FrameView::Malformed),
    }
}

/// A quote that is no number never costs the frame: the kline is still
/// written, as market data, with zero in place of each such quote and every
/// other field as the frame gave it.
pub proof fn lemma_kline_reads_zero(doc: Option<Json>, before: CandleView)
    requires
        kline_of(doc) is Some,
    ensures
        kline_update(doc, before).1 is Ticks,
        kline_update(doc, before).0.ts == kline_of(doc)->Some_0.t,
        !is_number(kline_of(doc)->Some_0.o) ==> kline_update(doc, before).0.o == zero_text(),
        !is_number(kline_of(doc)->Some_0.h) ==> kline_update(doc, before).0.h == zero_text(),
        !is_number(kline_of(doc)->Some_0.l) ==> kline_update(doc, before).0.l == zero_text(),
        !is_number(kline_of(doc)->Some_0.c) ==> kline_update(doc, before).0.c == zero_text(),
        !is_number(kline_of(doc)->Some_0.v) ==> kline_update(doc, before).0.v == zero_text(),
        is_number(kline_of(doc)->Some_0.o) ==> kline_update(doc, before).0.o == kline_of(
            doc,
        )->Some_0.o,
        is_number(kline_of(doc)->Some_0.h) ==> kline_update(doc, before).0.h == kline_of(
            doc,
        )->Some_0.h,
        is_number(kline_of(doc)->Some_0.l) ==> kline_update(doc, before).0.l == kline_of(
            doc,
        )->Some_0.l,
        is_number(kline_of(doc)->Some_0.c) ==> kline_update(doc, before).0.c == kline_of(
            doc,
        )->Some_0.c,
        is_number(kline_of(doc)->Some_0.v) ==> kline_update(doc, before).0.v == kline_of(
            doc,
        )->Some_0.v,
{
}

/// The descriptor of the Binance feed that `config` describes.
pub open spec fn binance_service(config: &Config) -> ServiceView {
    ServiceView {
        base_url: config.binance.base_url@,
        symbol: config.binance.symbol@,
        enable: config.binance.enable,
        name: "Binance"@,
        core_pin: pinned_core(config.binance.pin),
    }
}

/// The Binance feed. Binance names the stream in the URL, so nothing is sent
/// after connecting, and every symbol is taken as it is written.
#[derive(Debug)]
pub struct Binance {
    pub service: BasicService,
}

impl Binance {
    /// The Binance feed that `config` describes. Binance takes every symbol,
    /// so this never fails.
    pub fn new(config: &Config) -> (r: Result<Self, ConfigError>)
        ensures
            r matches Ok(feed) && feed.service@ == binance_service(config),
    {
        Ok(Binance::configured(config))
    }

    fn configured(config: &Config) -> (r: Self)
        ensures
            r.service@ == binance_service(config),
    {
        Binance {
            service: BasicService::new(
                config.binance.base_url.clone(),
                config.binance.symbol.clone(),
                config.binance.enable,
                "Binance".to_owned(),
            ).pinned(core_pin(config.binance.pin)),
        }
    }

    pub fn base_url(&self) -> (r: &str)
        ensures
            r@ == self.service@.base_url,
    {
        self.service.base_url()
    }

    pub fn enable(&self) -> (r: bool)
        ensures
            r == self.service@.enable,
    {
        self.service.enable()
    }

    pub fn name(&self) -> (r: &str)
        ensures
            r@ == self.service@.name,
    {
        self.service.name()
    }

    pub fn symbol(&self) -> (r: &str)
        ensures
            r@ == self.service@.symbol,
    {
        self.service.symbol()
    }

    /// The core to which the feed's thread is to be bound, if any.
    pub fn core_pin(&self) -> (r: Option<usize>)
        ensures
            r == self.service@.core_pin,
    {
        self.service.core_pin()
    }

    /// Writes the kline of the decoded frame `doc` to `candle`.
    pub fn apply(doc: &Option<Json>, candle: &mut candle_stick) -> (frame: Frame)
        ensures
            (final(candle)@, frame@) == kline_update(*doc, old(candle)@),
    {
        let root = match doc {
            Some(root) => root,
            None => {
                return Frame::Malformed;
            },
        };
        let k = match root.member("k") {
            Some(k) => k,
            None => {
                return Frame::Malformed;
            },
        };
        match (
            k.member_unsigned("t"),
            k.member_text("o"),
            k.member_text("h"),
            k.member_text("l"),
            k.member_text("c"),
            k.member_text("v"),
        ) {
            (Some(t), Some(o), Some(h), Some(l), Some(c), Some(v)) => {
                candle.ts = t;
                candle.o = Reading::parse(o);
                candle.h = Reading::parse(h);
                candle.l = Reading::parse(l);
                candle.c = Reading::parse(c);
                candle.v = Reading::parse(v);
                let tick = candle.clone();
                let ticks = vec![tick];
                assert(crate::common::candle_views(ticks@) =~= seq![candle@]);
                Frame::Ticks(ticks)
            },
            _ => Frame::Malformed,
        }
    }
}

impl Exchange for Binance {
    open spec fn built(config: &Config, made: &Self) -> bool {
        made.service@ == binance_service(config)
    }

    fn new(config: &Config) -> (r: Self) {
        Binance::configured(config)
    }
}

impl Service for Binance {
    open spec fn descriptor(&self) -> ServiceView {
        self.service@
    }

    fn name(&self) -> (r: &str) {
        self.service.name()
    }

    fn symbol(&self) -> (r: &str) {
        self.service.symbol()
    }

    fn base(&self) -> (r: &str) {
        self.service.base_url()
    }

    fn enable(&self) -> (r: bool) {
        self.service.enable()
    }
}

impl ExchangeFeed for Binance {
    open spec fn valid_symbol(symbol: Seq<char>) -> bool {
        true
    }

    open spec fn sub_channel(symbol: Seq<char>) -> (Seq<char>, Seq<char>) {
        (symbol, Seq::empty())
    }

    open spec fn connection_str(base: Seq<char>, symbol: Seq<char>) -> Seq<char> {
        base + symbol
    }

    open spec fn subscription(channel: Seq<char>, symbol: Seq<char>) -> Option<Seq<char>> {
        None
    }

    open spec fn parsed(text: Seq<char>, before: CandleView) -> (CandleView, FrameView) {
        kline_update(json_of(text), before)
    }

    fn check_symbol(symbol: &str) -> (r: bool) {
        true
    }

    proof fn lemma_parsed_keeps_record(text: Seq<char>, before: CandleView) {
    }

    fn parse_text(text: &str, candle: &mut candle_stick) -> (frame: Frame) {
        let doc = decode(text);
        Binance::apply(&doc, candle)
    }

    fn get_sub_channel(symbol: &str) -> (r: (&str, &str)) {
        let none = "";
        proof {
            reveal_strlit("");
        }
        assert(none@ =~= Seq::<char>::empty());
        (symbol, none)
    }

    fn get_connection_str(base: &str, symbol: &str) -> (r: String) {
        join(base, symbol)
    }

    fn send_subscribe(channel: &str, symbol: &str) -> (r: Option<String>) {
        None
    }
}

} // verus!
