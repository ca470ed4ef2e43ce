use crate::reading::{zero_text, Reading};
use vstd::prelude::*;

verus! {

/// A candlestick as contracts see it: the text of the source and of each of
/// the five readings, and the timestamp.
pub struct CandleView {
    pub source: Seq<char>,
    pub ts: u64,
    pub o: Seq<char>,
    pub h: Seq<char>,
    pub l: Seq<char>,
    pub c: Seq<char>,
    pub v: Seq<char>,
}

/// The candlestick with which every builder starts: no source, timestamp
/// zero, every reading zero.
pub open spec fn blank() -> CandleView {
    CandleView {
        source: Seq::empty(),
        ts: 0,
        o: zero_text(),
        h: zero_text(),
        l: zero_text(),
        c: zero_text(),
        v: zero_text(),
    }
}

/// `b` with the source set to `source`.
pub open spec fn with_source(b: CandleView, source: Seq<char>) -> CandleView {
    CandleView { source, ..b }
}

/// `b` with the timestamp set to `ts`.
pub open spec fn with_ts(b: CandleView, ts: u64) -> CandleView {
    CandleView { ts, ..b }
}

/// `b` with the open price set to `o`.
pub open spec fn with_o(b: CandleView, o: Seq<char>) -> CandleView {
    CandleView { o, ..b }
}

/// `b` with the high price set to `h`.
pub open spec fn with_h(b: CandleView, h: Seq<char>) -> CandleView {
    CandleView { h, ..b }
}

/// `b` with the low price set to `l`.
pub open spec fn with_l(b: CandleView, l: Seq<char>) -> CandleView {
    CandleView { l, ..b }
}

/// `b` with the close price set to `c`.
pub open spec fn with_c(b: CandleView, c: Seq<char>) -> CandleView {
    CandleView { c, ..b }
}

/// `b` with the volume set to `v`.
pub open spec fn with_v(b: CandleView, v: Seq<char>) -> CandleView {
    CandleView { v, ..b }
}

/// One tick of one exchange after normalisation: where it came from, the
/// start of its time bucket in milliseconds since the epoch, and the open,
/// high, low and close prices and the volume. A feed keeps one and writes each
/// tick over the last.
#[allow(non_camel_case_types)]
#[derive(Debug)]
pub struct candle_stick {
    pub source: String,
    pub ts: u64,
    pub o: Reading,
    pub h: Reading,
    pub l: Reading,
    pub c: Reading,
    pub v: Reading,
}

impl View for candle_stick {
    type V = CandleView;

    open spec fn view(&self) -> CandleView {
        CandleView {
            source: self.source@,
            ts: self.ts,
            o: self.o@,
            h: self.h@,
            l: self.l@,
            c: self.c@,
            v: self.v@,
        }
    }
}

impl Clone for candle_stick {
    /// A second candlestick with the same values.
    fn clone(&self) -> (r: candle_stick)
        ensures
            r@ == self@,
    {
        candle_stick {
            source: self.source.clone(),
            ts: self.ts,
            o: self.o.clone(),
            h: self.h.clone(),
            l: self.l.clone(),
            c: self.c.clone(),
            v: self.v.clone(),
        }
    }
}

/// Builds a candlestick field by field. What is not set stays as in
/// [`blank`].
#[derive(Debug)]
pub struct CandleStickBuilder {
    source: String,
    ts: u64,
    o: Reading,
    h: Reading,
    l: Reading,
    c: Reading,
    v: Reading,
}

impl View for CandleStickBuilder {
    type V = CandleView;

    closed spec fn view(&self) -> CandleView {
        CandleView {
            source: self.source@,
            ts: self.ts,
            o: self.o@,
            h: self.h@,
            l: self.l@,
            c: self.c@,
            v: self.v@,
        }
    }
}

impl CandleStickBuilder {
    /// A builder in which nothing is set yet.
    pub fn new() -> (r: Self)
        ensures
            r@ == blank(),
    {
        CandleStickBuilder {
            source: String::new(),
            ts: 0,
            o: Reading::zero(),
            h: Reading::zero(),
            l: Reading::zero(),
            c: Reading::zero(),
            v: Reading::zero(),
        }
    }

    /// Sets the name of the exchange.
    pub fn source(self, source: String) -> (r: Self)
        ensures
            r@ == with_source(self@, source@),
    {
        let mut r = self;
        r.source = source;
        r
    }

    /// Sets the timestamp, in milliseconds since the epoch.
    pub fn ts(self, ts: u64) -> (r: Self)
        ensures
            r@ == with_ts(self@, ts),
    {
        let mut r = self;
        r.ts = ts;
        r
    }

    /// Sets the open price.
    pub fn o(self, o: Reading) -> (r: Self)
        ensures
            r@ == with_o(self@, o@),
    {
        let mut r = self;
        r.o = o;
        r
    }

    /// Sets the high price.
    pub fn h(self, h: Reading) -> (r: Self)
        ensures
            r@ == with_h(self@, h@),
    {
        let mut r = self;
        r.h = h;
        r
    }

    /// Sets the low price.
    pub fn l(self, l: Reading) -> (r: Self)
        ensures
            r@ == with_l(self@, l@),
    {
        let mut r = self;
        r.l = l;
        r
    }

    /// Sets the close price.
    pub fn c(self, c: Reading) -> (r: Self)
        ensures
            r@ == with_c(self@, c@),
    {
        let mut r = self;
        r.c = c;
        r
    }

    /// Sets the volume.
    pub fn v(self, v: Reading) -> (r: Self)
        ensures
            r@ == with_v(self@, v@),
    {
        let mut r = self;
        r.v = v;
        r
    }

    /// The candlestick with the values set so far.
    pub fn build(self) -> (r: candle_stick)
        ensures
            r@ == self@,
    {
        candle_stick {
            source: self.source,
            ts: self.ts,
            o: self.o,
            h: self.h,
            l: self.l,
            c: self.c,
            v: self.v,
        }
    }
}

/// A builder in which every field was set hands out exactly the values that
/// it was given: nothing of the blank candlestick is left in what it builds.
pub proof fn lemma_build_round_trip(
    source: Seq<char>,
    ts: u64,
    o: Seq<char>,
    h: Seq<char>,
    l: Seq<char>,
    c: Seq<char>,
    v: Seq<char>,
)
    ensures
        with_v(
            with_c(
                with_l(with_h(with_o(with_ts(with_source(blank(), source), ts), o), h), l),
                c,
            ),
            v,
        ) == (CandleView { source, ts, o, h, l, c, v }),
{
}

} // verus!
