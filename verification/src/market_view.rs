//! Market data read models: the per-symbol price view, the candlestick
//! view, and the market data cache that projection handlers keep current.

use vstd::prelude::*;

use crate::types::Decimal;
use crate::types::SymbolPair;
use crate::types::Timeframe;
use crate::util::now_timestamp_millis;

verus! {

/// The most candles one `(symbol pair, timeframe)` sequence retains;
/// older entries are evicted first.
pub const MAX_CANDLES: usize = 1000;

/// The latest market price of one symbol pair, with rolling 24-hour data.
#[derive(Debug)]
pub struct MarketPriceView {
    /// The symbol pair this view describes.
    pub symbol_pair: SymbolPair,
    /// Latest observed price.
    pub price: Decimal,
    /// Highest price of the last 24 hours.
    pub high_24h: Decimal,
    /// Lowest price of the last 24 hours.
    pub low_24h: Decimal,
    /// Traded volume of the last 24 hours.
    pub volume_24h: Decimal,
    /// When this view was last written, in milliseconds since the epoch.
    pub last_updated: i64,
}

/// The view `update_price` leaves behind: price and update time replaced,
/// extremes widened when the price moves beyond them, volume kept.
pub open spec fn spec_update_price(v: MarketPriceView, price: Decimal, timestamp: i64)
    -> MarketPriceView {
    MarketPriceView {
        symbol_pair: v.symbol_pair,
        price,
        high_24h: if price > v.high_24h {
            price
        } else {
            v.high_24h
        },
        low_24h: if price < v.low_24h {
            price
        } else {
            v.low_24h
        },
        volume_24h: v.volume_24h,
        last_updated: timestamp,
    }
}

impl MarketPriceView {
    /// Builds a view from its parts; the update time is the current clock
    /// reading.
    pub fn new(
        symbol_pair: SymbolPair,
        price: Decimal,
        high_24h: Decimal,
        low_24h: Decimal,
        volume_24h: Decimal,
    ) -> (r: MarketPriceView)
        ensures
            r.symbol_pair == symbol_pair,
            r.price == price,
            r.high_24h == high_24h,
            r.low_24h == low_24h,
            r.volume_24h == volume_24h,
    {
        MarketPriceView {
            symbol_pair,
            price,
            high_24h,
            low_24h,
            volume_24h,
            last_updated: now_timestamp_millis(),
        }
    }

    /// Overwrites the price and update time, and widens the 24-hour
    /// extremes when the new price exceeds or undercuts them.
    pub fn update_price(&mut self, price: Decimal, timestamp: i64)
        ensures
            *final(self) == spec_update_price(*old(self), price, timestamp),
    {
        self.price = price;
        self.last_updated = timestamp;
        if price > self.high_24h {
            self.high_24h = price;
        }
        if price < self.low_24h {
            self.low_24h = price;
        }
    }

    /// Unconditionally overwrites the three 24-hour fields and bumps the
    /// update time to the current clock reading; the price is untouched.
    pub fn update_24h_data(&mut self, high: Decimal, low: Decimal, volume: Decimal)
        ensures
            final(self).symbol_pair == old(self).symbol_pair,
            final(self).price == old(self).price,
            final(self).high_24h == high,
            final(self).low_24h == low,
            final(self).volume_24h == volume,
    {
        self.high_24h = high;
        self.low_24h = low;
        self.volume_24h = volume;
        self.last_updated = now_timestamp_millis();
    }
}

impl Clone for MarketPriceView {
    fn clone(&self) -> (r: MarketPriceView)
        ensures
            r == self,
    {
        MarketPriceView {
            symbol_pair: self.symbol_pair.clone(),
            price: self.price,
            high_24h: self.high_24h,
            low_24h: self.low_24h,
            volume_24h: self.volume_24h,
            last_updated: self.last_updated,
        }
    }
}

/// One OHLCV candlestick of a symbol pair at a timeframe.
#[derive(Debug)]
pub struct CandlestickView {
    /// The symbol pair this candle describes.
    pub symbol_pair: SymbolPair,
    /// The period the candle covers.
    pub timeframe: Timeframe,
    /// Start of the candle's period, in milliseconds since the epoch.
    pub timestamp: i64,
    /// First traded price of the period.
    pub open: Decimal,
    /// Highest traded price of the period.
    pub high: Decimal,
    /// Lowest traded price of the period.
    pub low: Decimal,
    /// Last traded price of the period.
    pub close: Decimal,
    /// Total volume traded in the period.
    pub volume: Decimal,
}

impl CandlestickView {
    /// The cache key of this candle: its symbol pair and timeframe.
    pub open spec fn spec_key(&self) -> ((Seq<char>, Seq<char>), Timeframe) {
        (self.symbol_pair.key(), self.timeframe)
    }

    /// Builds a candlestick view from its parts.
    pub fn new(
        symbol_pair: SymbolPair,
        timeframe: Timeframe,
        timestamp: i64,
        open: Decimal,
        high: Decimal,
        low: Decimal,
        close: Decimal,
        volume: Decimal,
    ) -> (r: CandlestickView)
        ensures
            r == (CandlestickView { symbol_pair, timeframe, timestamp, open, high, low, close, volume }),
    {
        CandlestickView { symbol_pair, timeframe, timestamp, open, high, low, close, volume }
    }
}

impl Clone for CandlestickView {
    fn clone(&self) -> (r: CandlestickView)
        ensures
            r == self,
    {
        CandlestickView {
            symbol_pair: self.symbol_pair.clone(),
            timeframe: self.timeframe,
            timestamp: self.timestamp,
            open: self.open,
            high: self.high,
            low: self.low,
            close: self.close,
            volume: self.volume,
        }
    }
}

/// The candles stored for one `(symbol pair, timeframe)` key.
#[derive(Debug)]
struct CandleSeries {
    symbol_pair: SymbolPair,
    timeframe: Timeframe,
    candles: Vec<CandlestickView>,
}

/// The mathematical view of one stored candle sequence.
pub struct CandleSeriesView {
    /// The key's symbol pair, as its two asset names.
    pub symbol: (Seq<char>, Seq<char>),
    /// The key's timeframe.
    pub timeframe: Timeframe,
    /// The stored candles, ascending by timestamp.
    pub candles: Seq<CandlestickView>,
}

/// Candles strictly ascending by timestamp: sorted, with no two entries
/// sharing a timestamp.
pub open spec fn candles_sorted(s: Seq<CandlestickView>) -> bool {
    forall|i: int, j: int| 0 <= i < j < s.len() ==> s[i].timestamp < s[j].timestamp
}

/// How one candle sequence follows from another by `update_candle`:
/// an entry with the same timestamp is replaced in place; otherwise the
/// candle enters at its sorted position and, past the bound, the oldest
/// entry is evicted.
pub open spec fn candle_inserted(
    s: Seq<CandlestickView>,
    t: Seq<CandlestickView>,
    c: CandlestickView,
) -> bool {
    if exists|j: int| 0 <= j < s.len() && (#[trigger] s[j]).timestamp == c.timestamp {
        exists|j: int|
            0 <= j < s.len() && (#[trigger] s[j]).timestamp == c.timestamp && t == s.update(j, c)
    } else {
        exists|p: int|
            {
                &&& 0 <= p <= s.len()
                &&& (forall|j: int| 0 <= j < p ==> (#[trigger] s[j]).timestamp < c.timestamp)
                &&& (forall|j: int| p <= j < s.len() ==> (#[trigger] s[j]).timestamp > c.timestamp)
                &&& t == if s.len() < MAX_CANDLES {
                    s.insert(p, c)
                } else {
                    s.insert(p, c).subrange(1, s.len() as int + 1)
                }
            }
    }
}

/// A cache of market data per symbol pair: latest prices and bounded
/// candlestick sequences. Unknown keys yield empty results, never errors:
/// absence of data is a normal outcome of a cache.
#[derive(Debug)]
pub struct MarketDataCache {
    prices: Vec<MarketPriceView>,
    candles: Vec<CandleSeries>,
}

impl MarketDataCache {
    /// The stored price views, in insertion order.
    pub closed spec fn price_views(&self) -> Seq<MarketPriceView> {
        self.prices@
    }

    /// The stored candle sequences, in key insertion order.
    pub closed spec fn series(&self) -> Seq<CandleSeriesView> {
        self.candles@.map_values(
            |cs: CandleSeries|
                CandleSeriesView {
                    symbol: cs.symbol_pair.key(),
                    timeframe: cs.timeframe,
                    candles: cs.candles@,
                },
        )
    }

    /// Cache well-formedness: price keys are unique; series keys are
    /// unique; every series is strictly ascending by timestamp, within the
    /// bound, and holds only candles carrying the series key.
    pub open spec fn wf(&self) -> bool {
        &&& (forall|i: int, j: int|
            0 <= i < j < self.price_views().len() ==> (
            #[trigger] self.price_views()[i]).symbol_pair.key() != (
            #[trigger] self.price_views()[j]).symbol_pair.key())
        &&& (forall|i: int, j: int|
            0 <= i < j < self.series().len() ==> ((#[trigger] self.series()[i]).symbol, self.series()[i].timeframe)
                != ((#[trigger] self.series()[j]).symbol, self.series()[j].timeframe))
        &&& (forall|i: int|
            0 <= i < self.series().len() ==> candles_sorted(
                (#[trigger] self.series()[i]).candles,
            ))
        &&& (forall|i: int|
            0 <= i < self.series().len() ==> (#[trigger] self.series()[i]).candles.len()
                <= MAX_CANDLES)
        &&& (forall|i: int, j: int|
            0 <= i < self.series().len() && 0 <= j < (#[trigger] self.series()[i]).candles.len()
                ==> ((#[trigger] self.series()[i].candles[j]).symbol_pair.key(),
            self.series()[i].candles[j].timeframe) == (
            self.series()[i].symbol,
            self.series()[i].timeframe,
            ))
    }

    /// Creates an empty cache.
    pub fn new() -> (r: MarketDataCache)
        ensures
            r.price_views() == Seq::<MarketPriceView>::empty(),
            r.series() == Seq::<CandleSeriesView>::empty(),
            r.wf(),
    {
        let r = MarketDataCache { prices: Vec::new(), candles: Vec::new() };
        proof {
            assert(r.series() =~= Seq::<CandleSeriesView>::empty());
        }
        r
    }

    /// Point read of the latest price view of a symbol pair; `None` when
    /// the pair was never written. The result is an owned snapshot.
    pub fn get_price(&self, symbol_pair: &SymbolPair) -> (r: Option<MarketPriceView>)
        ensures
            (r is Some) <==> exists|i: int|
                0 <= i < self.price_views().len() && (
                #[trigger] self.price_views()[i]).symbol_pair.key() == symbol_pair.key(),
            r matches Some(v) ==> exists|i: int|
                0 <= i < self.price_views().len() && (
                #[trigger] self.price_views()[i]).symbol_pair.key() == symbol_pair.key() && v
                    == self.price_views()[i],
    {
        let n = self.prices.len();
        let mut i: usize = 0;
        while i < n
            invariant
                i <= n,
                n == self.price_views().len(),
                forall|j: int|
                    0 <= j < i ==> (#[trigger] self.price_views()[j]).symbol_pair.key()
                        != symbol_pair.key(),
            decreases n - i,
        {
            if self.prices[i].symbol_pair.eq(symbol_pair) {
                return Some(self.prices[i].clone());
            }
            i = i + 1;
        }
        None
    }

    /// Overwrites the price of a known pair — widening the 24-hour
    /// extremes as `MarketPriceView::update_price` does — or creates a
    /// fresh view whose extremes both start at the price and whose
    /// 24-hour volume starts at zero.
    pub fn update_price(&mut self, symbol_pair: SymbolPair, price: Decimal, timestamp: i64)
        requires
            old(self).wf(),
        ensures
            final(self).wf(),
            final(self).series() == old(self).series(),
            (exists|i: int|
                0 <= i < old(self).price_views().len() && (
                #[trigger] old(self).price_views()[i]).symbol_pair.key() == symbol_pair.key())
                ==> exists|i: int|
                0 <= i < old(self).price_views().len() && (
                #[trigger] old(self).price_views()[i]).symbol_pair.key() == symbol_pair.key()
                    && final(self).price_views() == old(self).price_views().update(
                    i,
                    spec_update_price(old(self).price_views()[i], price, timestamp),
                ),
            (!exists|i: int|
                0 <= i < old(self).price_views().len() && (
                #[trigger] old(self).price_views()[i]).symbol_pair.key() == symbol_pair.key()) ==> {
                &&& final(self).price_views().len() == old(self).price_views().len() + 1
                &&& final(self).price_views().take(old(self).price_views().len() as int) == old(
                    self,
                ).price_views()
                &&& final(self).price_views().last().symbol_pair.key() == symbol_pair.key()
                &&& final(self).price_views().last().price == price
                &&& final(self).price_views().last().high_24h == price
                &&& final(self).price_views().last().low_24h == price
                &&& final(self).price_views().last().volume_24h == 0
            },
    {
        let n = self.prices.len();
        let mut i: usize = 0;
        while i < n
            invariant
                i <= n,
                n == self.price_views().len(),
                *self == *old(self),
                old(self).wf(),
                forall|j: int|
                    0 <= j < i ==> (#[trigger] self.price_views()[j]).symbol_pair.key()
                        != symbol_pair.key(),
            decreases n - i,
        {
            if self.prices[i].symbol_pair.eq(&symbol_pair) {
                let ghost pre = *self;
                let mut v = self.prices.remove(i);
                v.update_price(price, timestamp);
                self.prices.insert(i, v);
                proof {
                    assert(self.price_views() =~= pre.price_views().update(
                        i as int,
                        spec_update_price(pre.price_views()[i as int], price, timestamp),
                    ));
                    assert(self.series() =~= pre.series());
                    assert(self.price_views()[i as int].symbol_pair
                        == pre.price_views()[i as int].symbol_pair);
                    assert forall|a: int, b: int|
                        0 <= a < b < self.price_views().len() implies self.price_views()[a].symbol_pair.key()
                        != self.price_views()[b].symbol_pair.key() by {
                        assert(pre.price_views()[a].symbol_pair.key()
                            != pre.price_views()[b].symbol_pair.key());
                    }
                }
                return ;
            }
            i = i + 1;
        }
        let ghost pre = *self;
        let view = MarketPriceView::new(symbol_pair, price, price, price, 0);
        self.prices.push(view);
        proof {
            assert(self.price_views().take(pre.price_views().len() as int) =~= pre.price_views());
            assert(self.series() =~= pre.series());
        }
    }

    /// Overwrites the three 24-hour fields of a known pair, leaving its
    /// price untouched; unknown pairs are left unchanged.
    pub fn update_24h_data(
        &mut self,
        symbol_pair: &SymbolPair,
        high: Decimal,
        low: Decimal,
        volume: Decimal,
    )
        requires
            old(self).wf(),
        ensures
            final(self).wf(),
            final(self).series() == old(self).series(),
            (exists|i: int|
                0 <= i < old(self).price_views().len() && (
                #[trigger] old(self).price_views()[i]).symbol_pair.key() == symbol_pair.key())
                ==> exists|i: int|
                {
                    &&& 0 <= i < old(self).price_views().len()
                    &&& (#[trigger] old(self).price_views()[i]).symbol_pair.key()
                        == symbol_pair.key()
                    &&& final(self).price_views().len() == old(self).price_views().len()
                    &&& (forall|j: int|
                        0 <= j < old(self).price_views().len() && j != i ==> final(self).price_views()[j] == old(self).price_views()[j])
                    &&& final(self).price_views()[i].symbol_pair == old(self).price_views()[i].symbol_pair
                    &&& final(self).price_views()[i].price == old(self).price_views()[i].price
                    &&& final(self).price_views()[i].high_24h == high
                    &&& final(self).price_views()[i].low_24h == low
                    &&& final(self).price_views()[i].volume_24h == volume
                },
            (!exists|i: int|
                0 <= i < old(self).price_views().len() && (
                #[trigger] old(self).price_views()[i]).symbol_pair.key() == symbol_pair.key())
                ==> final(self).price_views() == old(self).price_views(),
    {
        let n = self.prices.len();
        let mut i: usize = 0;
        while i < n
            invariant
                i <= n,
                n == self.price_views().len(),
                *self == *old(self),
                old(self).wf(),
                forall|j: int|
                    0 <= j < i ==> (#[trigger] self.price_views()[j]).symbol_pair.key()
                        != symbol_pair.key(),
            decreases n - i,
        {
            if self.prices[i].symbol_pair.eq(symbol_pair) {
                let ghost pre = *self;
                let mut v = self.prices.remove(i);
                v.update_24h_data(high, low, volume);
                self.prices.insert(i, v);
                proof {
                    assert(self.series() =~= pre.series());
                    assert(self.price_views().len() == pre.price_views().len());
                    assert forall|j: int|
                        0 <= j < pre.price_views().len() && j != i as int implies self.price_views()[j]
                        == pre.price_views()[j] by {}
                    assert(self.price_views()[i as int].symbol_pair
                        == pre.price_views()[i as int].symbol_pair);
                    assert forall|a: int, b: int|
                        0 <= a < b < self.price_views().len() implies self.price_views()[a].symbol_pair.key()
                        != self.price_views()[b].symbol_pair.key() by {
                        assert(pre.price_views()[a].symbol_pair.key()
                            != pre.price_views()[b].symbol_pair.key());
                    }
                }
                return ;
            }
            i = i + 1;
        }
    }

    /// Locates the candle sequence of the candle's `(symbol pair,
    /// timeframe)` key: a stored candle with the same timestamp is
    /// replaced in place; otherwise the candle enters at its sorted
    /// position and, past the bound, the oldest entry is evicted. A
    /// candle for an unknown key starts a fresh sequence.
    pub fn update_candle(&mut self, candle: CandlestickView)
        requires
            old(self).wf(),
        ensures
            final(self).wf(),
            final(self).price_views() == old(self).price_views(),
            (exists|i: int|
                0 <= i < old(self).series().len() && ((#[trigger] old(self).series()[i]).symbol,
                old(self).series()[i].timeframe) == candle.spec_key()) ==> exists|i: int|
                {
                    &&& 0 <= i < old(self).series().len()
                    &&& ((#[trigger] old(self).series()[i]).symbol, old(self).series()[i].timeframe)
                        == candle.spec_key()
                    &&& final(self).series().len() == old(self).series().len()
                    &&& (forall|j: int|
                        0 <= j < old(self).series().len() && j != i ==> final(self).series()[j]
                            == old(self).series()[j])
                    &&& final(self).series()[i].symbol == old(self).series()[i].symbol
                    &&& final(self).series()[i].timeframe == old(self).series()[i].timeframe
                    &&& candle_inserted(
                        old(self).series()[i].candles,
                        final(self).series()[i].candles,
                        candle,
                    )
                },
            (!exists|i: int|
                0 <= i < old(self).series().len() && ((#[trigger] old(self).series()[i]).symbol,
                old(self).series()[i].timeframe) == candle.spec_key()) ==> {
                &&& final(self).series().len() == old(self).series().len() + 1
                &&& final(self).series().take(old(self).series().len() as int) == old(self).series()
                &&& final(self).series().last().symbol == candle.symbol_pair.key()
                &&& final(self).series().last().timeframe == candle.timeframe
                &&& final(self).series().last().candles == seq![candle]
            },
    {
        let n = self.candles.len();
        let mut i: usize = 0;
        while i < n
            invariant
                i <= n,
                n == self.series().len(),
                *self == *old(self),
                old(self).wf(),
                forall|j: int|
                    0 <= j < i ==> ((#[trigger] self.series()[j]).symbol, self.series()[j].timeframe)
                        != candle.spec_key(),
            decreases n - i,
        {
            if self.candles[i].symbol_pair.eq(&candle.symbol_pair) && self.candles[i].timeframe
                == candle.timeframe {
                let ghost pre = *self;
                let ghost key = candle.spec_key();
                let mut series = self.candles.remove(i);
                proof {
                    assert(pre.series()[i as int].candles == series.candles@);
                    assert(candles_sorted(series.candles@));
                    assert(series.candles@.len() <= MAX_CANDLES);
                    assert forall|j: int| 0 <= j < series.candles@.len() implies (
                    #[trigger] series.candles@[j]).spec_key() == candle.spec_key() by {
                        assert((pre.series()[i as int].candles[j].symbol_pair.key(),
                        pre.series()[i as int].candles[j].timeframe) == (
                        pre.series()[i as int].symbol,
                        pre.series()[i as int].timeframe,
                        ));
                    }
                }
                insert_candle_sorted(&mut series.candles, candle);
                self.candles.insert(i, series);
                proof {
                    assert(self.series().len() == pre.series().len());
                    assert forall|j: int|
                        0 <= j < pre.series().len() && j != i as int implies self.series()[j]
                        == pre.series()[j] by {}
                    assert(self.series()[i as int].symbol == pre.series()[i as int].symbol);
                    assert(self.series()[i as int].timeframe == pre.series()[i as int].timeframe);
                    assert(candle_inserted(
                        pre.series()[i as int].candles,
                        self.series()[i as int].candles,
                        candle,
                    ));
                    assert forall|a: int, b: int|
                        0 <= a < b < self.series().len() implies ((#[trigger] self.series()[a]).symbol,
                        self.series()[a].timeframe) != ((#[trigger] self.series()[b]).symbol,
                        self.series()[b].timeframe,
                        ) by {
                        assert((pre.series()[a].symbol, pre.series()[a].timeframe) != (
                        pre.series()[b].symbol,
                        pre.series()[b].timeframe,
                        ));
                    }
                    assert(self.price_views() =~= pre.price_views());
                    assert forall|j: int|
                        0 <= j < self.series().len() implies candles_sorted(
                        (#[trigger] self.series()[j]).candles,
                    ) by {
                        if j != i as int {
                            assert(self.series()[j] == pre.series()[j]);
                            assert(candles_sorted(pre.series()[j].candles));
                        }
                    }
                    assert forall|j: int|
                        0 <= j < self.series().len() implies (#[trigger] self.series()[j]).candles.len()
                        <= MAX_CANDLES by {
                        if j != i as int {
                            assert(self.series()[j] == pre.series()[j]);
                            assert(pre.series()[j].candles.len() <= MAX_CANDLES);
                        }
                    }
                    assert forall|a: int, b: int|
                        0 <= a < self.series().len() && 0 <= b < (
                    #[trigger] self.series()[a]).candles.len() implies ((
                    #[trigger] self.series()[a].candles[b]).symbol_pair.key(),
                    self.series()[a].candles[b].timeframe) == (
                    self.series()[a].symbol,
                    self.series()[a].timeframe,
                    ) by {
                        if a == i as int {
                            assert(self.series()[a].candles[b].spec_key() == candle.spec_key());
                        } else {
                            assert(self.series()[a] == pre.series()[a]);
                            assert((pre.series()[a].candles[b].symbol_pair.key(),
                            pre.series()[a].candles[b].timeframe) == (
                            pre.series()[a].symbol,
                            pre.series()[a].timeframe,
                            ));
                        }
                    }
                }
                return ;
            }
            i = i + 1;
        }
        let ghost pre = *self;
        let symbol_pair = candle.symbol_pair.clone();
        let timeframe = candle.timeframe;
        let mut fresh: Vec<CandlestickView> = Vec::new();
        fresh.push(candle);
        self.candles.push(CandleSeries { symbol_pair, timeframe, candles: fresh });
        proof {
            assert(self.series().take(pre.series().len() as int) =~= pre.series());
            assert(self.series().last().candles =~= seq![candle]);
            assert(self.price_views() =~= pre.price_views());
            let last = self.series().len() - 1;
            assert forall|j: int| 0 <= j < pre.series().len() implies #[trigger] self.series()[j]
                == pre.series()[j] by {
                assert(self.series().take(pre.series().len() as int)[j] == self.series()[j]);
            }
            assert forall|a: int, b: int|
                0 <= a < b < self.series().len() implies ((#[trigger] self.series()[a]).symbol,
                self.series()[a].timeframe) != ((#[trigger] self.series()[b]).symbol,
                self.series()[b].timeframe,
                ) by {
                if b < last {
                    assert((pre.series()[a].symbol, pre.series()[a].timeframe) != (
                    pre.series()[b].symbol,
                    pre.series()[b].timeframe,
                    ));
                } else {
                    assert(((self.series()[b].symbol, self.series()[b].timeframe)) == candle.spec_key());
                }
            }
            assert forall|j: int|
                0 <= j < self.series().len() implies candles_sorted(
                (#[trigger] self.series()[j]).candles,
            ) by {
                if j < last {
                    assert(candles_sorted(pre.series()[j].candles));
                } else {
                    assert(self.series()[j].candles.len() == 1);
                }
            }
            assert forall|j: int|
                0 <= j < self.series().len() implies (#[trigger] self.series()[j]).candles.len()
                <= MAX_CANDLES by {
                if j < last {
                    assert(pre.series()[j].candles.len() <= MAX_CANDLES);
                }
            }
            assert forall|a: int, b: int|
                0 <= a < self.series().len() && 0 <= b < (
            #[trigger] self.series()[a]).candles.len() implies ((
            #[trigger] self.series()[a].candles[b]).symbol_pair.key(),
            self.series()[a].candles[b].timeframe) == (
            self.series()[a].symbol,
            self.series()[a].timeframe,
            ) by {
                if a < last {
                    assert((pre.series()[a].candles[b].symbol_pair.key(),
                    pre.series()[a].candles[b].timeframe) == (
                    pre.series()[a].symbol,
                    pre.series()[a].timeframe,
                    ));
                } else {
                    assert(self.series()[a].candles[b] == candle);
                }
            }
        }
    }

    /// Returns up to the `limit` most recent candles of a key, ascending
    /// by time; an unknown key yields an empty sequence. The result is an
    /// owned snapshot.
    pub fn get_candles(&self, symbol_pair: &SymbolPair, timeframe: Timeframe, limit: usize) -> (r:
        Vec<CandlestickView>)
        ensures
            (exists|i: int|
                0 <= i < self.series().len() && ((#[trigger] self.series()[i]).symbol,
                self.series()[i].timeframe) == (symbol_pair.key(), timeframe)) ==> exists|i: int|
                {
                    &&& 0 <= i < self.series().len()
                    &&& ((#[trigger] self.series()[i]).symbol, self.series()[i].timeframe) == (
                    symbol_pair.key(),
                    timeframe,
                    )
                    &&& r@ == ({
                        let s = self.series()[i].candles;
                        let k: int = if limit <= s.len() {
                            limit as int
                        } else {
                            s.len() as int
                        };
                        s.subrange(s.len() - k, s.len() as int)
                    })
                },
            (!exists|i: int|
                0 <= i < self.series().len() && ((#[trigger] self.series()[i]).symbol,
                self.series()[i].timeframe) == (symbol_pair.key(), timeframe)) ==> r@ == Seq::<
                CandlestickView,
            >::empty(),
    {
        let n = self.candles.len();
        let mut i: usize = 0;
        while i < n
            invariant
                i <= n,
                n == self.series().len(),
                forall|j: int|
                    0 <= j < i ==> ((#[trigger] self.series()[j]).symbol, self.series()[j].timeframe)
                        != (symbol_pair.key(), timeframe),
            decreases n - i,
        {
            if self.candles[i].symbol_pair.eq(symbol_pair) && self.candles[i].timeframe
                == timeframe {
                let len = self.candles[i].candles.len();
                let start: usize = if limit <= len {
                    len - limit
                } else {
                    0
                };
                let mut r: Vec<CandlestickView> = Vec::new();
                let mut j: usize = start;
                proof {
                    assert(r@ =~= self.series()[i as int].candles.subrange(
                        start as int,
                        start as int,
                    ));
                }
                while j < len
                    invariant
                        start <= j <= len,
                        i < n,
                        n == self.series().len(),
                        len == self.series()[i as int].candles.len(),
                        len == self.candles@[i as int].candles@.len(),
                        self.candles@[i as int].candles@ == self.series()[i as int].candles,
                        r@ == self.series()[i as int].candles.subrange(start as int, j as int),
                    decreases len - j,
                {
                    r.push(self.candles[i].candles[j].clone());
                    j = j + 1;
                    proof {
                        assert(r@ =~= self.series()[i as int].candles.subrange(
                            start as int,
                            j as int,
                        ));
                    }
                }
                return r;
            }
            i = i + 1;
        }
        Vec::new()
    }
}

/// Replacing the entry that shares a candle's timestamp keeps the
/// sequence strictly sorted.
proof fn lemma_update_sorted(s: Seq<CandlestickView>, j: int, c: CandlestickView)
    requires
        candles_sorted(s),
        0 <= j < s.len(),
        s[j].timestamp == c.timestamp,
    ensures
        candles_sorted(s.update(j, c)),
{
    let t = s.update(j, c);
    assert forall|a: int, b: int| 0 <= a < b < t.len() implies t[a].timestamp < t[b].timestamp by {
        assert(s[a].timestamp < s[b].timestamp);
    }
}

/// Inserting a candle at its sorted position keeps the sequence strictly
/// sorted.
proof fn lemma_insert_sorted(s: Seq<CandlestickView>, c: CandlestickView, p: int)
    requires
        candles_sorted(s),
        0 <= p <= s.len(),
        forall|j: int| 0 <= j < p ==> (#[trigger] s[j]).timestamp < c.timestamp,
        forall|j: int| p <= j < s.len() ==> (#[trigger] s[j]).timestamp > c.timestamp,
    ensures
        candles_sorted(s.insert(p, c)),
{
    let t = s.insert(p, c);
    assert forall|a: int, b: int| 0 <= a < b < t.len() implies t[a].timestamp < t[b].timestamp by {
        if a < p && b < p {
            assert(s[a].timestamp < s[b].timestamp);
        } else if a < p && b == p {
            assert(s[a].timestamp < c.timestamp);
        } else if a < p && b > p {
            assert(s[a].timestamp < c.timestamp);
            assert(s[b - 1].timestamp > c.timestamp);
        } else if a == p {
            assert(s[b - 1].timestamp > c.timestamp);
        } else {
            assert(s[a - 1].timestamp < s[b - 1].timestamp);
        }
    }
}

/// In a strictly sorted sequence, no two entries share a timestamp, so a
/// timestamp occurs at exactly one position.
proof fn lemma_sorted_ts_unique(s: Seq<CandlestickView>, a: int, b: int)
    requires
        candles_sorted(s),
        0 <= a < s.len(),
        0 <= b < s.len(),
        s[a].timestamp == s[b].timestamp,
    ensures
        a == b,
{
    if a < b {
        assert(s[a].timestamp < s[b].timestamp);
    }
    if b < a {
        assert(s[b].timestamp < s[a].timestamp);
    }
}

/// Candle cache bound: a candle write never grows a sequence past the
/// retention bound, and a write into a full sequence at a fresh timestamp
/// keeps it full while evicting exactly the oldest entry.
pub proof fn lemma_candle_bound(
    s: Seq<CandlestickView>,
    t: Seq<CandlestickView>,
    c: CandlestickView,
)
    requires
        candles_sorted(s),
        s.len() <= MAX_CANDLES,
        candle_inserted(s, t, c),
    ensures
        t.len() <= MAX_CANDLES,
        (s.len() == MAX_CANDLES && (forall|j: int|
            0 <= j < s.len() ==> (#[trigger] s[j]).timestamp != c.timestamp)) ==> (t.len()
            == MAX_CANDLES && exists|p: int|
            0 <= p <= s.len() && t == s.insert(p, c).subrange(1, s.len() as int + 1)),
{
    if exists|j: int| 0 <= j < s.len() && (#[trigger] s[j]).timestamp == c.timestamp {
        let j = choose|j: int|
            0 <= j < s.len() && (#[trigger] s[j]).timestamp == c.timestamp && t == s.update(j, c);
        assert(t.len() == s.len());
    } else {
        let p = choose|p: int|
            {
                &&& 0 <= p <= s.len()
                &&& (forall|j: int| 0 <= j < p ==> (#[trigger] s[j]).timestamp < c.timestamp)
                &&& (forall|j: int| p <= j < s.len() ==> (#[trigger] s[j]).timestamp > c.timestamp)
                &&& t == if s.len() < MAX_CANDLES {
                    s.insert(p, c)
                } else {
                    s.insert(p, c).subrange(1, s.len() as int + 1)
                }
            };
        if s.len() < MAX_CANDLES {
            assert(t.len() == s.len() + 1);
        } else {
            assert(t.len() == MAX_CANDLES);
        }
    }
}

/// Candle cache deduplication and order: writing a candle at a timestamp
/// and then writing a second candle at the same timestamp leaves the
/// sequence the second write alone would have left — strictly sorted,
/// with exactly one entry at that timestamp, holding the later values.
/// (Stated for sequences below the retention bound, where no eviction
/// interferes.)
#[verifier::rlimit(60)]
pub proof fn lemma_candle_dedup(
    s: Seq<CandlestickView>,
    t: Seq<CandlestickView>,
    u: Seq<CandlestickView>,
    c1: CandlestickView,
    c2: CandlestickView,
)
    requires
        candles_sorted(s),
        s.len() < MAX_CANDLES,
        c1.timestamp == c2.timestamp,
        candle_inserted(s, t, c1),
        candle_inserted(t, u, c2),
    ensures
        candle_inserted(s, u, c2),
        candles_sorted(u),
        exists|j: int|
            0 <= j < u.len() && #[trigger] u[j] == c2 && (forall|x: int|
                0 <= x < u.len() && x != j ==> (#[trigger] u[x]).timestamp != c2.timestamp),
{
    if exists|j: int| 0 <= j < s.len() && (#[trigger] s[j]).timestamp == c1.timestamp {
        let j = choose|j: int|
            0 <= j < s.len() && (#[trigger] s[j]).timestamp == c1.timestamp && t == s.update(
                j,
                c1,
            );
        lemma_update_sorted(s, j, c1);
        assert(t[j].timestamp == c2.timestamp);
        let j2 = choose|x: int|
            0 <= x < t.len() && (#[trigger] t[x]).timestamp == c2.timestamp && u == t.update(
                x,
                c2,
            );
        lemma_sorted_ts_unique(t, j, j2);
        assert(u =~= s.update(j, c2));
        lemma_update_sorted(s, j, c2);
        assert forall|x: int| 0 <= x < u.len() && x != j implies (#[trigger] u[x]).timestamp
            != c2.timestamp by {
            if u[x].timestamp == c2.timestamp {
                lemma_sorted_ts_unique(u, x, j);
            }
        }
        assert(u[j] == c2);
    } else {
        let p = choose|p: int|
            {
                &&& 0 <= p <= s.len()
                &&& (forall|j: int| 0 <= j < p ==> (#[trigger] s[j]).timestamp < c1.timestamp)
                &&& (forall|j: int| p <= j < s.len() ==> (#[trigger] s[j]).timestamp > c1.timestamp)
                &&& t == if s.len() < MAX_CANDLES {
                    s.insert(p, c1)
                } else {
                    s.insert(p, c1).subrange(1, s.len() as int + 1)
                }
            };
        assert(t == s.insert(p, c1));
        lemma_insert_sorted(s, c1, p);
        assert(t[p].timestamp == c2.timestamp);
        let j2 = choose|x: int|
            0 <= x < t.len() && (#[trigger] t[x]).timestamp == c2.timestamp && u == t.update(
                x,
                c2,
            );
        lemma_sorted_ts_unique(t, p, j2);
        assert(u =~= s.insert(p, c2));
        assert forall|j: int| 0 <= j < s.len() implies (#[trigger] s[j]).timestamp
            != c2.timestamp by {}
        lemma_insert_sorted(s, c2, p);
        assert(u[p] == c2);
        assert forall|x: int| 0 <= x < u.len() && x != p implies (#[trigger] u[x]).timestamp
            != c2.timestamp by {
            if u[x].timestamp == c2.timestamp {
                lemma_sorted_ts_unique(u, x, p);
            }
        }
    }
}

/// Inserts one candle into a strictly sorted candle sequence: an entry
/// with the same timestamp is replaced in place; otherwise the candle
/// enters at its sorted position and, past the bound, the oldest entry is
/// evicted.
fn insert_candle_sorted(candles: &mut Vec<CandlestickView>, candle: CandlestickView)
    requires
        candles_sorted(old(candles)@),
        old(candles)@.len() <= MAX_CANDLES,
    ensures
        candle_inserted(old(candles)@, final(candles)@, candle),
        candles_sorted(final(candles)@),
        1 <= final(candles)@.len() <= MAX_CANDLES,
        (forall|j: int|
            0 <= j < old(candles)@.len() ==> (#[trigger] old(candles)@[j]).spec_key()
                == candle.spec_key()) ==> (forall|j: int|
            0 <= j < final(candles)@.len() ==> (#[trigger] final(candles)@[j]).spec_key()
                == candle.spec_key()),
{
    let n = candles.len();
    let mut p: usize = 0;
    while p < n && candles[p].timestamp < candle.timestamp
        invariant
            p <= n,
            n == candles@.len(),
            *candles == *old(candles),
            forall|j: int| 0 <= j < p ==> (#[trigger] candles@[j]).timestamp < candle.timestamp,
        decreases n - p,
    {
        p = p + 1;
    }
    let ghost s = candles@;
    if p < n && candles[p].timestamp == candle.timestamp {
        let _ = candles.remove(p);
        candles.insert(p, candle);
        proof {
            assert(candles@ =~= s.update(p as int, candle));
            assert forall|a: int, b: int| 0 <= a < b < candles@.len() implies candles@[a].timestamp
                < candles@[b].timestamp by {
                assert(s[a].timestamp < s[b].timestamp);
            }
        }
    } else {
        proof {
            assert forall|j: int| p <= j < s.len() implies (#[trigger] s[j]).timestamp
                > candle.timestamp by {
                if j > p {
                    assert(s[p as int].timestamp < s[j].timestamp);
                }
            }
            assert forall|j: int| 0 <= j < s.len() implies (#[trigger] s[j]).timestamp
                != candle.timestamp by {}
        }
        candles.insert(p, candle);
        proof {
            assert forall|a: int, b: int| 0 <= a < b < candles@.len() implies candles@[a].timestamp
                < candles@[b].timestamp by {
                if a < p as int && b < p as int {
                    assert(s[a].timestamp < s[b].timestamp);
                } else if a < p as int && b == p as int {
                    assert(s[a].timestamp < candle.timestamp);
                } else if a < p as int && b > p as int {
                    assert(s[a].timestamp < candle.timestamp);
                    assert(s[b - 1].timestamp > candle.timestamp);
                } else if a == p as int {
                    assert(s[b - 1].timestamp > candle.timestamp);
                } else {
                    assert(s[a - 1].timestamp < s[b - 1].timestamp);
                }
            }
        }
        if candles.len() > MAX_CANDLES {
            let ghost t = candles@;
            let _ = candles.remove(0);
            proof {
                assert(candles@ =~= t.subrange(1, t.len() as int));
                assert(candles@ =~= s.insert(p as int, candle).subrange(1, s.len() as int + 1));
                assert forall|a: int, b: int|
                    0 <= a < b < candles@.len() implies candles@[a].timestamp
                    < candles@[b].timestamp by {
                    assert(t[a + 1].timestamp < t[b + 1].timestamp);
                }
            }
        }
    }
}

} // verus!
