//! Market data events and the projection handlers that translate them
//! into market data cache mutations.

use vstd::prelude::*;

use crate::error::CoreError;
use crate::events::Event;
use crate::events::EventHandler;
use crate::market_view::CandleSeriesView;
use crate::market_view::CandlestickView;
use crate::market_view::MarketDataCache;
use crate::market_view::MarketPriceView;
use crate::market_view::spec_update_price;
use crate::types::Decimal;
use crate::types::SymbolPair;
use crate::types::Timeframe;

verus! {

/// Discriminator of `PriceUpdatedEvent`.
pub const PRICE_UPDATED_DISCRIMINATOR: u64 = 1;

/// Discriminator of `CandlestickUpdatedEvent`.
pub const CANDLESTICK_UPDATED_DISCRIMINATOR: u64 = 2;

/// A market price was observed.
#[derive(Debug, Clone)]
pub struct PriceUpdatedEvent {
    /// Unique identifier of this event instance.
    pub id: u128,
    /// When the price was observed, in milliseconds since the epoch.
    pub timestamp: i64,
    /// The symbol pair the price belongs to.
    pub symbol_pair: SymbolPair,
    /// The observed price.
    pub price: Decimal,
    /// Reported 24-hour high, when the producer knows it.
    pub high_24h: Option<Decimal>,
    /// Reported 24-hour low, when the producer knows it.
    pub low_24h: Option<Decimal>,
    /// Reported 24-hour volume, when the producer knows it.
    pub volume_24h: Option<Decimal>,
}

impl Event for PriceUpdatedEvent {
    open spec fn spec_discriminator(&self) -> u64 {
        PRICE_UPDATED_DISCRIMINATOR
    }

    fn discriminator(&self) -> u64 {
        PRICE_UPDATED_DISCRIMINATOR
    }

    fn event_type(&self) -> &'static str {
        "market.price.updated"
    }

    fn timestamp_millis(&self) -> i64 {
        self.timestamp
    }

    fn id(&self) -> u128 {
        self.id
    }
}

/// A candlestick was opened or updated.
#[derive(Debug, Clone)]
pub struct CandlestickUpdatedEvent {
    /// Unique identifier of this event instance.
    pub id: u128,
    /// When the update was observed, in milliseconds since the epoch.
    pub timestamp: i64,
    /// The symbol pair the candle belongs to.
    pub symbol_pair: SymbolPair,
    /// The candle's timeframe.
    pub timeframe: Timeframe,
    /// Start of the candle's period, in milliseconds since the epoch.
    pub candle_timestamp: i64,
    /// First traded price of the period.
    pub open: Decimal,
    /// Highest traded price of the period.
    pub high: Decimal,
    /// Lowest traded price of the period.
    pub low: Decimal,
    /// Last traded price of the period.
    pub close: Decimal,
    /// Total volume traded in the period.
    pub volume: Decimal,
    /// Whether the period is over and the candle final.
    pub is_complete: bool,
}

impl CandlestickUpdatedEvent {
    /// The candlestick view this event describes.
    pub open spec fn spec_candle(&self) -> CandlestickView {
        CandlestickView {
            symbol_pair: self.symbol_pair,
            timeframe: self.timeframe,
            timestamp: self.candle_timestamp,
            open: self.open,
            high: self.high,
            low: self.low,
            close: self.close,
            volume: self.volume,
        }
    }
}

impl Event for CandlestickUpdatedEvent {
    open spec fn spec_discriminator(&self) -> u64 {
        CANDLESTICK_UPDATED_DISCRIMINATOR
    }

    fn discriminator(&self) -> u64 {
        CANDLESTICK_UPDATED_DISCRIMINATOR
    }

    fn event_type(&self) -> &'static str {
        "market.candlestick.updated"
    }

    fn timestamp_millis(&self) -> i64 {
        self.timestamp
    }

    fn id(&self) -> u128 {
        self.id
    }
}

/// The price views `update_price` leaves behind, given those it found:
/// a known pair's view is rewritten in place; an unknown pair gains a
/// fresh view at the end whose extremes start at the price and whose
/// volume starts at zero.
pub open spec fn price_written(
    s: Seq<MarketPriceView>,
    t: Seq<MarketPriceView>,
    key: (Seq<char>, Seq<char>),
    price: Decimal,
    timestamp: i64,
) -> bool {
    if exists|i: int| 0 <= i < s.len() && (#[trigger] s[i]).symbol_pair.key() == key {
        exists|i: int|
            0 <= i < s.len() && (#[trigger] s[i]).symbol_pair.key() == key && t == s.update(
                i,
                spec_update_price(s[i], price, timestamp),
            )
    } else {
        &&& t.len() == s.len() + 1
        &&& t.take(s.len() as int) == s
        &&& t.last().symbol_pair.key() == key
        &&& t.last().price == price
        &&& t.last().high_24h == price
        &&& t.last().low_24h == price
        &&& t.last().volume_24h == 0
    }
}

/// Handles `PriceUpdatedEvent`s by projecting them onto a market data
/// cache it owns.
#[derive(Debug)]
pub struct PriceUpdatedEventHandler {
    market_data_cache: MarketDataCache,
}

impl PriceUpdatedEventHandler {
    /// The handler's cache.
    pub closed spec fn spec_cache(&self) -> MarketDataCache {
        self.market_data_cache
    }

    #[verifier::type_invariant]
    spec fn type_inv(self) -> bool {
        self.market_data_cache.wf()
    }

    /// Wraps a cache in a handler.
    pub fn new(market_data_cache: MarketDataCache) -> (r: PriceUpdatedEventHandler)
        requires
            market_data_cache.wf(),
        ensures
            r.spec_cache() == market_data_cache,
    {
        PriceUpdatedEventHandler { market_data_cache }
    }

    /// Reads the handler's cache.
    pub fn cache(&self) -> (r: &MarketDataCache)
        ensures
            *r == self.spec_cache(),
            r.wf(),
    {
        proof {
            use_type_invariant(self);
        }
        &self.market_data_cache
    }

    /// Projects one price update onto the cache: the price is written —
    /// creating the pair's view when it is new — and, when the event
    /// reports all three 24-hour figures, those overwrite the view's
    /// 24-hour data.
    pub fn apply(&mut self, event: &PriceUpdatedEvent)
        ensures
            final(self).spec_cache().wf(),
            final(self).spec_cache().series() == old(self).spec_cache().series(),
            ({
                let s = old(self).spec_cache().price_views();
                let t = final(self).spec_cache().price_views();
                let key = event.symbol_pair.key();
                match (event.high_24h, event.low_24h, event.volume_24h) {
                    (Some(h), Some(l), Some(v)) => exists|m: Seq<MarketPriceView>, i: int|
                        {
                            &&& price_written(s, m, key, event.price, event.timestamp)
                            &&& 0 <= i < m.len()
                            &&& (#[trigger] m[i]).symbol_pair.key() == key
                            &&& t.len() == m.len()
                            &&& (forall|j: int| 0 <= j < m.len() && j != i ==> t[j] == m[j])
                            &&& t[i].symbol_pair == m[i].symbol_pair
                            &&& t[i].price == m[i].price
                            &&& t[i].high_24h == h
                            &&& t[i].low_24h == l
                            &&& t[i].volume_24h == v
                        },
                    _ => price_written(s, t, key, event.price, event.timestamp),
                }
            }),
    {
        proof {
            use_type_invariant(&*self);
        }
        let mut cache = MarketDataCache::new();
        core::mem::swap(&mut cache, &mut self.market_data_cache);
        cache.update_price(event.symbol_pair.clone(), event.price, event.timestamp);
        proof {
            assert(price_written(
                old(self).spec_cache().price_views(),
                cache.price_views(),
                event.symbol_pair.key(),
                event.price,
                event.timestamp,
            ));
        }
        if let (Some(high), Some(low), Some(volume)) = (
            event.high_24h,
            event.low_24h,
            event.volume_24h,
        ) {
            let ghost m = cache.price_views();
            proof {
                let s0 = old(self).spec_cache().price_views();
                let key = event.symbol_pair.key();
                if exists|i: int|
                    0 <= i < s0.len() && (#[trigger] s0[i]).symbol_pair.key() == key {
                    let i = choose|i: int|
                        0 <= i < s0.len() && (#[trigger] s0[i]).symbol_pair.key() == key && m
                            == s0.update(i, spec_update_price(s0[i], event.price, event.timestamp));
                    assert(m[i].symbol_pair.key() == key);
                } else {
                    assert(m[m.len() - 1].symbol_pair.key() == key);
                }
            }
            cache.update_24h_data(&event.symbol_pair, high, low, volume);
        }
        core::mem::swap(&mut cache, &mut self.market_data_cache);
    }
}

impl EventHandler<PriceUpdatedEvent> for PriceUpdatedEventHandler {
    open spec fn spec_event_discriminator(&self) -> u64 {
        PRICE_UPDATED_DISCRIMINATOR
    }

    fn event_discriminator(&self) -> u64 {
        PRICE_UPDATED_DISCRIMINATOR
    }

    fn handle(&mut self, event: &PriceUpdatedEvent) -> Result<(), CoreError> {
        self.apply(event);
        Ok(())
    }
}

/// Handles `CandlestickUpdatedEvent`s by projecting them onto a market
/// data cache it owns.
#[derive(Debug)]
pub struct CandlestickUpdatedEventHandler {
    market_data_cache: MarketDataCache,
}

impl CandlestickUpdatedEventHandler {
    /// The handler's cache.
    pub closed spec fn spec_cache(&self) -> MarketDataCache {
        self.market_data_cache
    }

    #[verifier::type_invariant]
    spec fn type_inv(self) -> bool {
        self.market_data_cache.wf()
    }

    /// Wraps a cache in a handler.
    pub fn new(market_data_cache: MarketDataCache) -> (r: CandlestickUpdatedEventHandler)
        requires
            market_data_cache.wf(),
        ensures
            r.spec_cache() == market_data_cache,
    {
        CandlestickUpdatedEventHandler { market_data_cache }
    }

    /// Reads the handler's cache.
    pub fn cache(&self) -> (r: &MarketDataCache)
        ensures
            *r == self.spec_cache(),
            r.wf(),
    {
        proof {
            use_type_invariant(self);
        }
        &self.market_data_cache
    }

    /// Projects one candlestick update onto the cache: the candle is
    /// written into its key's sequence as `update_candle` does, and a
    /// completed candle additionally writes its close as the pair's
    /// latest price.
    pub fn apply(&mut self, event: &CandlestickUpdatedEvent)
        ensures
            final(self).spec_cache().wf(),
            exists|m: MarketDataCache|
                {
                    &&& #[trigger] m.wf()
                    &&& m.price_views() == old(self).spec_cache().price_views()
                    &&& candle_written(old(self).spec_cache().series(), m.series(), event.spec_candle())
                    &&& final(self).spec_cache().series() == m.series()
                    &&& if event.is_complete {
                        price_written(
                            m.price_views(),
                            final(self).spec_cache().price_views(),
                            event.symbol_pair.key(),
                            event.close,
                            event.timestamp,
                        )
                    } else {
                        final(self).spec_cache().price_views() == m.price_views()
                    }
                },
    {
        proof {
            use_type_invariant(&*self);
        }
        let mut cache = MarketDataCache::new();
        core::mem::swap(&mut cache, &mut self.market_data_cache);
        let candle = CandlestickView::new(
            event.symbol_pair.clone(),
            event.timeframe,
            event.candle_timestamp,
            event.open,
            event.high,
            event.low,
            event.close,
            event.volume,
        );
        cache.update_candle(candle);
        let ghost m = cache;
        if event.is_complete {
            cache.update_price(event.symbol_pair.clone(), event.close, event.timestamp);
        }
        core::mem::swap(&mut cache, &mut self.market_data_cache);
        proof {
            assert(candle_written(old(self).spec_cache().series(), m.series(), event.spec_candle()));
        }
    }
}

/// The candle sequences `update_candle` leaves behind, given those it
/// found: the candle's key gains the candle as `candle_inserted` says, or
/// an unknown key starts a fresh one-candle sequence at the end.
pub open spec fn candle_written(
    ss: Seq<CandleSeriesView>,
    tt: Seq<CandleSeriesView>,
    c: CandlestickView,
) -> bool {
    if exists|i: int|
        0 <= i < ss.len() && ((#[trigger] ss[i]).symbol, ss[i].timeframe) == c.spec_key() {
        exists|i: int|
            {
                &&& 0 <= i < ss.len()
                &&& ((#[trigger] ss[i]).symbol, ss[i].timeframe) == c.spec_key()
                &&& tt.len() == ss.len()
                &&& (forall|j: int| 0 <= j < ss.len() && j != i ==> tt[j] == ss[j])
                &&& tt[i].symbol == ss[i].symbol
                &&& tt[i].timeframe == ss[i].timeframe
                &&& crate::market_view::candle_inserted(ss[i].candles, tt[i].candles, c)
            }
    } else {
        &&& tt.len() == ss.len() + 1
        &&& tt.take(ss.len() as int) == ss
        &&& tt.last().symbol == c.symbol_pair.key()
        &&& tt.last().timeframe == c.timeframe
        &&& tt.last().candles == seq![c]
    }
}

impl EventHandler<CandlestickUpdatedEvent> for CandlestickUpdatedEventHandler {
    open spec fn spec_event_discriminator(&self) -> u64 {
        CANDLESTICK_UPDATED_DISCRIMINATOR
    }

    fn event_discriminator(&self) -> u64 {
        CANDLESTICK_UPDATED_DISCRIMINATOR
    }

    fn handle(&mut self, event: &CandlestickUpdatedEvent) -> Result<(), CoreError> {
        self.apply(event);
        Ok(())
    }
}

} // verus!
