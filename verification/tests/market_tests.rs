use cryptolytica::events::EventHandler;
use cryptolytica::market_events::CandlestickUpdatedEvent;
use cryptolytica::market_events::CandlestickUpdatedEventHandler;
use cryptolytica::market_events::PriceUpdatedEvent;
use cryptolytica::market_events::PriceUpdatedEventHandler;
use cryptolytica::market_view::CandlestickView;
use cryptolytica::market_view::MarketDataCache;
use cryptolytica::types::SymbolPair;
use cryptolytica::types::Timeframe;

fn pair(base: &str, quote: &str) -> SymbolPair {
    SymbolPair::new(base, quote)
}

#[test]
fn test_price_updated_event_handler() {
    let mut handler = PriceUpdatedEventHandler::new(MarketDataCache::new());

    let symbol_pair = pair("BTC", "USDT");
    let price = 50000;
    let high_24h = 51000;
    let low_24h = 49000;
    let volume_24h = 1000;

    let event = PriceUpdatedEvent {
        id: 1,
        timestamp: 1_700_000_000_000,
        symbol_pair: symbol_pair.clone(),
        price,
        high_24h: Some(high_24h),
        low_24h: Some(low_24h),
        volume_24h: Some(volume_24h),
    };

    let result = handler.handle(&event);
    assert!(result.is_ok());

    let price_view = handler.cache().get_price(&symbol_pair);
    assert!(price_view.is_some());

    let price_view = price_view.unwrap();
    assert_eq!(price_view.price, price);
    assert_eq!(price_view.high_24h, high_24h);
    assert_eq!(price_view.low_24h, low_24h);
    assert_eq!(price_view.volume_24h, volume_24h);
}

#[test]
fn test_candlestick_updated_event_handler() {
    let mut handler = CandlestickUpdatedEventHandler::new(MarketDataCache::new());

    let symbol_pair = pair("ETH", "USDT");
    let timeframe = Timeframe::Minute1;
    let now = 1_700_000_000_000;

    let event = CandlestickUpdatedEvent {
        id: 2,
        timestamp: now,
        symbol_pair: symbol_pair.clone(),
        timeframe,
        candle_timestamp: now,
        open: 2000,
        high: 2100,
        low: 1950,
        close: 2050,
        volume: 500,
        is_complete: true,
    };

    let result = handler.handle(&event);
    assert!(result.is_ok());

    let candles = handler.cache().get_candles(&symbol_pair, timeframe, 10);
    assert!(!candles.is_empty());
    assert_eq!(candles[0].open, 2000);
    assert_eq!(candles[0].high, 2100);
    assert_eq!(candles[0].low, 1950);
    assert_eq!(candles[0].close, 2050);
    assert_eq!(candles[0].volume, 500);

    // The candle was complete, so its close became the latest price.
    let price_view = handler.cache().get_price(&symbol_pair);
    assert!(price_view.is_some());
    assert_eq!(price_view.unwrap().price, 2050);
}

#[test]
fn test_incomplete_candlestick_event() {
    let mut cache = MarketDataCache::new();
    let symbol_pair = pair("ETH", "USDT");
    let timeframe = Timeframe::Minute1;
    let now = 1_700_000_000_000;

    let init_price = 1900;
    cache.update_price(symbol_pair.clone(), init_price, now);
    let mut handler = CandlestickUpdatedEventHandler::new(cache);

    let event = CandlestickUpdatedEvent {
        id: 3,
        timestamp: now,
        symbol_pair: symbol_pair.clone(),
        timeframe,
        candle_timestamp: now,
        open: 2000,
        high: 2100,
        low: 1950,
        close: 2050,
        volume: 500,
        is_complete: false,
    };

    let result = handler.handle(&event);
    assert!(result.is_ok());

    // The candle is stored, but the price keeps its initial value.
    let price_view = handler.cache().get_price(&symbol_pair);
    assert!(price_view.is_some());
    assert_eq!(price_view.unwrap().price, init_price);
    assert_eq!(handler.cache().get_candles(&symbol_pair, timeframe, 10).len(), 1);
}

fn candle(symbol_pair: &SymbolPair, timestamp: i64, close: i64) -> CandlestickView {
    CandlestickView::new(
        symbol_pair.clone(),
        Timeframe::Minute1,
        timestamp,
        close - 10,
        close + 20,
        close - 30,
        close,
        100,
    )
}

#[test]
fn updating_a_candle_at_the_same_timestamp_replaces_it_in_place() {
    let mut cache = MarketDataCache::new();
    let symbol_pair = pair("BTC", "USDT");

    cache.update_candle(candle(&symbol_pair, 1000, 500));
    cache.update_candle(candle(&symbol_pair, 3000, 520));
    cache.update_candle(candle(&symbol_pair, 2000, 510));
    // Update the middle timestamp with different values.
    cache.update_candle(candle(&symbol_pair, 2000, 900));

    let got = cache.get_candles(&symbol_pair, Timeframe::Minute1, 100);
    assert_eq!(got.len(), 3);
    assert_eq!(got[0].timestamp, 1000);
    assert_eq!(got[1].timestamp, 2000);
    assert_eq!(got[1].close, 900);
    assert_eq!(got[1].open, 890);
    assert_eq!(got[2].timestamp, 3000);
}

#[test]
fn the_candle_sequence_is_bounded_and_evicts_the_oldest() {
    let mut cache = MarketDataCache::new();
    let symbol_pair = pair("BTC", "USDT");

    let mut t: i64 = 0;
    while t < 1001 {
        cache.update_candle(candle(&symbol_pair, t, 100 + t));
        t += 1;
    }

    let got = cache.get_candles(&symbol_pair, Timeframe::Minute1, 10_000);
    assert_eq!(got.len(), 1000);
    // The oldest entry (timestamp 0) was evicted; the newest 1000 remain,
    // ascending.
    assert_eq!(got[0].timestamp, 1);
    assert_eq!(got[999].timestamp, 1000);
    let mut i = 1;
    while i < got.len() {
        assert!(got[i - 1].timestamp < got[i].timestamp);
        i += 1;
    }
}

#[test]
fn price_extremes_widen_with_observed_prices() {
    let mut cache = MarketDataCache::new();
    let symbol_pair = pair("BTC", "USDT");

    cache.update_price(symbol_pair.clone(), 100, 1);
    let view = cache.get_price(&symbol_pair).unwrap();
    assert_eq!(view.high_24h, 100);
    assert_eq!(view.low_24h, 100);
    assert_eq!(view.volume_24h, 0);

    cache.update_price(symbol_pair.clone(), 110, 2);
    let view = cache.get_price(&symbol_pair).unwrap();
    assert_eq!(view.price, 110);
    assert_eq!(view.high_24h, 110);
    assert_eq!(view.low_24h, 100);

    cache.update_price(symbol_pair.clone(), 95, 3);
    let view = cache.get_price(&symbol_pair).unwrap();
    assert_eq!(view.high_24h, 110);
    assert_eq!(view.low_24h, 95);
}

#[test]
fn update_24h_data_overwrites_without_touching_the_price() {
    let mut cache = MarketDataCache::new();
    let symbol_pair = pair("BTC", "USDT");

    cache.update_price(symbol_pair.clone(), 100, 1);
    cache.update_24h_data(&symbol_pair, 120, 80, 5000);

    let view = cache.get_price(&symbol_pair).unwrap();
    assert_eq!(view.price, 100);
    assert_eq!(view.high_24h, 120);
    assert_eq!(view.low_24h, 80);
    assert_eq!(view.volume_24h, 5000);

    // An unknown pair is left unchanged: still no entry.
    let other = pair("ETH", "USDT");
    cache.update_24h_data(&other, 1, 1, 1);
    assert!(cache.get_price(&other).is_none());
}

#[test]
fn get_candles_returns_the_most_recent_up_to_the_limit() {
    let mut cache = MarketDataCache::new();
    let symbol_pair = pair("BTC", "USDT");

    cache.update_candle(candle(&symbol_pair, 10, 1));
    cache.update_candle(candle(&symbol_pair, 20, 2));
    cache.update_candle(candle(&symbol_pair, 30, 3));

    let got = cache.get_candles(&symbol_pair, Timeframe::Minute1, 2);
    assert_eq!(got.len(), 2);
    assert_eq!(got[0].timestamp, 20);
    assert_eq!(got[1].timestamp, 30);

    // Unknown keys yield empty results, never errors.
    assert!(cache.get_candles(&symbol_pair, Timeframe::Hour1, 2).is_empty());
    assert!(cache.get_candles(&pair("XRP", "USD"), Timeframe::Minute1, 2).is_empty());
}
