use cryptolytica::config::Config;
use cryptolytica::config::CryptoLytica;
use cryptolytica::config::LogLevel;
use cryptolytica::error::CoreError;
use cryptolytica::error::ErrorCode;
use cryptolytica::error::from_http_error;
use cryptolytica::exchange_error::ExchangeError;
use cryptolytica::exchange_error::from_http_error as exchange_from_http_error;
use cryptolytica::events::create_event_header;
use cryptolytica::exchange::Exchange;
use cryptolytica::exchange::ExchangeId;
use cryptolytica::exchange::ExchangeStatus;
use cryptolytica::exchange::ExchangeType;
use cryptolytica::service::TradingDomainService;
use cryptolytica::symbol;
use cryptolytica::timeframe::TimeframeError;
use cryptolytica::trading::SignalStrength;
use cryptolytica::types::SymbolPair;
use cryptolytica::types::Timeframe;
use cryptolytica::util::generate_uuid;
use cryptolytica::util::mask_sensitive_data;

#[test]
fn test_symbol_pair() {
    let pair = SymbolPair::new("BTC", "USDT");
    assert_eq!(pair.base, "BTC");
    assert_eq!(pair.quote, "USDT");
    assert_eq!(pair.to_string(), "BTC/USDT");
}

#[test]
fn test_timeframe_to_minutes() {
    assert_eq!(Timeframe::Minute1.to_minutes(), 1);
    assert_eq!(Timeframe::Hour1.to_minutes(), 60);
    assert_eq!(Timeframe::Day1.to_minutes(), 1440);
}

#[test]
fn test_symbol_pair_creation() {
    let pair = symbol::SymbolPair::new("btc", "usdt");
    assert_eq!(pair.base(), "BTC");
    assert_eq!(pair.quote(), "USDT");
    assert_eq!(pair.to_standard_notation(), "BTC/USDT");
}

#[test]
fn test_symbol_pair_equality() {
    let pair1 = symbol::SymbolPair::new("BTC", "USDT");
    let pair2 = symbol::SymbolPair::new("btc", "usdt");
    let pair3 = symbol::SymbolPair::new("ETH", "USDT");

    assert_eq!(pair1, pair2);
    assert_ne!(pair1, pair3);
}

#[test]
fn test_symbol_pair_formats() {
    let pair = symbol::SymbolPair::new("ETH", "BTC");

    assert_eq!(pair.to_standard_notation(), "ETH/BTC");
    assert_eq!(pair.to_exchange_format(None), "ETHBTC");
    assert_eq!(pair.to_exchange_format(Some("-")), "ETH-BTC");
}

#[test]
fn test_from_str_parsing() {
    let test_cases: Vec<(&str, Option<symbol::SymbolPair>)> = vec![
        ("BTC/USDT", Some(symbol::SymbolPair::new("BTC", "USDT"))),
        ("ETH-BTC", Some(symbol::SymbolPair::new("ETH", "BTC"))),
        ("XRP_USD", Some(symbol::SymbolPair::new("XRP", "USD"))),
        ("ADAUSDT", Some(symbol::SymbolPair::new("ADA", "USDT"))),
        ("BTCETH", Some(symbol::SymbolPair::new("BTC", "ETH"))),
        ("", None),
        ("BTC", None),
    ];

    for (input, expected) in test_cases {
        let result = symbol::SymbolPair::from_str(input);
        assert_eq!(
            result.as_ref().map(|p| p.base().to_string()),
            expected.as_ref().map(|p| p.base().to_string())
        );
        assert_eq!(
            result.as_ref().map(|p| p.quote().to_string()),
            expected.as_ref().map(|p| p.quote().to_string())
        );
    }
}

#[test]
fn symbol_parsing_trims_and_upper_cases() {
    let parsed = symbol::SymbolPair::from_str("  btc / usdt  ").unwrap();
    assert_eq!(parsed.base(), "BTC");
    assert_eq!(parsed.quote(), "USDT");

    // Only the first two fields of a delimited input count.
    let parsed = symbol::SymbolPair::from_str("A/B/C").unwrap();
    assert_eq!(parsed.base(), "A");
    assert_eq!(parsed.quote(), "B");

    // An empty field is rejected.
    assert!(symbol::SymbolPair::from_str("/USDT").is_none());
    assert!(symbol::SymbolPair::from_str("BTC/").is_none());

    // Without a delimiter and without a known suffix, the last four
    // characters are the quote asset.
    let parsed = symbol::SymbolPair::from_str("AAABBBBX").unwrap();
    assert_eq!(parsed.base(), "AAAB");
    assert_eq!(parsed.quote(), "BBBX");
}

#[test]
fn test_timeframe_codes() {
    assert_eq!(Timeframe::Minute1.to_code(), "1m");
    assert_eq!(Timeframe::Hour1.to_code(), "1h");
    assert_eq!(Timeframe::Day1.to_code(), "1d");
}

#[test]
fn test_timeframe_durations() {
    assert_eq!(Timeframe::Minute1.duration(), std::time::Duration::from_secs(60));
    assert_eq!(Timeframe::Hour1.duration(), std::time::Duration::from_secs(60 * 60));
    assert_eq!(Timeframe::Day1.duration(), std::time::Duration::from_secs(24 * 60 * 60));
}

#[test]
fn test_timeframe_parsing() {
    assert_eq!(Timeframe::from_str("1m").unwrap(), Timeframe::Minute1);
    assert_eq!(Timeframe::from_str("5m").unwrap(), Timeframe::Minute5);
    assert_eq!(Timeframe::from_str("1h").unwrap(), Timeframe::Hour1);
    assert_eq!(Timeframe::from_str("1d").unwrap(), Timeframe::Day1);

    assert!(Timeframe::from_str("2h").is_err());
    assert!(Timeframe::from_str("invalid").is_err());
}

#[test]
fn test_timeframe_display() {
    assert_eq!(Timeframe::Minute5.to_string(), "5m");
    assert_eq!(Timeframe::Hour4.to_string(), "4h");
}

#[test]
fn timeframe_parsing_normalizes_and_distinguishes_errors() {
    // Trimming and lower-casing happen before the lookup.
    assert_eq!(Timeframe::from_str(" 1H ").unwrap(), Timeframe::Hour1);
    assert_eq!(Timeframe::from_str("1mo").unwrap(), Timeframe::Month1);
    assert_eq!(Timeframe::from_str("30m").unwrap(), Timeframe::Minute30);

    // A known shape with an unknown period is unsupported …
    match Timeframe::from_str("7d") {
        Err(TimeframeError::UnsupportedTimeframe(m)) => assert_eq!(m, "7d"),
        _ => panic!("7d must be unsupported"),
    }
    // … while a malformed input is invalid.
    match Timeframe::from_str("xd") {
        Err(TimeframeError::InvalidFormat(m)) => assert_eq!(m, "xd"),
        _ => panic!("xd must be malformed"),
    }
    match Timeframe::from_str("") {
        Err(TimeframeError::InvalidFormat(_)) => {}
        _ => panic!("the empty input must be malformed"),
    }
}

#[test]
fn test_error_code_display() {
    assert_eq!(ErrorCode::Success.to_string(), "Success (0)");
}

#[test]
fn error_test_error_code_display() {
    assert_eq!(ErrorCode::Success.to_string(), "Success (0)");
    assert_eq!(ErrorCode::DomainError.to_string(), "DomainError (2000)");
    assert_eq!(ErrorCode::NotFoundError.code(), 1800);
}

#[test]
fn test_error_display() {
    let err = CoreError::Request("테스트 오류".to_string());
    assert!(err.to_string().contains("테스트 오류"));
}

#[test]
fn test_from_http_error() {
    let auth_err = from_http_error(401, "Unauthorized");
    match auth_err {
        CoreError::Authentication(msg) => {
            assert!(msg.contains("401"));
            assert!(msg.contains("Unauthorized"));
        }
        _ => panic!("잘못된 에러 타입"),
    }

    let not_found_err = from_http_error(404, "Not Found");
    match not_found_err {
        CoreError::NotFound(msg) => {
            assert!(msg.contains("404"));
            assert!(msg.contains("Not Found"));
        }
        _ => panic!("잘못된 에러 타입"),
    }
}

#[test]
fn http_errors_map_every_status_family() {
    match from_http_error(429, "slow down") {
        CoreError::Timeout(m) => assert!(m.contains("429")),
        _ => panic!("429 must map to a timeout error"),
    }
    match from_http_error(400, "bad") {
        CoreError::Request(m) => assert!(m.contains("HTTP 400: bad")),
        _ => panic!("4xx must map to a request error"),
    }
    match from_http_error(503, "down") {
        CoreError::Response { code, message } => {
            assert_eq!(code, 503);
            assert_eq!(message, "down");
        }
        _ => panic!("5xx must map to a response error"),
    }
    match from_http_error(302, "moved") {
        CoreError::Unknown(m) => assert!(m.contains("302")),
        _ => panic!("other statuses must map to unknown"),
    }
}

#[test]
fn test_error_conversion() {
    let exchange_err = ExchangeError::RequestError("테스트 오류".to_string());
    let core_err: CoreError = exchange_err.into();

    match core_err {
        CoreError::Request(msg) => {
            assert!(msg.contains("테스트 오류"));
            assert!(msg.contains("거래소 요청 오류"));
        }
        _ => panic!("잘못된 오류 변환"),
    }
}

#[test]
fn error_test_from_http_error() {
    let rate_limit_err = exchange_from_http_error(429, "Too Many Requests");
    match rate_limit_err {
        ExchangeError::RateLimitExceeded(msg) => {
            assert!(msg.contains("429"));
            assert!(msg.contains("Too Many Requests"));
        }
        _ => panic!("잘못된 HTTP 오류 처리"),
    }
    match exchange_from_http_error(502, "bad gateway") {
        ExchangeError::ResponseError { code, message } => {
            assert_eq!(code, "502");
            assert_eq!(message, "bad gateway");
        }
        _ => panic!("5xx must map to a response error"),
    }
}

#[test]
fn exchange_response_codes_fall_back_to_bad_request() {
    let err = ExchangeError::ResponseError {
        code: "oops".to_string(),
        message: "broken".to_string(),
    };
    match err.to_core_error() {
        CoreError::Response { code, message } => {
            assert_eq!(code, 400);
            assert!(message.contains("broken"));
        }
        _ => panic!("response errors must stay response errors"),
    }
    let err = ExchangeError::ResponseError {
        code: "503".to_string(),
        message: "down".to_string(),
    };
    match err.to_core_error() {
        CoreError::Response { code, .. } => assert_eq!(code, 503),
        _ => panic!("response errors must stay response errors"),
    }
}

#[test]
fn test_mask_sensitive_data() {
    assert_eq!(mask_sensitive_data("password123", 3), "pas********");
    assert_eq!(mask_sensitive_data("api_key", 2), "ap*****");
    assert_eq!(mask_sensitive_data("abc", 3), "abc");
    assert_eq!(mask_sensitive_data("ab", 3), "ab");
}

#[test]
fn test_default_config() {
    let crypto = CryptoLytica::default();
    assert_eq!(crypto.config().log_level, LogLevel::Info);
    assert_eq!(crypto.config().retry_count, 3);
}

#[test]
fn test_version() {
    assert!(!cryptolytica::version().is_empty());
}

#[test]
fn lib_test_version() {
    let crypto = CryptoLytica::new(Config::default());
    assert!(!crypto.version().is_empty());
    assert!(!TradingDomainService::version().is_empty());
    assert_eq!(cryptolytica::version(), "0.1.0");
}

#[test]
fn test_order_side_display() {
    assert_eq!(cryptolytica::types::OrderSide::Buy.to_string(), "buy");
    assert_eq!(cryptolytica::types::OrderSide::Sell.to_string(), "sell");
}

#[test]
fn test_signal_strength_ordering() {
    assert!(SignalStrength::Strong > SignalStrength::Medium);
    assert!(SignalStrength::VeryStrong > SignalStrength::Strong);
    assert!(SignalStrength::Weak < SignalStrength::Medium);
    assert!(SignalStrength::VeryWeak < SignalStrength::Weak);
}

#[test]
fn test_create_event_header() {
    let correlation_id = Some(7u128);
    let header = create_event_header("test_source", "test.event", correlation_id);

    assert_eq!(header.source, "test_source");
    assert_eq!(header.event_type, "test.event");
    assert_eq!(header.correlation_id, correlation_id);
    assert_eq!(header.version, "1.0");
}

#[test]
fn generated_uuids_have_the_hyphenated_shape() {
    let a = generate_uuid();
    let b = generate_uuid();
    assert_eq!(a.len(), 36);
    assert_eq!(b.len(), 36);
    assert_ne!(a, b);
}

#[test]
fn test_exchange_creation() {
    let exchange = Exchange::new(
        ExchangeId::new("binance"),
        "Binance",
        ExchangeType::Centralized,
        "https://api.binance.com",
    );

    assert_eq!(exchange.exchange_id.value(), "binance");
    assert_eq!(exchange.name, "Binance");
    assert_eq!(exchange.exchange_type, ExchangeType::Centralized);
    assert_eq!(exchange.status, ExchangeStatus::Active);
    assert_eq!(exchange.base_url, "https://api.binance.com");
    assert!(exchange.websocket_url.is_none());
    assert!(exchange.features.is_empty());
}

#[test]
fn test_feature_support() {
    let mut exchange = Exchange::new(
        ExchangeId::new("upbit"),
        "Upbit",
        ExchangeType::Centralized,
        "https://api.upbit.com",
    );

    assert!(!exchange.supports_feature("websocket"));

    exchange.set_feature("websocket", true);
    exchange.set_feature("futures", false);

    assert!(exchange.supports_feature("websocket"));
    assert!(!exchange.supports_feature("futures"));
    assert!(!exchange.supports_feature("margin"));
}

#[test]
fn test_status_update() {
    let mut exchange = Exchange::new(
        ExchangeId::new("bithumb"),
        "Bithumb",
        ExchangeType::Centralized,
        "https://api.bithumb.com",
    );

    assert!(exchange.is_active());

    exchange.update_status(ExchangeStatus::Maintenance);
    assert_eq!(exchange.status, ExchangeStatus::Maintenance);
    assert!(!exchange.is_active());
}

#[test]
fn exchange_ids_fold_to_lower_case() {
    let id = ExchangeId::new("BINANCE");
    assert_eq!(id.value(), "binance");
    assert_eq!(id, ExchangeId::new("Binance"));
}

#[test]
fn types_test_symbol_pair() {
    let pair = SymbolPair::new("ETH", "USD");
    assert_eq!(pair.base, "ETH");
    assert_eq!(pair.quote, "USD");
    assert_eq!(pair.to_string(), "ETH/USD");
}
