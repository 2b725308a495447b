use cryptolytica::events::EventHandler;
use cryptolytica::order_events::OrderCreatedEvent;
use cryptolytica::order_events::OrderCreatedEventHandler;
use cryptolytica::order_events::OrderFilledEvent;
use cryptolytica::order_events::OrderFilledEventHandler;
use cryptolytica::order_events::OrderStatusUpdatedEvent;
use cryptolytica::order_events::OrderStatusUpdatedEventHandler;
use cryptolytica::order_view::OrderCache;
use cryptolytica::order_view::OrderView;
use cryptolytica::types::OrderId;
use cryptolytica::types::OrderSide;
use cryptolytica::types::OrderStatus;
use cryptolytica::types::OrderType;
use cryptolytica::types::SymbolPair;

fn created_event(order_id: OrderId, symbol_pair: &SymbolPair, quantity: i64) -> OrderCreatedEvent {
    OrderCreatedEvent {
        id: 1,
        timestamp: 1_700_000_000_000,
        order_id,
        exchange: "Binance".to_string(),
        symbol_pair: symbol_pair.clone(),
        order_type: OrderType::Limit,
        side: OrderSide::Buy,
        quantity,
        price: Some(50000),
        client_order_id: Some("client123".to_string()),
    }
}

#[test]
fn test_order_created_event_handler() {
    let mut handler = OrderCreatedEventHandler::new(OrderCache::new());

    let order_id = OrderId::new();
    let symbol_pair = SymbolPair::new("BTC", "USDT");
    let event = created_event(order_id, &symbol_pair, 1);

    let result = handler.handle(&event);
    assert!(result.is_ok());

    let order = handler.cache().get_order(&order_id);
    assert!(order.is_some());

    let order = order.unwrap();
    assert_eq!(order.order_id, order_id);
    assert_eq!(order.exchange, "Binance");
    assert_eq!(order.symbol_pair, symbol_pair);
    assert_eq!(order.order_type, OrderType::Limit);
    assert_eq!(order.side, OrderSide::Buy);
    assert_eq!(order.quantity, 1);
    assert_eq!(order.price, Some(50000));
    assert_eq!(order.client_order_id, Some("client123".to_string()));
    assert_eq!(order.status, OrderStatus::Created);
    assert_eq!(order.filled_quantity, 0);
}

#[test]
fn test_order_status_updated_event_handler() {
    let mut created_handler = OrderCreatedEventHandler::new(OrderCache::new());

    let order_id = OrderId::new();
    let symbol_pair = SymbolPair::new("BTC", "USDT");
    created_handler.handle(&created_event(order_id, &symbol_pair, 10)).unwrap();

    // Hand the projected cache on to the status handler.
    let mut cache = OrderCache::new();
    cache.upsert_order(created_handler.cache().get_order(&order_id).unwrap());
    let mut status_handler = OrderStatusUpdatedEventHandler::new(cache);

    let new_status = OrderStatus::PartiallyFilled;
    let filled_quantity = 5;
    let avg_price = 499000;

    let status_event = OrderStatusUpdatedEvent {
        id: 2,
        timestamp: 1_700_000_000_500,
        order_id,
        exchange: "Binance".to_string(),
        symbol_pair: symbol_pair.clone(),
        status: new_status,
        filled_quantity: Some(filled_quantity),
        average_fill_price: Some(avg_price),
        cancel_reason: None,
    };

    let result = status_handler.handle(&status_event);
    assert!(result.is_ok());

    let order = status_handler.cache().get_order(&order_id).unwrap();
    assert_eq!(order.status, new_status);
    assert_eq!(order.filled_quantity, filled_quantity);
    assert_eq!(order.average_fill_price, Some(avg_price));
}

#[test]
fn test_order_filled_event_handler() {
    let mut created_handler = OrderCreatedEventHandler::new(OrderCache::new());

    let order_id = OrderId::new();
    let symbol_pair = SymbolPair::new("ETH", "USDT");
    let quantity = 5;
    let mut event = created_event(order_id, &symbol_pair, quantity);
    event.order_type = OrderType::Market;
    event.side = OrderSide::Sell;
    event.price = None;
    event.client_order_id = None;
    created_handler.handle(&event).unwrap();

    let mut cache = OrderCache::new();
    cache.upsert_order(created_handler.cache().get_order(&order_id).unwrap());
    let mut filled_handler = OrderFilledEventHandler::new(cache);

    // First fill: 2 of 5.
    let fill_event = OrderFilledEvent {
        id: 3,
        timestamp: 1_700_000_001_000,
        order_id,
        exchange: "Binance".to_string(),
        symbol_pair: symbol_pair.clone(),
        fill_quantity: 2,
        fill_price: 2000,
        total_filled: 2,
        average_fill_price: 2000,
        fee: Some(2),
        fee_asset: Some("USDT".to_string()),
        is_complete: false,
    };

    let result = filled_handler.handle(&fill_event);
    assert!(result.is_ok());
    let order = filled_handler.cache().get_order(&order_id).unwrap();
    assert_eq!(order.filled_quantity, 2);
    assert_eq!(order.average_fill_price, Some(2000));
    assert_eq!(order.status, OrderStatus::PartiallyFilled);

    // Second fill completes the order: 5 of 5.
    let fill_event2 = OrderFilledEvent {
        id: 4,
        timestamp: 1_700_000_002_000,
        order_id,
        exchange: "Binance".to_string(),
        symbol_pair: symbol_pair.clone(),
        fill_quantity: 3,
        fill_price: 2010,
        total_filled: 5,
        average_fill_price: 2006,
        fee: Some(3),
        fee_asset: Some("USDT".to_string()),
        is_complete: true,
    };

    let result2 = filled_handler.handle(&fill_event2);
    assert!(result2.is_ok());
    let order2 = filled_handler.cache().get_order(&order_id).unwrap();
    assert_eq!(order2.filled_quantity, 5);
    assert_eq!(order2.average_fill_price, Some(2006));
    assert_eq!(order2.status, OrderStatus::Filled);
}

fn new_order(order_id: OrderId, symbol_pair: &SymbolPair, quantity: i64) -> OrderView {
    OrderView::new(
        order_id,
        "Binance".to_string(),
        symbol_pair.clone(),
        OrderType::Limit,
        OrderSide::Buy,
        quantity,
        Some(100),
        None,
    )
}

#[test]
fn fill_status_is_derived_from_quantity_comparison() {
    let mut cache = OrderCache::new();
    let order_id = OrderId::new();
    let symbol_pair = SymbolPair::new("BTC", "USDT");
    cache.upsert_order(new_order(order_id, &symbol_pair, 5));

    // A partial fill below the ordered quantity.
    assert!(cache.update_order_fill(&order_id, 2, Some(100), 10));
    let order = cache.get_order(&order_id).unwrap();
    assert_eq!(order.status, OrderStatus::PartiallyFilled);
    assert_eq!(order.filled_quantity, 2);
    assert_eq!(cache.get_all_active_orders().len(), 1);
    assert_eq!(cache.get_active_orders_by_symbol(&symbol_pair).len(), 1);

    // Reaching the ordered quantity marks the order filled …
    assert!(cache.update_order_fill(&order_id, 5, Some(101), 11));
    let order = cache.get_order(&order_id).unwrap();
    assert_eq!(order.status, OrderStatus::Filled);

    // … and the active-order queries exclude it.
    assert!(cache.get_all_active_orders().is_empty());
    assert!(cache.get_active_orders_by_symbol(&symbol_pair).is_empty());

    // A zero fill leaves the status untouched.
    let other_id = OrderId::new();
    cache.upsert_order(new_order(other_id, &symbol_pair, 5));
    assert!(cache.update_order_fill(&other_id, 0, None, 12));
    assert_eq!(cache.get_order(&other_id).unwrap().status, OrderStatus::Created);
}

#[test]
fn unknown_orders_report_absence_not_errors() {
    let mut cache = OrderCache::new();
    let missing = OrderId::new();
    assert!(!cache.update_order_status(&missing, OrderStatus::Canceled, 5));
    assert!(!cache.update_order_fill(&missing, 1, None, 5));
    assert!(cache.get_order(&missing).is_none());
    assert!(cache.get_order_by_client_id("nobody").is_none());
}

#[test]
fn client_order_ids_resolve_through_the_secondary_index() {
    let mut cache = OrderCache::new();
    let order_id = OrderId::new();
    let symbol_pair = SymbolPair::new("BTC", "USDT");
    let mut order = new_order(order_id, &symbol_pair, 3);
    order.client_order_id = Some("algo-7".to_string());
    cache.upsert_order(order);

    let found = cache.get_order_by_client_id("algo-7");
    assert!(found.is_some());
    assert_eq!(found.unwrap().order_id, order_id);
}

#[test]
fn active_orders_filter_by_symbol_and_status() {
    let mut cache = OrderCache::new();
    let btc = SymbolPair::new("BTC", "USDT");
    let eth = SymbolPair::new("ETH", "USDT");

    let a = OrderId::new();
    let b = OrderId::new();
    let c = OrderId::new();
    cache.upsert_order(new_order(a, &btc, 1));
    cache.upsert_order(new_order(b, &eth, 1));
    cache.upsert_order(new_order(c, &btc, 1));
    assert!(cache.update_order_status(&c, OrderStatus::Canceled, 9));

    let btc_active = cache.get_active_orders_by_symbol(&btc);
    assert_eq!(btc_active.len(), 1);
    assert_eq!(btc_active[0].order_id, a);

    let all_active = cache.get_all_active_orders();
    assert_eq!(all_active.len(), 2);
    assert_eq!(all_active[0].order_id, a);
    assert_eq!(all_active[1].order_id, b);
}
