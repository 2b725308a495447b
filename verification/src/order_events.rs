//! Order events and the projection handlers that translate them into
//! order cache mutations.

use vstd::prelude::*;

use crate::error::CoreError;
use crate::events::Event;
use crate::events::EventHandler;
use crate::order_view::OrderCache;
use crate::order_view::OrderView;
use crate::order_view::spec_update_fill;
use crate::order_view::spec_update_status;
use crate::types::Decimal;
use crate::types::OrderId;
use crate::types::OrderSide;
use crate::types::OrderStatus;
use crate::types::OrderType;
use crate::types::SymbolPair;

verus! {

/// Discriminator of `OrderCreatedEvent`.
pub const ORDER_CREATED_DISCRIMINATOR: u64 = 3;

/// Discriminator of `OrderStatusUpdatedEvent`.
pub const ORDER_STATUS_UPDATED_DISCRIMINATOR: u64 = 4;

/// Discriminator of `OrderFilledEvent`.
pub const ORDER_FILLED_DISCRIMINATOR: u64 = 5;

/// An order was created on an exchange.
#[derive(Debug, Clone)]
pub struct OrderCreatedEvent {
    /// Unique identifier of this event instance.
    pub id: u128,
    /// When the order was created, in milliseconds since the epoch.
    pub timestamp: i64,
    /// The order's identifier.
    pub order_id: OrderId,
    /// Name of the exchange carrying the order.
    pub exchange: String,
    /// The traded symbol pair.
    pub symbol_pair: SymbolPair,
    /// Execution style of the order.
    pub order_type: OrderType,
    /// Buy or sell.
    pub side: OrderSide,
    /// Ordered quantity.
    pub quantity: Decimal,
    /// Limit price; `None` for market orders.
    pub price: Option<Decimal>,
    /// The client's own identifier, if any.
    pub client_order_id: Option<String>,
}

impl Event for OrderCreatedEvent {
    open spec fn spec_discriminator(&self) -> u64 {
        ORDER_CREATED_DISCRIMINATOR
    }

    fn discriminator(&self) -> u64 {
        ORDER_CREATED_DISCRIMINATOR
    }

    fn event_type(&self) -> &'static str {
        "exchange.order.created"
    }

    fn timestamp_millis(&self) -> i64 {
        self.timestamp
    }

    fn id(&self) -> u128 {
        self.id
    }
}

/// An order's status was reported by the exchange.
#[derive(Debug, Clone)]
pub struct OrderStatusUpdatedEvent {
    /// Unique identifier of this event instance.
    pub id: u128,
    /// When the status changed, in milliseconds since the epoch.
    pub timestamp: i64,
    /// The order's identifier.
    pub order_id: OrderId,
    /// Name of the exchange carrying the order.
    pub exchange: String,
    /// The traded symbol pair.
    pub symbol_pair: SymbolPair,
    /// The reported status.
    pub status: OrderStatus,
    /// Total filled quantity, when the report carries it.
    pub filled_quantity: Option<Decimal>,
    /// Average fill price, when the report carries it.
    pub average_fill_price: Option<Decimal>,
    /// Why the order was canceled, when it was.
    pub cancel_reason: Option<String>,
}

impl Event for OrderStatusUpdatedEvent {
    open spec fn spec_discriminator(&self) -> u64 {
        ORDER_STATUS_UPDATED_DISCRIMINATOR
    }

    fn discriminator(&self) -> u64 {
        ORDER_STATUS_UPDATED_DISCRIMINATOR
    }

    fn event_type(&self) -> &'static str {
        "exchange.order.status_updated"
    }

    fn timestamp_millis(&self) -> i64 {
        self.timestamp
    }

    fn id(&self) -> u128 {
        self.id
    }
}

/// Part of an order was filled.
#[derive(Debug, Clone)]
pub struct OrderFilledEvent {
    /// Unique identifier of this event instance.
    pub id: u128,
    /// When the fill happened, in milliseconds since the epoch.
    pub timestamp: i64,
    /// The order's identifier.
    pub order_id: OrderId,
    /// Name of the exchange carrying the order.
    pub exchange: String,
    /// The traded symbol pair.
    pub symbol_pair: SymbolPair,
    /// Quantity of this fill.
    pub fill_quantity: Decimal,
    /// Price of this fill.
    pub fill_price: Decimal,
    /// Total filled quantity after this fill.
    pub total_filled: Decimal,
    /// Average price over every fill so far.
    pub average_fill_price: Decimal,
    /// Fee charged for this fill, if reported.
    pub fee: Option<Decimal>,
    /// Asset the fee was charged in, if reported.
    pub fee_asset: Option<String>,
    /// Whether the order is now completely filled.
    pub is_complete: bool,
}

impl Event for OrderFilledEvent {
    open spec fn spec_discriminator(&self) -> u64 {
        ORDER_FILLED_DISCRIMINATOR
    }

    fn discriminator(&self) -> u64 {
        ORDER_FILLED_DISCRIMINATOR
    }

    fn event_type(&self) -> &'static str {
        "exchange.order.filled"
    }

    fn timestamp_millis(&self) -> i64 {
        self.timestamp
    }

    fn id(&self) -> u128 {
        self.id
    }
}

/// Whether an order view is the projection of an order-created event:
/// every field carried by the event matches, nothing is filled yet, and
/// the status is `Created`.
pub open spec fn order_created_view(v: OrderView, e: OrderCreatedEvent) -> bool {
    &&& v.order_id == e.order_id
    &&& v.exchange@ == e.exchange@
    &&& v.symbol_pair.key() == e.symbol_pair.key()
    &&& v.order_type == e.order_type
    &&& v.side == e.side
    &&& v.quantity == e.quantity
    &&& v.price == e.price
    &&& v.filled_quantity == 0
    &&& v.average_fill_price is None
    &&& v.status == OrderStatus::Created
    &&& v.expires_at is None
    &&& match (v.client_order_id, e.client_order_id) {
        (Some(a), Some(b)) => a@ == b@,
        (None, None) => true,
        _ => false,
    }
}

/// Handles `OrderCreatedEvent`s by projecting them onto an order cache it
/// owns.
#[derive(Debug)]
pub struct OrderCreatedEventHandler {
    order_cache: OrderCache,
}

impl OrderCreatedEventHandler {
    /// The handler's cache.
    pub closed spec fn spec_cache(&self) -> OrderCache {
        self.order_cache
    }

    #[verifier::type_invariant]
    spec fn type_inv(self) -> bool {
        self.order_cache.wf()
    }

    /// Wraps a cache in a handler.
    pub fn new(order_cache: OrderCache) -> (r: OrderCreatedEventHandler)
        requires
            order_cache.wf(),
        ensures
            r.spec_cache() == order_cache,
    {
        OrderCreatedEventHandler { order_cache }
    }

    /// Reads the handler's cache.
    pub fn cache(&self) -> (r: &OrderCache)
        ensures
            *r == self.spec_cache(),
            r.wf(),
    {
        proof {
            use_type_invariant(self);
        }
        &self.order_cache
    }

    /// Projects one order-created event onto the cache: a fresh view of
    /// the order — nothing filled, status `Created` — is stored under the
    /// event's order id, replacing any previous view there.
    pub fn apply(&mut self, event: &OrderCreatedEvent)
        ensures
            final(self).spec_cache().wf(),
            exists|v: OrderView|
                {
                    &&& #[trigger] order_created_view(v, *event)
                    &&& if exists|i: int|
                        0 <= i < old(self).spec_cache().orders().len() && (#[trigger] old(self).spec_cache().orders()[i]).order_id == event.order_id {
                        exists|i: int|
                            0 <= i < old(self).spec_cache().orders().len() && (#[trigger] old(self).spec_cache().orders()[i]).order_id == event.order_id && final(self).spec_cache().orders() == old(self).spec_cache().orders().update(i, v)
                    } else {
                        final(self).spec_cache().orders() == old(self).spec_cache().orders().push(v)
                    }
                },
    {
        proof {
            use_type_invariant(&*self);
        }
        let mut cache = OrderCache::new();
        core::mem::swap(&mut cache, &mut self.order_cache);
        let client_order_id: Option<String> = match &event.client_order_id {
            Some(c) => Some(c.clone()),
            None => None,
        };
        let view = OrderView::new(
            event.order_id,
            event.exchange.clone(),
            event.symbol_pair.clone(),
            event.order_type,
            event.side,
            event.quantity,
            event.price,
            client_order_id,
        );
        let ghost v = view;
        cache.upsert_order(view);
        core::mem::swap(&mut cache, &mut self.order_cache);
        proof {
            assert(order_created_view(v, *event));
        }
    }
}

impl EventHandler<OrderCreatedEvent> for OrderCreatedEventHandler {
    open spec fn spec_event_discriminator(&self) -> u64 {
        ORDER_CREATED_DISCRIMINATOR
    }

    fn event_discriminator(&self) -> u64 {
        ORDER_CREATED_DISCRIMINATOR
    }

    fn handle(&mut self, event: &OrderCreatedEvent) -> Result<(), CoreError> {
        self.apply(event);
        Ok(())
    }
}

/// Handles `OrderStatusUpdatedEvent`s by projecting them onto an order
/// cache it owns.
#[derive(Debug)]
pub struct OrderStatusUpdatedEventHandler {
    order_cache: OrderCache,
}

impl OrderStatusUpdatedEventHandler {
    /// The handler's cache.
    pub closed spec fn spec_cache(&self) -> OrderCache {
        self.order_cache
    }

    #[verifier::type_invariant]
    spec fn type_inv(self) -> bool {
        self.order_cache.wf()
    }

    /// Wraps a cache in a handler.
    pub fn new(order_cache: OrderCache) -> (r: OrderStatusUpdatedEventHandler)
        requires
            order_cache.wf(),
        ensures
            r.spec_cache() == order_cache,
    {
        OrderStatusUpdatedEventHandler { order_cache }
    }

    /// Reads the handler's cache.
    pub fn cache(&self) -> (r: &OrderCache)
        ensures
            *r == self.spec_cache(),
            r.wf(),
    {
        proof {
            use_type_invariant(self);
        }
        &self.order_cache
    }

    /// Projects one status report onto the cache: the order's status and
    /// update time are overwritten, and when the report carries a filled
    /// quantity the fill data is overwritten too, deriving the status
    /// anew from quantity comparison. An unknown order id leaves the
    /// cache unchanged: the event is treated as stale.
    pub fn apply(&mut self, event: &OrderStatusUpdatedEvent)
        ensures
            final(self).spec_cache().wf(),
            final(self).spec_cache().client_index() == old(self).spec_cache().client_index(),
            (exists|i: int|
                0 <= i < old(self).spec_cache().orders().len() && (#[trigger] old(self).spec_cache().orders()[i]).order_id == event.order_id) ==> exists|i: int|
                {
                    &&& 0 <= i < old(self).spec_cache().orders().len()
                    &&& (#[trigger] old(self).spec_cache().orders()[i]).order_id == event.order_id
                    &&& final(self).spec_cache().orders() == old(self).spec_cache().orders().update(
                        i,
                        ({
                            let after_status = spec_update_status(
                                old(self).spec_cache().orders()[i],
                                event.status,
                                event.timestamp,
                            );
                            match event.filled_quantity {
                                Some(fq) => spec_update_fill(
                                    after_status,
                                    fq,
                                    event.average_fill_price,
                                    event.timestamp,
                                ),
                                None => after_status,
                            }
                        }),
                    )
                },
            (!exists|i: int|
                0 <= i < old(self).spec_cache().orders().len() && (#[trigger] old(self).spec_cache().orders()[i]).order_id == event.order_id) ==> final(self).spec_cache().orders() == old(self).spec_cache().orders(),
    {
        proof {
            use_type_invariant(&*self);
        }
        let mut cache = OrderCache::new();
        core::mem::swap(&mut cache, &mut self.order_cache);
        let found = cache.update_order_status(&event.order_id, event.status, event.timestamp);
        if found {
            if let Some(fq) = event.filled_quantity {
                let ghost mid = cache.orders();
                let _ = cache.update_order_fill(
                    &event.order_id,
                    fq,
                    event.average_fill_price,
                    event.timestamp,
                );
                proof {
                    let s0 = old(self).spec_cache().orders();
                    let i = choose|i: int|
                        0 <= i < s0.len() && (#[trigger] s0[i]).order_id == event.order_id && mid
                            == s0.update(
                            i,
                            spec_update_status(s0[i], event.status, event.timestamp),
                        );
                    assert(mid[i].order_id == event.order_id);
                    let i2 = choose|x: int|
                        0 <= x < mid.len() && (#[trigger] mid[x]).order_id == event.order_id
                            && cache.orders() == mid.update(
                            x,
                            spec_update_fill(mid[x], fq, event.average_fill_price, event.timestamp),
                        );
                    assert forall|a: int, b: int|
                        0 <= a < b < mid.len() implies (#[trigger] mid[a]).order_id != (
                    #[trigger] mid[b]).order_id by {
                        assert(s0[a].order_id != s0[b].order_id);
                    }
                    if i2 != i {
                        assert(mid[i2].order_id != mid[i].order_id);
                    }
                    assert(cache.orders() =~= s0.update(
                        i,
                        spec_update_fill(
                            spec_update_status(s0[i], event.status, event.timestamp),
                            fq,
                            event.average_fill_price,
                            event.timestamp,
                        ),
                    ));
                }
            }
        }
        core::mem::swap(&mut cache, &mut self.order_cache);
    }
}

impl EventHandler<OrderStatusUpdatedEvent> for OrderStatusUpdatedEventHandler {
    open spec fn spec_event_discriminator(&self) -> u64 {
        ORDER_STATUS_UPDATED_DISCRIMINATOR
    }

    fn event_discriminator(&self) -> u64 {
        ORDER_STATUS_UPDATED_DISCRIMINATOR
    }

    fn handle(&mut self, event: &OrderStatusUpdatedEvent) -> Result<(), CoreError> {
        self.apply(event);
        Ok(())
    }
}

/// Handles `OrderFilledEvent`s by projecting them onto an order cache it
/// owns.
#[derive(Debug)]
pub struct OrderFilledEventHandler {
    order_cache: OrderCache,
}

impl OrderFilledEventHandler {
    /// The handler's cache.
    pub closed spec fn spec_cache(&self) -> OrderCache {
        self.order_cache
    }

    #[verifier::type_invariant]
    spec fn type_inv(self) -> bool {
        self.order_cache.wf()
    }

    /// Wraps a cache in a handler.
    pub fn new(order_cache: OrderCache) -> (r: OrderFilledEventHandler)
        requires
            order_cache.wf(),
        ensures
            r.spec_cache() == order_cache,
    {
        OrderFilledEventHandler { order_cache }
    }

    /// Reads the handler's cache.
    pub fn cache(&self) -> (r: &OrderCache)
        ensures
            *r == self.spec_cache(),
            r.wf(),
    {
        proof {
            use_type_invariant(self);
        }
        &self.order_cache
    }

    /// Projects one fill onto the cache: the order's fill data is
    /// overwritten with the event's totals, then its status is set to
    /// filled or partially filled according to the event's completeness
    /// flag — the explicit flag wins over the quantity-derived status.
    /// An unknown order id leaves the cache unchanged.
    pub fn apply(&mut self, event: &OrderFilledEvent)
        ensures
            final(self).spec_cache().wf(),
            final(self).spec_cache().client_index() == old(self).spec_cache().client_index(),
            (exists|i: int|
                0 <= i < old(self).spec_cache().orders().len() && (#[trigger] old(self).spec_cache().orders()[i]).order_id == event.order_id) ==> exists|i: int|
                {
                    &&& 0 <= i < old(self).spec_cache().orders().len()
                    &&& (#[trigger] old(self).spec_cache().orders()[i]).order_id == event.order_id
                    &&& final(self).spec_cache().orders() == old(self).spec_cache().orders().update(
                        i,
                        spec_update_status(
                            spec_update_fill(
                                old(self).spec_cache().orders()[i],
                                event.total_filled,
                                Some(event.average_fill_price),
                                event.timestamp,
                            ),
                            if event.is_complete {
                                OrderStatus::Filled
                            } else {
                                OrderStatus::PartiallyFilled
                            },
                            event.timestamp,
                        ),
                    )
                },
            (!exists|i: int|
                0 <= i < old(self).spec_cache().orders().len() && (#[trigger] old(self).spec_cache().orders()[i]).order_id == event.order_id) ==> final(self).spec_cache().orders() == old(self).spec_cache().orders(),
    {
        proof {
            use_type_invariant(&*self);
        }
        let mut cache = OrderCache::new();
        core::mem::swap(&mut cache, &mut self.order_cache);
        let found = cache.update_order_fill(
            &event.order_id,
            event.total_filled,
            Some(event.average_fill_price),
            event.timestamp,
        );
        if found {
            let ghost mid = cache.orders();
            let status = if event.is_complete {
                OrderStatus::Filled
            } else {
                OrderStatus::PartiallyFilled
            };
            let _ = cache.update_order_status(&event.order_id, status, event.timestamp);
            proof {
                let s0 = old(self).spec_cache().orders();
                let i = choose|i: int|
                    0 <= i < s0.len() && (#[trigger] s0[i]).order_id == event.order_id && mid
                        == s0.update(
                        i,
                        spec_update_fill(
                            s0[i],
                            event.total_filled,
                            Some(event.average_fill_price),
                            event.timestamp,
                        ),
                    );
                assert(mid[i].order_id == event.order_id);
                let i2 = choose|x: int|
                    0 <= x < mid.len() && (#[trigger] mid[x]).order_id == event.order_id
                        && cache.orders() == mid.update(
                        x,
                        spec_update_status(mid[x], status, event.timestamp),
                    );
                assert forall|a: int, b: int|
                    0 <= a < b < mid.len() implies (#[trigger] mid[a]).order_id != (
                #[trigger] mid[b]).order_id by {
                    assert(s0[a].order_id != s0[b].order_id);
                }
                if i2 != i {
                    assert(mid[i2].order_id != mid[i].order_id);
                }
                assert(cache.orders() =~= s0.update(
                    i,
                    spec_update_status(
                        spec_update_fill(
                            s0[i],
                            event.total_filled,
                            Some(event.average_fill_price),
                            event.timestamp,
                        ),
                        status,
                        event.timestamp,
                    ),
                ));
            }
        }
        core::mem::swap(&mut cache, &mut self.order_cache);
    }
}

impl EventHandler<OrderFilledEvent> for OrderFilledEventHandler {
    open spec fn spec_event_discriminator(&self) -> u64 {
        ORDER_FILLED_DISCRIMINATOR
    }

    fn event_discriminator(&self) -> u64 {
        ORDER_FILLED_DISCRIMINATOR
    }

    fn handle(&mut self, event: &OrderFilledEvent) -> Result<(), CoreError> {
        self.apply(event);
        Ok(())
    }
}

} // verus!
