//! Order read models: the order view and the order cache that projection
//! handlers keep current.

use vstd::prelude::*;

use crate::types::Decimal;
use crate::types::OrderId;
use crate::types::OrderSide;
use crate::types::OrderStatus;
use crate::types::OrderType;
use crate::types::SymbolPair;
use crate::util::now_timestamp_millis;

verus! {

/// The cached view of one exchange order.
#[derive(Debug)]
pub struct OrderView {
    /// The order's identifier.
    pub order_id: OrderId,
    /// Name of the exchange carrying the order.
    pub exchange: String,
    /// The traded symbol pair.
    pub symbol_pair: SymbolPair,
    /// Execution style of the order.
    pub order_type: OrderType,
    /// Buy or sell.
    pub side: OrderSide,
    /// Ordered quantity.
    pub quantity: Decimal,
    /// Limit price; `None` for market orders.
    pub price: Option<Decimal>,
    /// Quantity filled so far.
    pub filled_quantity: Decimal,
    /// Average price of the fills so far, if any.
    pub average_fill_price: Option<Decimal>,
    /// Lifecycle state of the order.
    pub status: OrderStatus,
    /// When the order was created, in milliseconds since the epoch.
    pub created_at: i64,
    /// When the view was last written, in milliseconds since the epoch.
    pub updated_at: i64,
    /// When the order expires, if it does.
    pub expires_at: Option<i64>,
    /// The client's own identifier, immutable once assigned.
    pub client_order_id: Option<String>,
}

/// An order is active while its status is `Created`, `New` or
/// `PartiallyFilled`.
pub open spec fn spec_is_active(status: OrderStatus) -> bool {
    status == OrderStatus::Created || status == OrderStatus::New || status
        == OrderStatus::PartiallyFilled
}

/// The view `update_status` leaves behind: only the status and update
/// time change.
pub open spec fn spec_update_status(v: OrderView, status: OrderStatus, timestamp: i64)
    -> OrderView {
    OrderView { status, updated_at: timestamp, ..v }
}

/// The view `update_fill` leaves behind: fill quantity, average fill
/// price and update time are replaced, and the status is derived from
/// quantity comparison alone — filled when the fill reaches the ordered
/// quantity, partially filled when it is strictly between zero and the
/// ordered quantity, and unchanged when it is zero.
pub open spec fn spec_update_fill(
    v: OrderView,
    filled_quantity: Decimal,
    average_fill_price: Option<Decimal>,
    timestamp: i64,
) -> OrderView {
    OrderView {
        filled_quantity,
        average_fill_price,
        updated_at: timestamp,
        status: if filled_quantity >= v.quantity {
            OrderStatus::Filled
        } else if 0 < filled_quantity && filled_quantity < v.quantity {
            OrderStatus::PartiallyFilled
        } else {
            v.status
        },
        ..v
    }
}

impl OrderView {
    /// Builds the view of a freshly created order: nothing filled yet,
    /// status `Created`, both bookkeeping times set to the current clock
    /// reading.
    pub fn new(
        order_id: OrderId,
        exchange: String,
        symbol_pair: SymbolPair,
        order_type: OrderType,
        side: OrderSide,
        quantity: Decimal,
        price: Option<Decimal>,
        client_order_id: Option<String>,
    ) -> (r: OrderView)
        ensures
            r.order_id == order_id,
            r.exchange == exchange,
            r.symbol_pair == symbol_pair,
            r.order_type == order_type,
            r.side == side,
            r.quantity == quantity,
            r.price == price,
            r.filled_quantity == 0,
            r.average_fill_price is None,
            r.status == OrderStatus::Created,
            r.expires_at is None,
            r.client_order_id == client_order_id,
            r.created_at == r.updated_at,
    {
        let now = now_timestamp_millis();
        OrderView {
            order_id,
            exchange,
            symbol_pair,
            order_type,
            side,
            quantity,
            price,
            filled_quantity: 0,
            average_fill_price: None,
            status: OrderStatus::Created,
            created_at: now,
            updated_at: now,
            expires_at: None,
            client_order_id,
        }
    }

    /// Overwrites the status and the update time.
    pub fn update_status(&mut self, status: OrderStatus, timestamp: i64)
        ensures
            *final(self) == spec_update_status(*old(self), status, timestamp),
    {
        self.status = status;
        self.updated_at = timestamp;
    }

    /// Overwrites the fill data and derives the status from quantity
    /// comparison alone: reaching the ordered quantity means filled, a
    /// positive partial fill means partially filled, and a zero fill
    /// leaves the status unchanged.
    pub fn update_fill(
        &mut self,
        filled_quantity: Decimal,
        average_fill_price: Option<Decimal>,
        timestamp: i64,
    )
        ensures
            *final(self) == spec_update_fill(
                *old(self),
                filled_quantity,
                average_fill_price,
                timestamp,
            ),
    {
        self.filled_quantity = filled_quantity;
        self.average_fill_price = average_fill_price;
        self.updated_at = timestamp;
        if filled_quantity >= self.quantity {
            self.status = OrderStatus::Filled;
        } else if 0 < filled_quantity && filled_quantity < self.quantity {
            self.status = OrderStatus::PartiallyFilled;
        }
    }

    /// Whether the order was canceled.
    pub fn is_canceled(&self) -> (r: bool)
        ensures
            r == (self.status == OrderStatus::Canceled),
    {
        self.status == OrderStatus::Canceled
    }

    /// Whether the order is completely filled.
    pub fn is_filled(&self) -> (r: bool)
        ensures
            r == (self.status == OrderStatus::Filled),
    {
        self.status == OrderStatus::Filled
    }

    /// Whether the order is still active.
    pub fn is_active(&self) -> (r: bool)
        ensures
            r == spec_is_active(self.status),
    {
        self.status == OrderStatus::Created || self.status == OrderStatus::New || self.status
            == OrderStatus::PartiallyFilled
    }
}

impl Clone for OrderView {
    fn clone(&self) -> (r: OrderView)
        ensures
            r == self,
    {
        OrderView {
            order_id: self.order_id,
            exchange: self.exchange.clone(),
            symbol_pair: self.symbol_pair.clone(),
            order_type: self.order_type,
            side: self.side,
            quantity: self.quantity,
            price: self.price,
            filled_quantity: self.filled_quantity,
            average_fill_price: self.average_fill_price,
            status: self.status,
            created_at: self.created_at,
            updated_at: self.updated_at,
            expires_at: self.expires_at,
            client_order_id: match &self.client_order_id {
                Some(c) => Some(c.clone()),
                None => None,
            },
        }
    }
}

/// The active orders of a stored order sequence, in storage order.
pub open spec fn active_orders(s: Seq<OrderView>) -> Seq<OrderView>
    decreases s.len(),
{
    if s.len() == 0 {
        Seq::empty()
    } else {
        let rest = active_orders(s.drop_last());
        if spec_is_active(s.last().status) {
            rest.push(s.last())
        } else {
            rest
        }
    }
}

/// The active orders of one symbol pair, in storage order.
pub open spec fn active_orders_for(s: Seq<OrderView>, key: (Seq<char>, Seq<char>)) -> Seq<
    OrderView,
>
    decreases s.len(),
{
    if s.len() == 0 {
        Seq::empty()
    } else {
        let rest = active_orders_for(s.drop_last(), key);
        if spec_is_active(s.last().status) && s.last().symbol_pair.key() == key {
            rest.push(s.last())
        } else {
            rest
        }
    }
}

/// Appending one order extends the active-order sequences it belongs to
/// and leaves the others unchanged.
proof fn lemma_active_push(s: Seq<OrderView>, v: OrderView, key: (Seq<char>, Seq<char>))
    ensures
        spec_is_active(v.status) ==> active_orders(s.push(v)) == active_orders(s).push(v),
        !spec_is_active(v.status) ==> active_orders(s.push(v)) == active_orders(s),
        (spec_is_active(v.status) && v.symbol_pair.key() == key) ==> active_orders_for(
            s.push(v),
            key,
        ) == active_orders_for(s, key).push(v),
        !(spec_is_active(v.status) && v.symbol_pair.key() == key) ==> active_orders_for(
            s.push(v),
            key,
        ) == active_orders_for(s, key),
{
    assert(s.push(v).drop_last() =~= s);
    assert(s.push(v).last() == v);
}

/// Every order the active-order queries return is active, carries the
/// requested symbol pair where one was asked for, and stands in the
/// cache.
pub proof fn lemma_active_orders_sound(s: Seq<OrderView>, key: (Seq<char>, Seq<char>))
    ensures
        forall|i: int|
            0 <= i < active_orders(s).len() ==> spec_is_active(
                (#[trigger] active_orders(s)[i]).status,
            ) && s.contains(active_orders(s)[i]),
        forall|i: int|
            0 <= i < active_orders_for(s, key).len() ==> spec_is_active(
                (#[trigger] active_orders_for(s, key)[i]).status,
            ) && active_orders_for(s, key)[i].symbol_pair.key() == key && s.contains(
                active_orders_for(s, key)[i],
            ),
    decreases s.len(),
{
    if s.len() > 0 {
        let prefix = s.drop_last();
        lemma_active_orders_sound(prefix, key);
        assert(s[s.len() - 1] == s.last());
        assert forall|i: int| 0 <= i < active_orders(s).len() implies spec_is_active(
            (#[trigger] active_orders(s)[i]).status,
        ) && s.contains(active_orders(s)[i]) by {
            if i < active_orders(prefix).len() {
                let v = active_orders(prefix)[i];
                let w = choose|w: int| 0 <= w < prefix.len() && prefix[w] == v;
                assert(s[w] == v);
            }
        }
        assert forall|i: int| 0 <= i < active_orders_for(s, key).len() implies spec_is_active(
            (#[trigger] active_orders_for(s, key)[i]).status,
        ) && active_orders_for(s, key)[i].symbol_pair.key() == key && s.contains(
            active_orders_for(s, key)[i],
        ) by {
            if i < active_orders_for(prefix, key).len() {
                let v = active_orders_for(prefix, key)[i];
                let w = choose|w: int| 0 <= w < prefix.len() && prefix[w] == v;
                assert(s[w] == v);
            }
        }
    }
}

/// A cache of order views keyed by order id, with a secondary index from
/// client order id to order id. Lookups of unknown keys yield `None` or
/// an existence flag of `false`, never an error.
#[derive(Debug)]
pub struct OrderCache {
    orders: Vec<OrderView>,
    client_ids: Vec<(String, OrderId)>,
}

impl OrderCache {
    /// The stored order views, in insertion order.
    pub closed spec fn orders(&self) -> Seq<OrderView> {
        self.orders@
    }

    /// The secondary index: client order id to order id, in insertion
    /// order.
    pub closed spec fn client_index(&self) -> Seq<(Seq<char>, OrderId)> {
        self.client_ids@.map_values(|p: (String, OrderId)| (p.0@, p.1))
    }

    /// Cache well-formedness: order ids are unique and so are the client
    /// index keys.
    pub open spec fn wf(&self) -> bool {
        &&& (forall|i: int, j: int|
            0 <= i < j < self.orders().len() ==> (#[trigger] self.orders()[i]).order_id != (
            #[trigger] self.orders()[j]).order_id)
        &&& (forall|i: int, j: int|
            0 <= i < j < self.client_index().len() ==> (#[trigger] self.client_index()[i]).0 != (
            #[trigger] self.client_index()[j]).0)
    }

    /// Creates an empty cache.
    pub fn new() -> (r: OrderCache)
        ensures
            r.orders() == Seq::<OrderView>::empty(),
            r.client_index() == Seq::<(Seq<char>, OrderId)>::empty(),
            r.wf(),
    {
        let r = OrderCache { orders: Vec::new(), client_ids: Vec::new() };
        proof {
            assert(r.client_index() =~= Seq::<(Seq<char>, OrderId)>::empty());
        }
        r
    }

    /// Inserts or fully replaces the view stored under the order's id.
    /// When the view carries a client order id, the secondary index entry
    /// for it is recorded or overwritten with the order's id.
    pub fn upsert_order(&mut self, order: OrderView)
        requires
            old(self).wf(),
        ensures
            final(self).wf(),
            (exists|i: int|
                0 <= i < old(self).orders().len() && (#[trigger] old(self).orders()[i]).order_id
                    == order.order_id) ==> exists|i: int|
                0 <= i < old(self).orders().len() && (#[trigger] old(self).orders()[i]).order_id
                    == order.order_id && final(self).orders() == old(self).orders().update(
                    i,
                    order,
                ),
            (!exists|i: int|
                0 <= i < old(self).orders().len() && (#[trigger] old(self).orders()[i]).order_id
                    == order.order_id) ==> final(self).orders() == old(self).orders().push(order),
            order.client_order_id is None ==> final(self).client_index() == old(
                self,
            ).client_index(),
            order.client_order_id matches Some(cid) ==> {
                if exists|i: int|
                    0 <= i < old(self).client_index().len() && (
                    #[trigger] old(self).client_index()[i]).0 == cid@ {
                    exists|i: int|
                        0 <= i < old(self).client_index().len() && (
                        #[trigger] old(self).client_index()[i]).0 == cid@ && final(self).client_index()
                            == old(self).client_index().update(i, (cid@, order.order_id))
                } else {
                    final(self).client_index() == old(self).client_index().push(
                        (cid@, order.order_id),
                    )
                }
            },
    {
        let oid = order.order_id;
        let cid_copy: Option<String> = match &order.client_order_id {
            Some(c) => Some(c.clone()),
            None => None,
        };
        if let Some(cid) = &cid_copy {
            self.record_client_id(cid, oid);
        }
        self.store_order(order);
    }

    /// Records or overwrites the secondary index entry of one client
    /// order id.
    fn record_client_id(&mut self, cid: &String, oid: OrderId)
        requires
            old(self).wf(),
        ensures
            final(self).wf(),
            final(self).orders() == old(self).orders(),
            (exists|i: int|
                0 <= i < old(self).client_index().len() && (
                #[trigger] old(self).client_index()[i]).0 == cid@) ==> exists|i: int|
                0 <= i < old(self).client_index().len() && (
                #[trigger] old(self).client_index()[i]).0 == cid@ && final(self).client_index()
                    == old(self).client_index().update(i, (cid@, oid)),
            (!exists|i: int|
                0 <= i < old(self).client_index().len() && (
                #[trigger] old(self).client_index()[i]).0 == cid@) ==> final(self).client_index()
                == old(self).client_index().push((cid@, oid)),
    {
        let n = self.client_ids.len();
        let mut i: usize = 0;
        while i < n
            invariant
                i <= n,
                n == self.client_index().len(),
                *self == *old(self),
                old(self).wf(),
                forall|j: int| 0 <= j < i ==> (#[trigger] self.client_index()[j]).0 != cid@,
            decreases n - i,
        {
            if self.client_ids[i].0.eq(cid) {
                let ghost pre = *self;
                let _ = self.client_ids.remove(i);
                self.client_ids.insert(i, (cid.clone(), oid));
                proof {
                    assert(self.client_index() =~= pre.client_index().update(i as int, (cid@, oid)));
                    assert(self.orders() =~= pre.orders());
                    assert(pre.client_index()[i as int].0 == cid@);
                    assert forall|a: int, b: int|
                        0 <= a < b < self.client_index().len() implies (
                    #[trigger] self.client_index()[a]).0 != (
                    #[trigger] self.client_index()[b]).0 by {
                        assert(pre.client_index()[a].0 != pre.client_index()[b].0);
                    }
                }
                return ;
            }
            i = i + 1;
        }
        let ghost pre = *self;
        self.client_ids.push((cid.clone(), oid));
        proof {
            assert(self.client_index() =~= pre.client_index().push((cid@, oid)));
            assert(self.orders() =~= pre.orders());
            assert forall|a: int, b: int|
                0 <= a < b < self.client_index().len() implies (
            #[trigger] self.client_index()[a]).0 != (#[trigger] self.client_index()[b]).0 by {
                if b < self.client_index().len() - 1 {
                    assert(pre.client_index()[a].0 != pre.client_index()[b].0);
                } else {
                    assert(pre.client_index()[a].0 != cid@);
                }
            }
        }
    }

    /// Stores one order view under its id, replacing any previous view.
    fn store_order(&mut self, order: OrderView)
        requires
            old(self).wf(),
        ensures
            final(self).wf(),
            final(self).client_index() == old(self).client_index(),
            (exists|i: int|
                0 <= i < old(self).orders().len() && (#[trigger] old(self).orders()[i]).order_id
                    == order.order_id) ==> exists|i: int|
                0 <= i < old(self).orders().len() && (#[trigger] old(self).orders()[i]).order_id
                    == order.order_id && final(self).orders() == old(self).orders().update(
                    i,
                    order,
                ),
            (!exists|i: int|
                0 <= i < old(self).orders().len() && (#[trigger] old(self).orders()[i]).order_id
                    == order.order_id) ==> final(self).orders() == old(self).orders().push(order),
    {
        let n = self.orders.len();
        let mut i: usize = 0;
        while i < n
            invariant
                i <= n,
                n == self.orders().len(),
                *self == *old(self),
                old(self).wf(),
                forall|j: int|
                    0 <= j < i ==> (#[trigger] self.orders()[j]).order_id != order.order_id,
            decreases n - i,
        {
            if self.orders[i].order_id.0 == order.order_id.0 {
                let ghost pre = *self;
                let _ = self.orders.remove(i);
                self.orders.insert(i, order);
                proof {
                    assert(self.orders() =~= pre.orders().update(i as int, order));
                    assert(self.client_index() =~= pre.client_index());
                    assert(pre.orders()[i as int].order_id == order.order_id);
                    assert forall|a: int, b: int|
                        0 <= a < b < self.orders().len() implies (
                    #[trigger] self.orders()[a]).order_id != (
                    #[trigger] self.orders()[b]).order_id by {
                        assert(pre.orders()[a].order_id != pre.orders()[b].order_id);
                    }
                }
                return ;
            }
            i = i + 1;
        }
        let ghost pre = *self;
        self.orders.push(order);
        proof {
            assert(self.orders() =~= pre.orders().push(order));
            assert(self.client_index() =~= pre.client_index());
            assert forall|a: int, b: int|
                0 <= a < b < self.orders().len() implies (#[trigger] self.orders()[a]).order_id != (
            #[trigger] self.orders()[b]).order_id by {
                if b < self.orders().len() - 1 {
                    assert(pre.orders()[a].order_id != pre.orders()[b].order_id);
                } else {
                    assert(pre.orders()[a].order_id != order.order_id);
                }
            }
        }
    }

    /// Overwrites the status and update time of the order with the given
    /// id; the result says whether such an order existed. `false` means
    /// the event was stale or out of order, not a fault.
    pub fn update_order_status(&mut self, order_id: &OrderId, status: OrderStatus, timestamp: i64)
        -> (r: bool)
        requires
            old(self).wf(),
        ensures
            final(self).wf(),
            final(self).client_index() == old(self).client_index(),
            r == exists|i: int|
                0 <= i < old(self).orders().len() && (#[trigger] old(self).orders()[i]).order_id
                    == order_id,
            r ==> exists|i: int|
                0 <= i < old(self).orders().len() && (#[trigger] old(self).orders()[i]).order_id
                    == order_id && final(self).orders() == old(self).orders().update(
                    i,
                    spec_update_status(old(self).orders()[i], status, timestamp),
                ),
            !r ==> final(self).orders() == old(self).orders(),
    {
        let n = self.orders.len();
        let mut i: usize = 0;
        while i < n
            invariant
                i <= n,
                n == self.orders().len(),
                *self == *old(self),
                old(self).wf(),
                forall|j: int| 0 <= j < i ==> (#[trigger] self.orders()[j]).order_id != order_id,
            decreases n - i,
        {
            if self.orders[i].order_id.0 == order_id.0 {
                let ghost pre = *self;
                let mut v = self.orders.remove(i);
                v.update_status(status, timestamp);
                self.orders.insert(i, v);
                proof {
                    assert(self.orders() =~= pre.orders().update(
                        i as int,
                        spec_update_status(pre.orders()[i as int], status, timestamp),
                    ));
                    assert(self.client_index() =~= pre.client_index());
                    assert forall|a: int, b: int|
                        0 <= a < b < self.orders().len() implies (
                    #[trigger] self.orders()[a]).order_id != (
                    #[trigger] self.orders()[b]).order_id by {
                        assert(pre.orders()[a].order_id != pre.orders()[b].order_id);
                    }
                }
                return true;
            }
            i = i + 1;
        }
        false
    }

    /// Overwrites the fill data of the order with the given id — deriving
    /// its status from quantity comparison as `OrderView::update_fill`
    /// does — and says whether such an order existed.
    pub fn update_order_fill(
        &mut self,
        order_id: &OrderId,
        filled_quantity: Decimal,
        average_fill_price: Option<Decimal>,
        timestamp: i64,
    ) -> (r: bool)
        requires
            old(self).wf(),
        ensures
            final(self).wf(),
            final(self).client_index() == old(self).client_index(),
            r == exists|i: int|
                0 <= i < old(self).orders().len() && (#[trigger] old(self).orders()[i]).order_id
                    == order_id,
            r ==> exists|i: int|
                0 <= i < old(self).orders().len() && (#[trigger] old(self).orders()[i]).order_id
                    == order_id && final(self).orders() == old(self).orders().update(
                    i,
                    spec_update_fill(
                        old(self).orders()[i],
                        filled_quantity,
                        average_fill_price,
                        timestamp,
                    ),
                ),
            !r ==> final(self).orders() == old(self).orders(),
    {
        let n = self.orders.len();
        let mut i: usize = 0;
        while i < n
            invariant
                i <= n,
                n == self.orders().len(),
                *self == *old(self),
                old(self).wf(),
                forall|j: int| 0 <= j < i ==> (#[trigger] self.orders()[j]).order_id != order_id,
            decreases n - i,
        {
            if self.orders[i].order_id.0 == order_id.0 {
                let ghost pre = *self;
                let mut v = self.orders.remove(i);
                v.update_fill(filled_quantity, average_fill_price, timestamp);
                self.orders.insert(i, v);
                proof {
                    assert(self.orders() =~= pre.orders().update(
                        i as int,
                        spec_update_fill(
                            pre.orders()[i as int],
                            filled_quantity,
                            average_fill_price,
                            timestamp,
                        ),
                    ));
                    assert(self.client_index() =~= pre.client_index());
                    assert forall|a: int, b: int|
                        0 <= a < b < self.orders().len() implies (
                    #[trigger] self.orders()[a]).order_id != (
                    #[trigger] self.orders()[b]).order_id by {
                        assert(pre.orders()[a].order_id != pre.orders()[b].order_id);
                    }
                }
                return true;
            }
            i = i + 1;
        }
        false
    }

    /// Point read of the order stored under an id. The result is an owned
    /// snapshot.
    pub fn get_order(&self, order_id: &OrderId) -> (r: Option<OrderView>)
        ensures
            (r is Some) <==> exists|i: int|
                0 <= i < self.orders().len() && (#[trigger] self.orders()[i]).order_id == order_id,
            r matches Some(v) ==> exists|i: int|
                0 <= i < self.orders().len() && (#[trigger] self.orders()[i]).order_id == order_id
                    && v == self.orders()[i],
    {
        let n = self.orders.len();
        let mut i: usize = 0;
        while i < n
            invariant
                i <= n,
                n == self.orders().len(),
                forall|j: int| 0 <= j < i ==> (#[trigger] self.orders()[j]).order_id != order_id,
            decreases n - i,
        {
            if self.orders[i].order_id.0 == order_id.0 {
                return Some(self.orders[i].clone());
            }
            i = i + 1;
        }
        None
    }

    /// Point read through the secondary index: resolves a client order id
    /// to an order id and returns the order stored under it, `None` when
    /// either step finds nothing.
    pub fn get_order_by_client_id(&self, client_id: &str) -> (r: Option<OrderView>)
        ensures
            (!exists|i: int|
                0 <= i < self.client_index().len() && (#[trigger] self.client_index()[i]).0
                    == client_id@) ==> r is None,
            (exists|i: int|
                0 <= i < self.client_index().len() && (#[trigger] self.client_index()[i]).0
                    == client_id@) ==> exists|i: int|
                {
                    &&& 0 <= i < self.client_index().len()
                    &&& (#[trigger] self.client_index()[i]).0 == client_id@
                    &&& ((r is Some) <==> exists|j: int|
                        0 <= j < self.orders().len() && (#[trigger] self.orders()[j]).order_id
                            == self.client_index()[i].1)
                    &&& (r matches Some(v) ==> exists|j: int|
                        0 <= j < self.orders().len() && (#[trigger] self.orders()[j]).order_id
                            == self.client_index()[i].1 && v == self.orders()[j])
                },
    {
        let key = client_id.to_owned();
        let n = self.client_ids.len();
        let mut i: usize = 0;
        while i < n
            invariant
                i <= n,
                n == self.client_index().len(),
                key@ == client_id@,
                forall|j: int| 0 <= j < i ==> (#[trigger] self.client_index()[j]).0 != client_id@,
            decreases n - i,
        {
            if self.client_ids[i].0.eq(&key) {
                let oid = self.client_ids[i].1;
                proof {
                    assert(self.client_index()[i as int].0 == client_id@);
                    assert(self.client_index()[i as int].1 == oid);
                }
                return self.get_order(&oid);
            }
            i = i + 1;
        }
        None
    }

    /// All active orders of one symbol pair, in storage order. The result
    /// is an owned snapshot.
    pub fn get_active_orders_by_symbol(&self, symbol_pair: &SymbolPair) -> (r: Vec<OrderView>)
        ensures
            r@ == active_orders_for(self.orders(), symbol_pair.key()),
    {
        let n = self.orders.len();
        let mut r: Vec<OrderView> = Vec::new();
        let mut i: usize = 0;
        proof {
            assert(self.orders().take(0) =~= Seq::<OrderView>::empty());
        }
        while i < n
            invariant
                i <= n,
                n == self.orders().len(),
                r@ == active_orders_for(self.orders().take(i as int), symbol_pair.key()),
            decreases n - i,
        {
            proof {
                lemma_active_push(
                    self.orders().take(i as int),
                    self.orders()[i as int],
                    symbol_pair.key(),
                );
                assert(self.orders().take(i as int).push(self.orders()[i as int]) =~= self.orders().take(
                    i + 1,
                ));
            }
            if self.orders[i].is_active() && self.orders[i].symbol_pair.eq(symbol_pair) {
                r.push(self.orders[i].clone());
            }
            i = i + 1;
        }
        proof {
            assert(self.orders().take(n as int) =~= self.orders());
        }
        r
    }

    /// All active orders, in storage order. The result is an owned
    /// snapshot.
    pub fn get_all_active_orders(&self) -> (r: Vec<OrderView>)
        ensures
            r@ == active_orders(self.orders()),
    {
        let n = self.orders.len();
        let mut r: Vec<OrderView> = Vec::new();
        let mut i: usize = 0;
        proof {
            assert(self.orders().take(0) =~= Seq::<OrderView>::empty());
        }
        while i < n
            invariant
                i <= n,
                n == self.orders().len(),
                r@ == active_orders(self.orders().take(i as int)),
            decreases n - i,
        {
            proof {
                lemma_active_push(
                    self.orders().take(i as int),
                    self.orders()[i as int],
                    (Seq::empty(), Seq::empty()),
                );
                assert(self.orders().take(i as int).push(self.orders()[i as int]) =~= self.orders().take(
                    i + 1,
                ));
            }
            if self.orders[i].is_active() {
                r.push(self.orders[i].clone());
            }
            i = i + 1;
        }
        proof {
            assert(self.orders().take(n as int) =~= self.orders());
        }
        r
    }
}

} // verus!
