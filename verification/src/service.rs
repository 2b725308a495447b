//! Service wiring: the model service owning the caches, and the trading
//! domain service that components reach them through.

use vstd::prelude::*;

use crate::market_view::MarketDataCache;
use crate::order_view::OrderCache;

verus! {

/// Owns the trading domain's read models: one market data cache and one
/// order cache.
#[derive(Debug)]
pub struct ModelService {
    market_data_cache: MarketDataCache,
    order_cache: OrderCache,
}

impl ModelService {
    /// The market data cache.
    pub closed spec fn spec_market_data_cache(&self) -> MarketDataCache {
        self.market_data_cache
    }

    /// The order cache.
    pub closed spec fn spec_order_cache(&self) -> OrderCache {
        self.order_cache
    }

    /// Creates a service with two empty caches.
    pub fn new() -> (r: ModelService)
        ensures
            r.spec_market_data_cache().wf(),
            r.spec_market_data_cache().price_views().len() == 0,
            r.spec_market_data_cache().series().len() == 0,
            r.spec_order_cache().wf(),
            r.spec_order_cache().orders().len() == 0,
            r.spec_order_cache().client_index().len() == 0,
    {
        ModelService { market_data_cache: MarketDataCache::new(), order_cache: OrderCache::new() }
    }

    /// Reads the market data cache.
    pub fn market_data_cache(&self) -> (r: &MarketDataCache)
        ensures
            *r == self.spec_market_data_cache(),
    {
        &self.market_data_cache
    }

    /// Reads the order cache.
    pub fn order_cache(&self) -> (r: &OrderCache)
        ensures
            *r == self.spec_order_cache(),
    {
        &self.order_cache
    }

    /// Borrows the market data cache for mutation.
    pub fn market_data_cache_mut(&mut self) -> (r: &mut MarketDataCache)
        ensures
            *r == old(self).spec_market_data_cache(),
            final(self).spec_market_data_cache() == *final(r),
            final(self).spec_order_cache() == old(self).spec_order_cache(),
    {
        &mut self.market_data_cache
    }

    /// Borrows the order cache for mutation.
    pub fn order_cache_mut(&mut self) -> (r: &mut OrderCache)
        ensures
            *r == old(self).spec_order_cache(),
            final(self).spec_order_cache() == *final(r),
            final(self).spec_market_data_cache() == old(self).spec_market_data_cache(),
    {
        &mut self.order_cache
    }
}

impl Default for ModelService {
    /// A service with two empty caches, as `new` builds it.
    fn default() -> (r: ModelService)
        ensures
            r.spec_market_data_cache().wf(),
            r.spec_order_cache().wf(),
    {
        ModelService::new()
    }
}

/// The trading domain's entry point: owns the model service. Event
/// subscriptions are wired by the embedding process, which registers the
/// projection handlers on its bus.
#[derive(Debug)]
pub struct TradingDomainService {
    model_service: ModelService,
}

impl TradingDomainService {
    /// The model service.
    pub closed spec fn spec_model_service(&self) -> ModelService {
        self.model_service
    }

    /// Creates the service with fresh, empty read models.
    pub fn new() -> (r: TradingDomainService)
        ensures
            r.spec_model_service().spec_market_data_cache().wf(),
            r.spec_model_service().spec_order_cache().wf(),
    {
        TradingDomainService { model_service: ModelService::new() }
    }

    /// Reads the model service.
    pub fn model_service(&self) -> (r: &ModelService)
        ensures
            *r == self.spec_model_service(),
    {
        &self.model_service
    }

    /// The library's version.
    pub fn version() -> (r: &'static str)
        ensures
            r@ == crate::spec_version(),
    {
        crate::version()
    }
}

impl Default for TradingDomainService {
    /// A fresh service, as `new` builds it.
    fn default() -> (r: TradingDomainService)
        ensures
            r.spec_model_service().spec_market_data_cache().wf(),
            r.spec_model_service().spec_order_cache().wf(),
    {
        TradingDomainService::new()
    }
}

} // verus!
