//! CryptoLytica event-driven projection layer.
//!
//! A process-local, type-safe publish/subscribe bus together with the
//! materialized-view caches (market data and orders) that event handlers
//! keep current. Producers publish events; handlers translate each event
//! into a cache mutation; readers take owned snapshots from the caches.

use vstd::prelude::*;

pub mod bus;
pub mod config;
pub mod error;
pub mod events;
pub mod exchange;
pub mod exchange_error;
pub mod market_events;
pub mod market_view;
pub mod order_events;
pub mod order_view;
pub mod service;
pub mod symbol;
pub mod timeframe;
pub mod trading;
pub mod types;
pub mod util;

verus! {

/// The library's version.
pub open spec fn spec_version() -> Seq<char> {
    "0.1.0"@
}

/// The library's version.
pub fn version() -> (r: &'static str)
    ensures
        r@ == spec_version(),
{
    "0.1.0"
}

} // verus!
