//! The exchange entity of the exchange domain: identity, type, status and
//! feature flags.

use vstd::prelude::*;

use crate::util::fresh_uuid_u128;
use crate::util::lower_of;
use crate::util::now_timestamp_millis;
use crate::util::to_lowercase_str;

verus! {

/// An exchange code, normalized to lower case on construction, e.g.
/// `binance`.
#[derive(Debug)]
pub struct ExchangeId {
    id: String,
}

impl ExchangeId {
    /// The normalized code.
    pub closed spec fn spec_value(&self) -> Seq<char> {
        self.id@
    }

    /// Builds an exchange id, folding the code to lower case.
    pub fn new(id: &str) -> (r: ExchangeId)
        ensures
            r.spec_value() == lower_of(id@),
    {
        ExchangeId { id: to_lowercase_str(id) }
    }

    /// Reads the code.
    pub fn value(&self) -> (r: &str)
        ensures
            r@ == self.spec_value(),
    {
        self.id.as_str()
    }
}

impl Clone for ExchangeId {
    fn clone(&self) -> (r: ExchangeId)
        ensures
            r == self,
    {
        ExchangeId { id: self.id.clone() }
    }
}

impl PartialEq for ExchangeId {
    fn eq(&self, other: &ExchangeId) -> (r: bool) {
        self.id == other.id
    }
}

impl Eq for ExchangeId {}

impl vstd::std_specs::cmp::PartialEqSpecImpl for ExchangeId {
    open spec fn obeys_eq_spec() -> bool {
        true
    }

    open spec fn eq_spec(&self, other: &ExchangeId) -> bool {
        self.spec_value() == other.spec_value()
    }
}

/// How an exchange is organized.
#[derive(Debug, Clone, Copy, PartialEq, Eq, Hash, Structural)]
pub enum ExchangeType {
    /// A centralized exchange.
    Centralized,
    /// A decentralized exchange.
    Decentralized,
    /// A hybrid of the two.
    Hybrid,
}

/// The operational state of an exchange.
#[derive(Debug, Clone, Copy, PartialEq, Eq, Hash, Structural)]
pub enum ExchangeStatus {
    /// Up and serving.
    Active,
    /// Switched off.
    Inactive,
    /// Down for maintenance.
    Maintenance,
    /// Temporarily failing.
    Error,
}

/// An exchange entity: identity, connectivity data and feature flags.
#[derive(Debug)]
pub struct Exchange {
    /// Unique identifier of this entity.
    pub id: u128,
    /// The exchange's code.
    pub exchange_id: ExchangeId,
    /// The exchange's display name.
    pub name: String,
    /// How the exchange is organized.
    pub exchange_type: ExchangeType,
    /// The exchange's operational state.
    pub status: ExchangeStatus,
    /// Base URL of the exchange's API.
    pub base_url: String,
    /// WebSocket URL, when one is known.
    pub websocket_url: Option<String>,
    /// Feature flags, keyed by feature name; use `set_feature` and
    /// `supports_feature` to keep the names unique.
    pub features: Vec<(String, bool)>,
    /// Rate limits, keyed by category name.
    pub rate_limits: Vec<(String, u32)>,
    /// The exchange's country, when known.
    pub country: Option<String>,
    /// When the entity was created, in milliseconds since the epoch.
    pub created_at: i64,
    /// When the entity was last changed, in milliseconds since the epoch.
    pub updated_at: i64,
}

impl Exchange {
    /// The feature flags, keyed by feature name.
    pub closed spec fn spec_features(&self) -> Seq<(Seq<char>, bool)> {
        self.features@.map_values(|p: (String, bool)| (p.0@, p.1))
    }

    /// Entity well-formedness: feature names are unique.
    pub open spec fn wf(&self) -> bool {
        forall|i: int, j: int|
            0 <= i < j < self.spec_features().len() ==> (#[trigger] self.spec_features()[i]).0 != (
            #[trigger] self.spec_features()[j]).0
    }

    /// Builds a fresh exchange entity: active, with no feature flags, no
    /// rate limits, no WebSocket URL and no country, both bookkeeping
    /// times set to the current clock reading.
    pub fn new(exchange_id: ExchangeId, name: &str, exchange_type: ExchangeType, base_url: &str)
        -> (r: Exchange)
        ensures
            r.exchange_id == exchange_id,
            r.name@ == name@,
            r.exchange_type == exchange_type,
            r.status == ExchangeStatus::Active,
            r.base_url@ == base_url@,
            r.websocket_url is None,
            r.spec_features().len() == 0,
            r.rate_limits@.len() == 0,
            r.country is None,
            r.created_at == r.updated_at,
            r.wf(),
    {
        let now = now_timestamp_millis();
        let r = Exchange {
            id: fresh_uuid_u128(),
            exchange_id,
            name: name.to_owned(),
            exchange_type,
            status: ExchangeStatus::Active,
            base_url: base_url.to_owned(),
            websocket_url: None,
            features: Vec::new(),
            rate_limits: Vec::new(),
            country: None,
            created_at: now,
            updated_at: now,
        };
        proof {
            assert(r.spec_features() =~= Seq::<(Seq<char>, bool)>::empty());
        }
        r
    }

    /// Changes the operational state and bumps the update time; nothing
    /// else moves.
    pub fn update_status(&mut self, status: ExchangeStatus)
        ensures
            *final(self) == (Exchange {
                status,
                updated_at: final(self).updated_at,
                ..*old(self)
            }),
    {
        self.status = status;
        self.updated_at = now_timestamp_millis();
    }

    /// Records whether a feature is supported, overwriting any earlier
    /// flag of the same name, and bumps the update time.
    pub fn set_feature(&mut self, feature: &str, supported: bool)
        requires
            old(self).wf(),
        ensures
            final(self).wf(),
            final(self).status == old(self).status,
            (exists|i: int|
                0 <= i < old(self).spec_features().len() && (#[trigger] old(
                    self,
                ).spec_features()[i]).0 == feature@) ==> exists|i: int|
                0 <= i < old(self).spec_features().len() && (#[trigger] old(
                    self,
                ).spec_features()[i]).0 == feature@ && final(self).spec_features() == old(
                    self,
                ).spec_features().update(i, (feature@, supported)),
            (!exists|i: int|
                0 <= i < old(self).spec_features().len() && (#[trigger] old(
                    self,
                ).spec_features()[i]).0 == feature@) ==> final(self).spec_features() == old(
                self,
            ).spec_features().push((feature@, supported)),
    {
        let key = feature.to_owned();
        let n = self.features.len();
        let mut i: usize = 0;
        while i < n
            invariant
                i <= n,
                n == self.spec_features().len(),
                *self == *old(self),
                old(self).wf(),
                key@ == feature@,
                forall|j: int| 0 <= j < i ==> (#[trigger] self.spec_features()[j]).0 != feature@,
            decreases n - i,
        {
            if self.features[i].0.eq(&key) {
                let ghost pre = *self;
                let _ = self.features.remove(i);
                self.features.insert(i, (key, supported));
                self.updated_at = now_timestamp_millis();
                proof {
                    assert(self.spec_features() =~= pre.spec_features().update(
                        i as int,
                        (feature@, supported),
                    ));
                    assert(pre.spec_features()[i as int].0 == feature@);
                    assert forall|a: int, b: int|
                        0 <= a < b < self.spec_features().len() implies (
                    #[trigger] self.spec_features()[a]).0 != (
                    #[trigger] self.spec_features()[b]).0 by {
                        assert(pre.spec_features()[a].0 != pre.spec_features()[b].0);
                    }
                }
                return ;
            }
            i = i + 1;
        }
        let ghost pre = *self;
        self.features.push((key, supported));
        self.updated_at = now_timestamp_millis();
        proof {
            assert(self.spec_features() =~= pre.spec_features().push((feature@, supported)));
            assert forall|a: int, b: int|
                0 <= a < b < self.spec_features().len() implies (
            #[trigger] self.spec_features()[a]).0 != (#[trigger] self.spec_features()[b]).0 by {
                if b < self.spec_features().len() - 1 {
                    assert(pre.spec_features()[a].0 != pre.spec_features()[b].0);
                } else {
                    assert(pre.spec_features()[a].0 != feature@);
                }
            }
        }
    }

    /// Whether a feature is flagged as supported; unknown features are
    /// not.
    pub fn supports_feature(&self, feature: &str) -> (r: bool)
        ensures
            r == exists|i: int|
                0 <= i < self.spec_features().len() && #[trigger] self.spec_features()[i] == (
                feature@,
                true,
                ),
    {
        let key = feature.to_owned();
        let n = self.features.len();
        let mut i: usize = 0;
        while i < n
            invariant
                i <= n,
                n == self.spec_features().len(),
                key@ == feature@,
                forall|j: int| 0 <= j < i ==> #[trigger] self.spec_features()[j] != (feature@, true),
            decreases n - i,
        {
            if self.features[i].0.eq(&key) {
                if self.features[i].1 {
                    proof {
                        assert(self.spec_features()[i as int] == (feature@, true));
                    }
                    return true;
                } else {
                    proof {
                        assert(self.spec_features()[i as int] != (feature@, true));
                    }
                }
            }
            i = i + 1;
        }
        false
    }

    /// Sets the WebSocket URL and bumps the update time; nothing else
    /// moves.
    pub fn set_websocket_url(&mut self, url: &str)
        ensures
            final(self).websocket_url matches Some(u) && u@ == url@,
            *final(self) == (Exchange {
                websocket_url: final(self).websocket_url,
                updated_at: final(self).updated_at,
                ..*old(self)
            }),
    {
        self.websocket_url = Some(url.to_owned());
        self.updated_at = now_timestamp_millis();
    }

    /// Whether the exchange is up and serving.
    pub fn is_active(&self) -> (r: bool)
        ensures
            r == (self.status == ExchangeStatus::Active),
    {
        self.status == ExchangeStatus::Active
    }
}

} // verus!
