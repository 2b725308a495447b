//! The event system: the `Event` capability contract, handler trait,
//! event headers and envelopes, and subscription handles.
//!
//! Dispatch is keyed solely by an event's *discriminator*, a stable numeric
//! tag identifying the concrete payload type. The textual `event_type` is
//! carried for logging and debugging only and must never be used for
//! routing: two distinct payload types could share a human-readable name.

use vstd::prelude::*;

use crate::error::CoreError;
use crate::util::fresh_uuid_u128;
use crate::util::now_timestamp_millis;

verus! {

/// The capability contract every event payload type satisfies: a stable
/// type discriminator, an occurrence timestamp and a unique identifier.
pub trait Event: Sized {
    /// The dispatch key of this event, determined by its concrete payload
    /// type alone: every value of one payload type returns the same tag,
    /// and distinct payload types choose distinct tags.
    spec fn spec_discriminator(&self) -> u64;

    /// Returns the dispatch key.
    fn discriminator(&self) -> (r: u64)
        ensures
            r == self.spec_discriminator(),
    ;

    /// A human-readable type name, for logging only — never for routing.
    fn event_type(&self) -> &'static str;

    /// When the event occurred, in milliseconds since the Unix epoch.
    fn timestamp_millis(&self) -> i64;

    /// The unique identifier of this event instance.
    fn id(&self) -> u128;
}

/// A handler for events of one declared discriminator. The bus invokes
/// `handle` synchronously, on the publisher's call, for every published
/// event whose discriminator equals the handler's declared one.
pub trait EventHandler<E: Event>: Sized {
    /// The discriminator this handler is meant for.
    spec fn spec_event_discriminator(&self) -> u64;

    /// Returns the discriminator this handler is meant for.
    fn event_discriminator(&self) -> (r: u64)
        ensures
            r == self.spec_event_discriminator(),
    ;

    /// Processes one event. A failure is contained by the bus: it is
    /// dropped there and never reaches the publisher or later handlers.
    fn handle(&mut self, event: &E) -> Result<(), CoreError>;
}

/// The header every enveloped event carries. Immutable after creation.
#[derive(Debug, Clone)]
pub struct EventHeader {
    /// Unique identifier of this envelope instance.
    pub id: u128,
    /// Occurrence time in milliseconds since the Unix epoch.
    pub timestamp: i64,
    /// The bounded context that produced the event.
    pub source: String,
    /// Human-readable event type name, for logging only.
    pub event_type: String,
    /// Identifier of a related event, if any.
    pub correlation_id: Option<u128>,
    /// Schema version of the payload.
    pub version: String,
}

/// An event envelope: a header next to an arbitrary payload.
#[derive(Debug, Clone)]
pub struct EventEnvelope<T> {
    /// The event header.
    pub header: EventHeader,
    /// The event payload.
    pub payload: T,
}

/// Builds a fresh event header: a new unique identifier, the current time,
/// the given source, type name and correlation id, and schema version 1.0.
pub fn create_event_header(source: &str, event_type: &str, correlation_id: Option<u128>) -> (r:
    EventHeader)
    ensures
        r.source@ == source@,
        r.event_type@ == event_type@,
        r.correlation_id == correlation_id,
        r.version@ == "1.0"@,
{
    EventHeader {
        id: fresh_uuid_u128(),
        timestamp: now_timestamp_millis(),
        source: source.to_owned(),
        event_type: event_type.to_owned(),
        correlation_id,
        version: "1.0".to_owned(),
    }
}

/// A subscription handle: a pure capability token returned by `subscribe`
/// and presented to `unsubscribe`. It carries no behavior.
#[derive(Debug, Clone, Copy, PartialEq, Eq, Hash, Structural)]
pub struct SubscriptionHandle {
    /// The subscription's unique identifier within its bus.
    pub id: u64,
    /// The discriminator of the event type subscribed to.
    pub event_type_id: u64,
}

impl SubscriptionHandle {
    /// Builds a handle from its two components.
    pub fn new(id: u64, event_type_id: u64) -> (r: SubscriptionHandle)
        ensures
            r.id == id,
            r.event_type_id == event_type_id,
    {
        SubscriptionHandle { id, event_type_id }
    }
}

} // verus!
