//! Types of other crates that the library carries through unchanged.
use crate::event::Timestamp;
use vstd::prelude::*;

verus! {

/// A trace identifier: carried from event to event, never inspected.
#[verifier::external_type_specification]
#[verifier::external_body]
pub struct ExUuid(uuid::Uuid);

/// Relies on uuid's derived `Clone`, which copies the sixteen bytes.
pub assume_specification[ <uuid::Uuid as Clone>::clone ](u: &uuid::Uuid) -> (r: uuid::Uuid)
    ensures
        r == *u,
;

/// Relies on uuid::Uuid::nil, the identifier whose bits are all zero.
pub assume_specification[ uuid::Uuid::nil ]() -> uuid::Uuid;

/// Relies on chrono::Utc::now and DateTime::timestamp_micros: the time of the
/// call, in microseconds since the Unix epoch. Nothing is known of its value.
#[verifier::external_body]
pub(crate) fn now() -> Timestamp {
    Timestamp { micros: chrono::Utc::now().timestamp_micros() }
}

/// Name of an exchange.
#[verifier::external_type_specification]
#[verifier::external_body]
pub struct ExExchange(barter_integration::model::Exchange);

/// An instrument traded on an exchange.
#[verifier::external_type_specification]
#[verifier::external_body]
pub struct ExInstrument(barter_integration::model::Instrument);

} // verus!
