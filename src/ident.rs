use vstd::prelude::*;

use crate::model::Timestamp;

verus! {

/// Whether a 128-bit value has the version and variant bits of a random
/// (version 4, RFC 4122 variant) UUID.
pub open spec fn is_v4_uuid(u: u128) -> bool {
    (u >> 76u128) & 0xfu128 == 4u128 && (u >> 62u128) & 3u128 == 2u128
}

/// Relies on `uuid::Uuid::new_v4` and `Uuid::as_u128`: a random UUID whose
/// version nibble is 4 and whose two variant bits are `10`, as 128 bits in
/// big-endian order.
#[verifier::external_body]
pub(crate) fn fresh_uuid() -> (r: u128)
    ensures
        is_v4_uuid(r),
{
    uuid::Uuid::new_v4().as_u128()
}

/// Relies on `chrono::Utc::now` and `DateTime::timestamp_micros`: the
/// current UTC time. Nothing is known of the value.
#[verifier::external_body]
pub(crate) fn now() -> (r: Timestamp) {
    Timestamp { micros: chrono::Utc::now().timestamp_micros() }
}

} // verus!
