use rand::Rng;
use vstd::prelude::*;

verus! {

/// The version and variant bits that a random (version 4, RFC 4122) UUID
/// carries, read from its big-endian 128-bit value.
pub open spec fn is_random_uuid(id: u128) -> bool {
    &&& (id >> 76u128) & 0xfu128 == 4
    &&& (id >> 62u128) & 0x3u128 == 2
}

/// Relies on rand's `thread_rng().gen_range(lo..=hi)`: a value of the closed
/// interval, drawn uniformly; it panics only on an empty interval.
#[verifier::external_body]
pub(crate) fn draw_between(lo: i64, hi: i64) -> (r: i64)
    requires
        lo <= hi,
    ensures
        lo <= r <= hi,
{
    rand::thread_rng().gen_range(lo..=hi)
}

/// Relies on `uuid::Uuid::new_v4` and `Uuid::as_u128`: random bits, with the
/// version nibble set to 4 and the variant bits set to `0b10`.
#[verifier::external_body]
pub(crate) fn new_random_uuid() -> (r: u128)
    ensures
        is_random_uuid(r),
{
    uuid::Uuid::new_v4().as_u128()
}

} // verus!
