//! The current time and fresh identifiers: values that depend on the moment or on
//! chance, of which only their ranges and fixed bits are stated.
use vstd::prelude::*;

verus! {

/// Nanoseconds in one second.
pub const NANOS_PER_SECOND: i128 = 1_000_000_000;

/// `time::OffsetDateTime::now_utc()`, as its Unix timestamp in whole seconds and the
/// nanoseconds past that second. The seconds lie within the dates that `time` can
/// represent; the nanoseconds are below one second.
#[verifier::external_body]
pub(crate) fn now_utc() -> (t: (i64, u32))
    ensures
        -100_000_000_000_000 <= t.0 <= 99_999_999_999_999,
        t.1 < 1_000_000_000,
{
    let now = time::OffsetDateTime::now_utc();
    (now.unix_timestamp(), now.nanosecond())
}

/// A point in time given as whole Unix seconds and the nanoseconds past them, as
/// nanoseconds since the Unix epoch.
pub fn unix_nanos(seconds: i64, nanos: u32) -> (n: i128)
    ensures
        n == seconds * 1_000_000_000 + nanos,
{
    assert(-9_223_372_036_854_775_808 * 1_000_000_000 <= seconds * 1_000_000_000
        <= 9_223_372_036_854_775_807 * 1_000_000_000) by (nonlinear_arith)
        requires
            i64::MIN <= seconds <= i64::MAX,
    {
    }
    seconds as i128 * NANOS_PER_SECOND + nanos as i128
}

/// The current time in nanoseconds since the Unix epoch.
pub fn now_unix_nanos() -> (n: i128)
    ensures
        -100_000_000_000_000_000_000_000 <= n <= 100_000_000_000_000_000_000_000,
{
    let t = now_utc();
    unix_nanos(t.0, t.1)
}

/// `uuid::Uuid::new_v4()`, as its 128-bit value: random bits, but for the version
/// nibble (4) and the RFC 4122 variant bits (`10`), which it sets.
#[verifier::external_body]
pub(crate) fn new_uuid_v4() -> (u: u128)
    ensures
        (u >> 76u128) & 0xfu128 == 4,
        (u >> 62u128) & 0x3u128 == 2,
{
    uuid::Uuid::new_v4().as_u128()
}

} // verus!
