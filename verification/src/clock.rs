//! Wall-clock access for datum timestamps.

use vstd::prelude::*;

verus! {

/// Relies on chrono::Utc::now and DateTime::timestamp_millis: the current
/// UTC time as milliseconds since the Unix epoch. The value depends on
/// the wall clock, so only its sign is promised: `Utc::now` takes the
/// duration since the epoch and aborts when the system clock reads
/// earlier, so a successful return is never negative. That abort lies
/// outside what the verifier is asked of an outside call.
#[verifier::external_body]
pub(crate) fn now_millis() -> (r: i64)
    ensures
        r >= 0,
{
    chrono::Utc::now().timestamp_millis()
}

/// The current UTC time in milliseconds, as the unsigned wire field
/// carries it.
pub fn now_millis_unsigned() -> u64 {
    now_millis() as u64
}

} // verus!
