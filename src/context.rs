//! Time-bounded access records and the clock they are measured against.

use vstd::prelude::*;

verus! {

/// A temporary grant: when it was made and when it lapses, in milliseconds since
/// the Unix epoch (UTC).
#[derive(Clone, Copy, Debug, PartialEq, Eq, Structural)]
pub struct TemporaryAccessRecord {
    pub granted_at: i64,
    pub expires_at: i64,
}

impl TemporaryAccessRecord {
    /// Still valid at time `now`.
    pub open spec fn valid_at(self, now: i64) -> bool {
        self.expires_at > now
    }
}

/// The last millisecond a `chrono::DateTime<Utc>` can hold (the end of year 262142).
pub const MAX_TIMESTAMP_MILLIS: i64 = 8210266876799999;

/// Relies on `chrono::Utc::now` and `DateTime::timestamp_millis`: the current time in
/// milliseconds since the epoch. `Utc::now` refuses a clock before the epoch, and a
/// `DateTime<Utc>` lies within `DateTime::MAX_UTC`; nothing more is known of the value.
#[verifier::external_body]
pub(crate) fn now_millis() -> (r: i64)
    ensures
        0 <= r <= MAX_TIMESTAMP_MILLIS,
{
    chrono::Utc::now().timestamp_millis()
}

} // verus!
