//! Temporary access bought by an account.

use crate::account::AccountId;
use crate::context::{now_millis, TemporaryAccessRecord, MAX_TIMESTAMP_MILLIS};
use crate::error::Error;
use crate::firewall::Firewall;
use vstd::prelude::*;

verus! {

/// Arguments of the pay-for-access job.
#[derive(Clone, Copy, Debug)]
pub struct PayForAccessInput {
    /// The account that paid and receives access.
    pub beneficiary: AccountId,
    /// How long access lasts, in seconds.
    pub duration_secs: u64,
}

/// The grant made at `now` (milliseconds) for `duration_secs` seconds.
pub open spec fn paid_record(now: i64, duration_secs: u64) -> TemporaryAccessRecord {
    TemporaryAccessRecord {
        granted_at: now,
        expires_at: (now + duration_secs * 1000) as i64,
    }
}

/// A payment the job accepts at `now`: a positive duration whose end is a
/// representable time.
pub open spec fn payment_accepted(now: i64, duration_secs: u64) -> bool {
    &&& duration_secs > 0
    &&& now + duration_secs * 1000 <= i64::MAX
}

/// The longest duration accepted whatever the current time: its end stays
/// representable from the last time the clock can give.
pub const MAX_PAID_DURATION_SECS: u64 = 9215161769977975;

/// Grants the beneficiary access from `now` for the paid duration. A zero duration,
/// or one that runs past the last representable time, gives `InvalidJobInput` and
/// changes nothing. Payment itself is checked before the job is invoked.
pub fn grant_paid_access(firewall: &mut Firewall, input: &PayForAccessInput, now: i64) -> (r: Result<
    (),
    Error,
>)
    requires
        old(firewall).wf(),
    ensures
        final(firewall).wf(),
        r is Ok <==> payment_accepted(now, input.duration_secs),
        r is Ok ==> final(firewall)@ == old(firewall)@.after_grant(
            input.beneficiary@,
            paid_record(now, input.duration_secs),
        ),
        r matches Err(e) ==> e is InvalidJobInput && final(firewall)@ == old(firewall)@,
{
    if input.duration_secs == 0 {
        return Err(Error::InvalidJobInput(String::from_str("Duration must be positive")));
    }
    let span: i128 = input.duration_secs as i128 * 1000;
    if now as i128 + span > i64::MAX as i128 {
        return Err(Error::InvalidJobInput(String::from_str("Duration is too long")));
    }
    let record = TemporaryAccessRecord { granted_at: now, expires_at: (now as i128 + span) as i64 };
    match firewall.grant_temporary_access(input.beneficiary, record) {
        Ok(()) => Ok(()),
        Err(_) => Err(Error::InvalidJobInput(String::from_str("Duration must be positive"))),
    }
}

/// Grants paid access starting at the current time; see `grant_paid_access`.
pub fn handler(firewall: &mut Firewall, input: PayForAccessInput) -> (r: Result<(), Error>)
    requires
        old(firewall).wf(),
    ensures
        final(firewall).wf(),
        input.duration_secs == 0 ==> r matches Err(Error::InvalidJobInput(_)),
        0 < input.duration_secs <= MAX_PAID_DURATION_SECS ==> r is Ok,
        exists|now: i64|
            {
                &&& (r is Ok <==> payment_accepted(now, input.duration_secs))
                &&& r is Ok ==> final(firewall)@ == old(firewall)@.after_grant(
                    input.beneficiary@,
                    paid_record(now, input.duration_secs),
                )
                &&& r is Err ==> final(firewall)@ == old(firewall)@
            },
{
    let now = now_millis();
    assert(now + MAX_PAID_DURATION_SECS * 1000 <= i64::MAX);
    grant_paid_access(firewall, &input, now)
}

} // verus!
