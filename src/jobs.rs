//! The administrative jobs that change the firewall, and their identifiers.

pub mod allow_access;
pub mod pay_for_access;
pub mod register_webhook;

use vstd::prelude::*;

verus! {

/// Job that permanently allows an IP prefix or an account.
pub const ALLOW_ACCESS_JOB_ID: u64 = 0;

/// Job that grants an account temporary access after payment.
pub const PAY_FOR_ACCESS_JOB_ID: u64 = 1;

/// Job that registers a webhook for firewall events.
pub const REGISTER_WEBHOOK_JOB_ID: u64 = 2;

} // verus!
