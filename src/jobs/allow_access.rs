//! Permanently allowing an IP prefix or an account.

use crate::account::{parse_account, parsed_account, AccountId};
use crate::error::Error;
use crate::firewall::Firewall;
use crate::net::{parse_network, parsed_network};
use vstd::prelude::*;

verus! {

/// What to allow: an IP address or CIDR prefix, or an account, as text.
#[derive(Clone, Debug)]
pub enum AccessTarget {
    Ip(String),
    Account(String),
}

/// Arguments of the allow-access job.
#[derive(Clone, Debug)]
pub struct AllowAccessInput {
    pub target: AccessTarget,
}

/// Parses the target and adds it to the matching dynamic allow-list. A target that
/// does not parse gives `InvalidJobInput` and changes nothing. Which SS58 formats an
/// account may use depends on the process-wide default format at the time of the call.
pub fn handler(firewall: &mut Firewall, input: AllowAccessInput) -> (r: Result<(), Error>)
    requires
        old(firewall).wf(),
    ensures
        final(firewall).wf(),
        match input.target {
            AccessTarget::Ip(s) => match parsed_network(s@) {
                Some(n) => r is Ok && final(firewall)@ == old(firewall)@.after_ip_rule(n),
                None => r matches Err(Error::InvalidJobInput(_)) && final(firewall)@ == old(
                    firewall,
                )@,
            },
            AccessTarget::Account(s) => exists|format: u16|
                match #[trigger] parsed_account(s@, format) {
                    Some(bytes) => r is Ok && exists|a: AccountId|
                        a@ == bytes && final(firewall)@ == old(firewall)@.after_account_rule(a),
                    None => r matches Err(Error::InvalidJobInput(_)) && final(firewall)@ == old(
                        firewall,
                    )@,
                },
        },
{
    match input.target {
        AccessTarget::Ip(text) => match parse_network(text.as_str()) {
            Some(n) => firewall.add_ip_rule(n),
            None => Err(Error::InvalidJobInput(String::from_str("Invalid IP/CIDR"))),
        },
        AccessTarget::Account(text) => {
            let (parsed, format) = parse_account(text.as_str());
            let r = match parsed {
                Some(a) => firewall.add_account_rule(a),
                None => Err(Error::InvalidJobInput(String::from_str("Invalid AccountId32 format"))),
            };
            r
        },
    }
}

} // verus!
