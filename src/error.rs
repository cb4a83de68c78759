//! Errors of the gateway library.

use crate::account::AccountId;
use crate::net::IpAddress;
use vstd::prelude::*;

verus! {

/// Every error the library reports; each carries a short message or the identity concerned.
#[derive(Clone, Debug, PartialEq, Eq)]
pub enum Error {
    /// The static configuration could not be read or validated.
    ConfigError(String),
    /// A text was not an IP address or CIDR prefix.
    InvalidIpNetwork(String),
    /// A text was not a valid address.
    AddressParseError(String),
    /// A request from this address was refused.
    AccessDeniedIp(IpAddress),
    /// A request on behalf of this account was refused.
    AccessDeniedAccount(AccountId),
    /// A webhook could not be delivered.
    WebhookFailed(String),
    /// A job was invoked with arguments it cannot accept.
    InvalidJobInput(String),
    /// A firewall operation was given an argument it cannot accept.
    InvalidInput(String),
}

} // verus!
