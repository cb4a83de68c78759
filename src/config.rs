//! Static policy and endpoint settings.

use crate::account::{parse_account, parsed_account, AccountId};
use crate::error::Error;
use crate::net::{parse_network, parsed_network, IpNet};
use vstd::prelude::*;

verus! {

/// The whole static configuration of a gateway.
#[derive(Debug)]
pub struct ServiceConfig {
    pub rpc: RpcConfig,
    pub firewall: FirewallConfig,
    pub webhooks: WebhookConfig,
}

/// Where the gateway listens, where it forwards, and its per-request limits.
#[derive(Debug)]
pub struct RpcConfig {
    /// Socket address to bind, as `host:port`.
    pub listen_addr: String,
    /// Absolute URL of the backend node.
    pub proxy_to_url: String,
    pub max_body_size_bytes: usize,
    pub request_timeout_secs: u64,
}

/// The static allow-lists.
#[derive(Debug)]
pub struct FirewallConfig {
    pub allow_ips: Vec<IpNet>,
    pub allow_accounts: Vec<AccountId>,
    pub allow_unrestricted_access: bool,
}

/// Webhook destinations known at startup.
#[derive(Debug, Default)]
pub struct WebhookConfig {
    pub event_urls: Vec<String>,
}

impl FirewallConfig {
    /// Every prefix fits its address family.
    pub open spec fn wf(&self) -> bool {
        forall|i: int| 0 <= i < self.allow_ips@.len() ==> (#[trigger] self.allow_ips@[i]).wf()
    }
}

/// Ten mebibytes.
pub const DEFAULT_MAX_BODY_SIZE_BYTES: usize = 10485760;

/// Thirty seconds.
pub const DEFAULT_REQUEST_TIMEOUT_SECS: u64 = 30;

/// Body-size limit used when the configuration names none.
pub fn default_max_body_size_bytes() -> (r: usize)
    ensures
        r == 10 * 1024 * 1024,
{
    DEFAULT_MAX_BODY_SIZE_BYTES
}

/// Request timeout used when the configuration names none.
pub fn default_request_timeout_secs() -> (r: u64)
    ensures
        r == 30,
{
    DEFAULT_REQUEST_TIMEOUT_SECS
}

/// The message that names a text that is no network prefix.
pub open spec fn network_error_text(s: Seq<char>) -> Seq<char> {
    "Invalid IP/CIDR '"@ + s + "'"@
}

/// The message that names a text that is no account.
pub open spec fn account_error_text(s: Seq<char>) -> Seq<char> {
    "Invalid AccountId32: "@ + s
}

/// `s` parsed as an account under some default format, giving `bytes`.
pub open spec fn account_read(s: Seq<char>, bytes: Seq<u8>) -> bool {
    exists|f: u16| parsed_account(s, f) == Some(bytes)
}

/// `s` parsed as an account under some default format.
pub open spec fn account_accepted(s: Seq<char>) -> bool {
    exists|f: u16| #[trigger] parsed_account(s, f) is Some
}

/// `s` failed to parse as an account under some default format.
pub open spec fn account_refused(s: Seq<char>) -> bool {
    exists|f: u16| #[trigger] parsed_account(s, f) is None
}

/// Parses each text as an IP address or CIDR prefix, in order. Fails on the first
/// text that is neither, with a `ConfigError` that names it.
pub fn parse_ip_networks(texts: &Vec<String>) -> (r: Result<Vec<IpNet>, Error>)
    ensures
        match r {
            Ok(nets) => {
                &&& nets@.len() == texts@.len()
                &&& forall|i: int|
                    0 <= i < nets@.len() ==> parsed_network(texts@[i]@) == Some(
                        #[trigger] nets@[i],
                    ) && nets@[i].wf()
            },
            Err(e) => exists|i: int|
                {
                    &&& 0 <= i < texts@.len()
                    &&& parsed_network((#[trigger] texts@[i])@) is None
                    &&& forall|k: int| 0 <= k < i ==> parsed_network((#[trigger] texts@[k])@) is Some
                    &&& e matches Error::ConfigError(m) && m@ == network_error_text(texts@[i]@)
                },
        },
{
    let mut nets: Vec<IpNet> = Vec::new();
    let mut i: usize = 0;
    while i < texts.len()
        invariant
            i <= texts@.len(),
            nets@.len() == i,
            forall|k: int|
                0 <= k < i ==> parsed_network(texts@[k]@) == Some(#[trigger] nets@[k])
                    && nets@[k].wf(),
        decreases texts@.len() - i,
    {
        match parse_network(texts[i].as_str()) {
            Some(n) => nets.push(n),
            None => {
                let m = String::from_str("Invalid IP/CIDR '").concat(texts[i].as_str()).concat("'");
                assert(forall|k: int| 0 <= k < i ==> parsed_network((#[trigger] texts@[k])@) == Some(nets@[k]));
                return Err(Error::ConfigError(m));
            },
        }
        i = i + 1;
    }
    Ok(nets)
}

/// Parses each text as an account identifier, in order. Fails on the first text that
/// is not one, with a `ConfigError` that names it. Which SS58 formats are accepted
/// depends on the process-wide default format, read at each parse.
pub fn parse_accounts(texts: &Vec<String>) -> (r: Result<Vec<AccountId>, Error>)
    ensures
        match r {
            Ok(accounts) => {
                &&& accounts@.len() == texts@.len()
                &&& forall|i: int|
                    0 <= i < accounts@.len() ==> account_read(texts@[i]@, (#[trigger] accounts@[i])@)
            },
            Err(e) => exists|i: int|
                {
                    &&& 0 <= i < texts@.len()
                    &&& account_refused((#[trigger] texts@[i])@)
                    &&& forall|k: int| 0 <= k < i ==> account_accepted((#[trigger] texts@[k])@)
                    &&& e matches Error::ConfigError(m) && m@ == account_error_text(texts@[i]@)
                },
        },
{
    let mut accounts: Vec<AccountId> = Vec::new();
    let mut i: usize = 0;
    while i < texts.len()
        invariant
            i <= texts@.len(),
            accounts@.len() == i,
            forall|k: int| 0 <= k < i ==> account_read(texts@[k]@, (#[trigger] accounts@[k])@),
        decreases texts@.len() - i,
    {
        let (parsed, format) = parse_account(texts[i].as_str());
        match parsed {
            Some(a) => {
                assert(parsed_account(texts@[i as int]@, format) == Some(a@));
                accounts.push(a);
                assert(accounts@[i as int] == a);
            },
            None => {
                assert(parsed_account(texts@[i as int]@, format) is None);
                assert forall|k: int| 0 <= k < i implies account_accepted((#[trigger] texts@[k])@) by {
                    let f = choose|f: u16| parsed_account(texts@[k]@, f) == Some(accounts@[k]@);
                    assert(parsed_account(texts@[k]@, f) is Some);
                }
                let m = String::from_str("Invalid AccountId32: ").concat(texts[i].as_str());
                return Err(Error::ConfigError(m));
            },
        }
        i = i + 1;
    }
    Ok(accounts)
}

} // verus!
