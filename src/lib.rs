//! Access-control core of a secure JSON-RPC gateway: a multi-tier allow-list
//! with time-bounded grants, the administrative jobs that mutate it, and the
//! request and WebSocket forwarding decisions of the proxy.

pub mod account;
pub mod config;
pub mod context;
pub mod error;
pub mod firewall;
pub mod jobs;
pub mod net;
pub mod rpc;
pub mod urls;

pub use account::AccountId;
pub use context::TemporaryAccessRecord;
pub use error::Error;
pub use net::{IpAddress, IpNet};
