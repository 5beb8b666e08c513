//! Client-side transport layer for a remote trading venue: the wire data
//! model, the correlation of responses with pending calls, and the
//! domain-separated hash-and-sign scheme for privileged requests.

pub mod account;
pub mod correlator;
pub mod envelope;
pub mod environment;
pub mod events;
pub mod liquidity_pool;
pub mod order;
pub mod pair;
pub mod requests;
pub mod signing;
pub mod text;
pub mod trade_account;
pub mod user;
pub mod values;
