//! Client library for a cryptocurrency exchange's REST trading API.
//!
//! The heart of the crate is the request-signing and transport layer in
//! [`utils`]: it computes HMAC-SHA256 authentication headers, normalizes
//! HTTP failures into a closed error taxonomy, and drives a cursor-based
//! pagination protocol for account lookup ([`account`]). The network calls
//! themselves happen outside this crate; everything here is the logic that
//! decides what is sent and how each response is interpreted.

pub mod account;
pub mod decimal;
pub mod utils;
