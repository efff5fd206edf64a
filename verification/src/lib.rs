//! A market-data subscription engine for the BtcTurk push feed.
//!
//! The crate holds the protocol logic of a feed client: signing the
//! authentication token, encoding join requests, classifying inbound frames
//! into typed events, and deciding when an order-book consumer has gone stale
//! and needs a fresh snapshot. Sockets, HTTP requests and timers are left to
//! the caller, who hands this crate plain text and clock readings.

pub mod api_keys;
pub mod balance;
pub mod channel;
pub mod client;
pub mod decimal;
pub mod dispatch;
pub mod error;
pub mod json;
pub mod reconciler;
pub mod signing;
pub mod snapshot;
pub mod subscription;
pub mod text;
pub mod types;

pub use api_keys::ApiKeys;
pub use balance::Balance;
pub use balance::BalanceResponse;
pub use channel::Channel;
pub use client::Client;
pub use types::Event;
pub use types::OrderBookEvent;
pub use types::OrderBookOrder;
pub use types::TickerEvent;
