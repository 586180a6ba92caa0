//! Verified core of a two-chain bridge relay.
//!
//! The library models the event-watch-and-relay engine of a token bridge:
//! a bounded watch session polls one chain's transfer logs, matches deposits
//! into a vault address, records them in a history log, and plans an
//! equivalent transfer on the paired chain with sequential nonce tracking.
//! All networking, timers and signing live outside the library; the
//! functions here take and return plain values and carry full contracts.

pub mod chain;
pub mod numfmt;
pub mod event;
pub mod session;
pub mod relay;
pub mod laws;
