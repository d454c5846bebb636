//! The core of a concurrent web crawler: the visited-link store, the crawl
//! frontier, the result fan-out and the decisions of the browser backend.
//!
//! The functions here are verified against their contracts. The calls into
//! outside crates are the exception: each stands in a small function whose
//! contract says what the call does and is believed, not proved. Whatever
//! needs a live browser, the clock or the network is driven from outside
//! through plain values.

pub mod broadcast;
pub mod configuration;
pub mod features;
pub mod frontier;
pub mod page;
pub mod text;
pub mod utils;
