//! Network state aggregation for a status-bar block.
//!
//! The library turns raw property values read from a network-management
//! service (small integer codes, object paths, byte-encoded SSIDs and
//! byte-order-swapped address words) into an ordered list of renderable
//! status entries.  All decoding, merging and text assembly is verified;
//! the bus round trips themselves live outside the library.

pub mod aggregator;
pub mod codes;
pub mod command;
pub mod config;
pub mod error;
pub mod facade;
pub mod handles;
pub mod ipv4;
pub mod text;
