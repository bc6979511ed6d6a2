//! Core of a network-traffic observability pipeline.
//!
//! Agents capture packet headers from a local interface, keep only packets
//! with at least one local endpoint, accumulate them into time- and
//! size-bounded batches, and compact each batch to one record per flow-key
//! before shipping it to a server. The server republishes every ingested
//! record on a lossy broadcast bus that any number of viewers may subscribe
//! to without ever back-pressuring the producers.
//!
//! This crate holds the verified logic of both halves: decoding and
//! classifying captured frames, batching, compaction, and the bus
//! semantics. Device access, RPC transport and the HTTP side-car live
//! outside the library and drive it with plain values.

pub mod record;
pub mod compact;
pub mod batch;
pub mod locality;
pub mod bus;
pub mod decode;
pub mod mock;
pub mod ports;
pub mod config;
