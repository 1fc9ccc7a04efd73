//! Core coordination layer for a catalog-search-and-download tool.
//!
//! A single-threaded presentation loop drives searches against a video
//! catalog and dispatches external download jobs.  Concurrent producer
//! tasks report their outcomes through one bounded mailbox; the loop
//! drains at most one message per tick and reflects it into per-item
//! state.  This crate holds that coordination logic — the mailbox, the
//! item-state machine, and the pure request/response computations —
//! while all I/O stays with the caller.

pub mod consumer;
pub mod data;
pub mod download;
pub mod mailbox;
pub mod message;
pub mod search;
pub mod store;
