//! An in-memory aggregation pipeline between a high-frequency event source
//! and a store whose efficient write path is bulk, not per-record.
//!
//! Incoming transactions are buffered per category in an [`state::Aggregator`];
//! when a category's pending count reaches the configured threshold, or a
//! periodic timer fires, the pending events are taken as an immutable batch
//! and handed to the write stage, which issues one bulk upsert per batch.

pub mod batch;
pub mod config;
pub mod connection;
pub mod laws;
pub mod messages;
pub mod model;
pub mod producer;
pub mod queries;
pub mod state;
pub mod textfmt;
