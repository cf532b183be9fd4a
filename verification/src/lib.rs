//! Verified core of a market-data ingestion pipeline.
//!
//! Messages arrive on a bus, wait in an intake buffer, are normalised and
//! deduplicated in batches, and are written to a relational store in one bulk
//! upsert per batch. This crate holds the decisions and data transformations of
//! that pipeline together with their proofs; connections, locks and timers live
//! with the caller.

pub mod api;
pub mod batch;
pub mod bootstrap;
pub mod buffer;
pub mod maintenance;
pub mod models;
pub mod pipeline;
pub mod processor;
pub mod record;
pub mod store;
pub mod text;
pub mod time;
