//! The shapes data takes on its way through the pipeline: messages as the bus
//! delivers them, rows as the store holds them, and reference data as the
//! bootstrap files list it.

pub mod db;
pub mod json;
pub mod nats;
