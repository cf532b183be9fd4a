//! The read side: what a request asks for, and the shapes of what it gets.

pub mod models;
pub mod query;
