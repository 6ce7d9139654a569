//! Correlation and framing core of a bridge between a front end and a
//! long-lived worker process that speaks line-delimited JSON over its
//! standard streams.

pub mod codec;
pub mod connection;
pub mod dispatch;
pub mod error;
pub mod json;
pub mod laws;
pub mod registry;
pub mod text;
pub mod waiter;
