//! Execution core of an event-driven trading engine: position and equity
//! accounting, and the lifecycle of a trader that feeds it.

pub mod fixed;
pub mod foreign;
pub mod error;
pub mod event;
pub mod position;
pub mod engine;
