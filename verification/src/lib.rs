//! A supervisor for background tasks: one-shot script executions and periodic
//! health checks of processes, ports and HTTP endpoints.
//!
//! The library decides; its caller does the waiting. Every function here
//! works on plain values and returns what is to be logged, stored, published
//! or done next.

pub mod database;
pub mod executor;
pub mod monitor;
mod stamp;
pub mod text;
