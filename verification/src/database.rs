//! The records that the supervisor reads and writes.

pub mod migration;
pub mod models;
pub mod positions;
