//! Monitor records that are stamped with placeholder results on one timer
//! and snapshotted on another.

pub mod model;
pub mod tick;
pub mod snapshot;
pub mod schedule;
pub mod error;
