//! Keeps a helper process running only during configured daily time windows.
pub mod clock;
pub mod schedule;
pub mod config;
pub mod reconcile;
pub mod supervisor;
pub mod shared;
pub mod shutdown;
pub mod scheduler;
pub mod control;
