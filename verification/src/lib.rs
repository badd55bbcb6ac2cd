//! A feed-polling and notification fan-out service core.
//!
//! The library owns the supervisor state machine (collections of targets and
//! subscriptions plus the worker registry), the per-subscription fetch-cycle
//! logic (watermark filtering of feed items), and message routing for target
//! workers. Network and timer plumbing live outside the library.

pub mod config;
pub mod message;
pub mod server;
pub mod subscription;
pub mod target;
pub mod template;
