//! Core of a feed-forwarding service: each configured feed is polled on its
//! own schedule, items that are newer than the last delivered one are pushed
//! to a delivery sink, and a supervisor runs all feed watchers side by side
//! under a single shutdown switch.
//!
//! This crate holds the verified logic: the per-feed polling state machine
//! (watermark tracking, new-item detection, retry budget), the supervisor's
//! outcome aggregation, configuration resolution, and the feed-document
//! format dispatch. Network transfers, timers and the concrete sink backends
//! live outside, behind plain-value interfaces.

pub mod config;
pub mod error;
pub mod feed;
pub mod item;
pub mod laws;
pub mod supervisor;
pub mod watcher;
