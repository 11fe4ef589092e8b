//! Verified analytics over a personal listening history: an embedded
//! relational store of playback events, a load/merge/persist lifecycle,
//! and per-artist listening-time aggregation.

pub mod analytics;
pub mod event;
pub mod import;
pub mod ranking;
pub mod store;
