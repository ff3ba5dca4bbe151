//! Core of a beatmap downloader: scanning the local catalog, paging through
//! remote search results, diffing the two, and tracking a bounded pool of
//! download workers with per-item progress.

pub mod batch;
pub mod catalog;
pub mod client;
pub mod downloader;
pub mod error;
pub mod fetch;
pub mod filename;
pub mod progress;
pub mod queue;
pub mod settings;
pub mod template;
pub mod text;
