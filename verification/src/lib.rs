//! Concurrent bandwidth probing: sample collection, windowed throughput
//! aggregation, probe-cycle scheduling and bar rendering for a terminal grid.

pub mod aggregator;
pub mod clock;
pub mod controller;
pub mod downloader;
pub mod grid;
pub mod renderer;
pub mod sample;
