//! Decision logic of an automatic-sharpness image downscaler.
pub mod base_key;
pub mod classifier;
pub mod cli;
pub mod color_space;
pub mod corpus;
pub mod error;
pub mod fit;
pub mod float_bits;
pub mod ingest;
pub mod io;
pub mod metrics;
pub mod output;
pub mod params;
pub mod recommendations;
pub mod pipeline;
pub mod resize;
pub mod resize_strategy;
pub mod solve;
pub mod sweep;
pub mod types;
