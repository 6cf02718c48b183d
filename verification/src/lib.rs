//! Verified core of a tool that imports saved social-media posts, screens
//! them, has them analysed by a language model in batches, and exports the
//! results.

pub mod cli;
pub mod clock;
pub mod config;
pub mod exporter;
pub mod importer;
pub mod models;
pub mod processor;
pub mod storage;
pub mod text;
