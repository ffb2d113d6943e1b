//! Utilities around the engine.

pub mod output;

pub use output::{OutputFormat, ProductField};
