//! The naming engine: classification, templates, transforms and assembly.

pub mod abbreviations;
pub mod analyzer;
pub mod converters;
pub mod detectors;
pub mod generator;
pub mod table;
pub mod templates;

pub use analyzer::{PartAnalysis, PartAnalyzer};
pub use generator::{NameGenerator, NamingTemplate};
