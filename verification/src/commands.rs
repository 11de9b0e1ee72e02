//! Result types of the command surface, and the export-side data shaping.

pub mod connection;
pub mod export;
