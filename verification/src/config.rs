//! Profiles and application settings.

pub mod settings;
