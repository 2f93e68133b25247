//! Swerve drive modules.
pub mod default_configs;
