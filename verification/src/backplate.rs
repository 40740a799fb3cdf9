//! Backplate (HVAC wiring and sensor board) configuration.

mod backplate_options;

pub use backplate_options::{BackplateOptions, WireConfig, WireId, is_default_backplate};
