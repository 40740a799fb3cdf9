//! Application configuration and climate settings.

mod app_config;
mod config_de;
mod climate_settings;
mod preset;

pub use app_config::Config;
pub use config_de::{
    all_digits, duration_millis, is_digit, number_value, parse_duration, parse_time_of_day,
    time_of_day_secs, unit_millis,
};
pub use climate_settings::{
    ClimateSettings, find_preset_temp, first_named, lemma_first_named, preset_temp,
};
pub use preset::{AwayMode, Preset, PresetTemp, temp_for_mode};

use vstd::prelude::*;

verus! {

/// Away Mode
///
/// ```toml
/// [away_mode]
/// temp_heat = 16.0
/// temp_cool = 20.0
/// timeout = "0s"
/// ```
#[derive(Debug, Clone, Copy, PartialEq, Eq, Structural)]
pub struct AwayConfig {
    /// Away temp for heating mode, in tenths of a degree; default 16.0
    pub temp_heat: i32,
    /// Away temp for cooling mode, in tenths of a degree; default 22.0
    pub temp_cool: i32,
    /// Duration of no proximity movement before going into away mode, in
    /// milliseconds, or zero to disable away mode. Default 30 minutes.
    pub timeout: u64,
}

impl Default for AwayConfig {
    fn default() -> (a: Self)
        ensures
            a == (AwayConfig { temp_heat: 160, temp_cool: 220, timeout: 1_800_000 }),
    {
        AwayConfig { temp_heat: 160, temp_cool: 220, timeout: 1_800_000 }
    }
}

} // verus!
