use vstd::prelude::*;
use crate::state::{HvacMode, PresetName};

verus! {

/// Presets
///
/// ```toml
/// [[presets]]
/// name = "Away"
/// temp = { heat = 15.0, cool = 25.0 }
///
/// [[presets]]
/// name = "Home"
/// temp = { heat = 20.0, cool = 22.0 }
/// ```
#[derive(Debug, Clone, Copy, PartialEq, Eq, Structural)]
pub struct Preset {
    /// Name of preset; must be one of "Away", "Home", "Sleep"
    pub name: PresetName,
    /// Preset temperature.
    pub temp: PresetTemp,
}

/// Preset temperatures, in tenths of a degree Celsius.
#[derive(Debug, Clone, Copy, PartialEq, Eq, Structural)]
pub enum PresetTemp {
    Heat { heat: i32 },
    Cool { cool: i32 },
    Both { heat: i32, cool: i32 },
}

/// The temperature a preset asks for in a mode: its heat temperature when
/// heating, its cool temperature when cooling, none otherwise.
pub open spec fn temp_for_mode(temp: PresetTemp, mode: HvacMode) -> Option<i32> {
    match mode {
        HvacMode::Cool => match temp {
            PresetTemp::Cool { cool } => Some(cool),
            PresetTemp::Both { cool, .. } => Some(cool),
            _ => None,
        },
        HvacMode::Heat => match temp {
            PresetTemp::Heat { heat } => Some(heat),
            PresetTemp::Both { heat, .. } => Some(heat),
            _ => None,
        },
        _ => None,
    }
}

impl Preset {
    pub fn get_temp(&self, mode: &HvacMode) -> (t: Option<i32>)
        ensures
            t == temp_for_mode(self.temp, *mode),
    {
        match mode {
            HvacMode::Cool => match self.temp {
                PresetTemp::Cool { cool } => Some(cool),
                PresetTemp::Both { cool, .. } => Some(cool),
                _ => None,
            },
            HvacMode::Heat => match self.temp {
                PresetTemp::Heat { heat } => Some(heat),
                PresetTemp::Both { heat, .. } => Some(heat),
                _ => None,
            },
            _ => None,
        }
    }
}

/// Away Mode
///
/// ```toml
/// [away_mode]
/// preset = "Away"
/// timeout = "30m"
/// ```
#[derive(Debug, Clone, Copy, PartialEq, Eq, Structural)]
pub struct AwayMode {
    /// Named preset to activate for away mode, default "Away"
    pub preset: PresetName,
    /// Duration of no proximity movement before going into away mode, in
    /// milliseconds, or zero to disable away mode. Default 30 minutes.
    pub timeout: u64,
}

impl Default for AwayMode {
    fn default() -> (a: Self)
        ensures
            a == (AwayMode { preset: PresetName::Away, timeout: 1_800_000 }),
    {
        AwayMode { preset: PresetName::Away, timeout: 1_800_000 }
    }
}

} // verus!
