use vstd::prelude::*;
use crate::backplate::{BackplateOptions, is_default_backplate};
use crate::home_assistant::{HomeAssistantOptions, is_default_home_assistant};
use crate::schedule::ScheduleEntry;
use crate::state::HvacMode;
use crate::window::BacklightOptions;

verus! {

/// App Config file
///
/// All config options have a default; you only need to create a `config.toml`
/// file and include options you would like to override. Temperatures are in
/// tenths of a degree Celsius, durations in milliseconds.
#[derive(Debug, Clone, PartialEq, Eq)]
pub struct Config {
    /// The temperature difference from the setpoint required to trigger an action.
    ///
    /// For example, with a target heat temp of 20, and deadband set to 0.4,
    /// the hvac system will turn heat on when temp drops to 19.6.
    ///
    /// Defaults to 0.6
    pub temp_deadband: i32,
    /// The temperature difference past the setpoint required to stop an action.
    ///
    /// For example, with a target heat temp of 20, and overrun set to 0.2,
    /// the hvac system will turn heat off when temp reaches 20.2.
    ///
    /// Defaults to 0.4
    pub temp_overrun: i32,
    /// Minimum off time for cooling to allow AC refrigerant pressures to equalize.
    ///
    /// Defaults to 5 minutes
    pub min_off_time: u64,
    /// Default amount of time to run fan, when fan mode is activated.
    ///
    /// Defaults to 15 minutes
    pub default_fan_timeout: u64,
    pub backplate: BackplateOptions,
    pub home_assistant: HomeAssistantOptions,
    pub backlight: BacklightOptions,
    /// Schedule entries for heat mode; none by default.
    pub schedule_heat: Vec<ScheduleEntry>,
    /// Schedule entries for cool mode; none by default.
    pub schedule_cool: Vec<ScheduleEntry>,
}

impl Default for Config {
    fn default() -> (c: Self)
        ensures
            c.temp_deadband == 6,
            c.temp_overrun == 4,
            c.min_off_time == 300_000,
            c.default_fan_timeout == 900_000,
            c.backlight == (BacklightOptions { brightness: 108, timeout: 15_000 }),
            is_default_backplate(c.backplate),
            is_default_home_assistant(c.home_assistant),
            c.schedule_heat@.len() == 0,
            c.schedule_cool@.len() == 0,
    {
        Config {
            backplate: BackplateOptions::default(),
            home_assistant: HomeAssistantOptions::default(),
            backlight: BacklightOptions::default(),
            temp_deadband: 6,
            temp_overrun: 4,
            min_off_time: 300_000,
            default_fan_timeout: 900_000,
            schedule_heat: Vec::new(),
            schedule_cool: Vec::new(),
        }
    }
}

impl Config {
    /// The schedule of a mode: the heat schedule in heat mode and the cool
    /// schedule in cool mode, where it has entries; `None` otherwise.
    pub fn schedule_for_mode(&self, mode: &HvacMode) -> (r: Option<&[ScheduleEntry]>)
        ensures
            match r {
                Some(s) => (*mode == HvacMode::Heat && self.schedule_heat@.len() > 0 && s@
                    == self.schedule_heat@) || (*mode == HvacMode::Cool
                    && self.schedule_cool@.len() > 0 && s@ == self.schedule_cool@),
                None => !(*mode == HvacMode::Heat && self.schedule_heat@.len() > 0) && !(*mode
                    == HvacMode::Cool && self.schedule_cool@.len() > 0),
            },
    {
        match mode {
            HvacMode::Heat => {
                if self.schedule_heat.len() > 0 {
                    Some(self.schedule_heat.as_slice())
                } else {
                    None
                }
            },
            HvacMode::Cool => {
                if self.schedule_cool.len() > 0 {
                    Some(self.schedule_cool.as_slice())
                } else {
                    None
                }
            },
            _ => None,
        }
    }
}

} // verus!
