//! Thermostat control logic for a rooted second-generation Nest: the HVAC
//! state machine, climate presets and weekly schedule, the configuration
//! model, and the Home Assistant climate entity it exposes.

pub mod state;
pub mod backplate;
pub mod window;
pub mod home_assistant;
pub mod config;
pub mod schedule;
pub mod laws;
