//! The Home Assistant (ESPHome native API) side of the thermostat.

mod home_assistant_options;

pub use home_assistant_options::{
    FAKE_MAC, HomeAssistantOptions, PKG_NAME, is_default_home_assistant, mac_address_of, node_name_of,
};

mod climate;

pub use climate::{
    ClimateAction, ClimateCommandRequest, ClimateFanMode, ClimateMode, ClimatePreset,
    ClimateStateResponse, HaReply, HaRequest, HvacRequestHandler, ListEntitiesClimateResponse,
    RequestOutcome, UnsupportedClimateValue, climate_action_of, climate_mode_of,
    climate_preset_of, command_events, ha_state_of, hvac_mode_of, preset_name_of,
    request_outcome, supported_modes, supported_presets, thermostat_entity,
};
