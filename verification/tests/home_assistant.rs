use retherm::home_assistant::{
    ClimateAction, ClimateCommandRequest, ClimateFanMode, ClimateMode, ClimatePreset,
    ClimateStateResponse, HaReply, HaRequest, HomeAssistantOptions, HvacRequestHandler,
    UnsupportedClimateValue, thermostat_entity,
};
use retherm::state::{Event, HvacAction, HvacMode, PresetName, ThermostatState};

#[test]
fn node_name_fallbacks() {
    let mut o = HomeAssistantOptions::default();
    assert_eq!(o.get_node_name(Some("hallway".to_string())), "hallway");
    assert_eq!(o.get_node_name(None), "retherm");
    assert_eq!(o.get_object_id(Some("hallway".to_string())), "climage.hallway");
    assert_eq!(o.get_object_id(None), "climage.retherm");
    o.node_name = Some("nest".to_string());
    assert_eq!(o.get_node_name(Some("hallway".to_string())), "nest");
    assert_eq!(o.get_object_id(None), "climage.nest");
    o.object_id = Some("climate.custom".to_string());
    assert_eq!(o.get_object_id(None), "climate.custom");
}

#[test]
fn mac_address_fallbacks() {
    let mut o = HomeAssistantOptions::default();
    assert_eq!(o.get_mac_address(Some("aa:bb:cc:dd:ee:ff".to_string())), "aa:bb:cc:dd:ee:ff");
    assert_eq!(o.get_mac_address(None), "01:02:03:04:05:06");
    o.mac_address = Some("11:22:33:44:55:66".to_string());
    assert_eq!(o.get_mac_address(Some("aa:bb:cc:dd:ee:ff".to_string())), "11:22:33:44:55:66");
}

#[test]
fn options_defaults() {
    let o = HomeAssistantOptions::default();
    assert_eq!(o.listen_addr, "0.0.0.0:6053");
    assert_eq!(o.server_info, "ReTherm 0.1.0");
    assert_eq!(o.friendly_name, "ReTherm Thermostat");
    assert_eq!(o.manufacturer, "Nest");
    assert_eq!(o.model, "Gen2 Thermostat");
    assert!(o.object_id.is_none() && o.encryption_key.is_none());
    assert!(o.node_name.is_none() && o.mac_address.is_none());
}

#[test]
fn entity_lists_modes_and_presets() {
    let e = thermostat_entity("climate.x".to_string(), &[PresetName::Away, PresetName::Home]);
    assert_eq!(e.object_id, "climate.x");
    assert_eq!(
        e.supported_modes,
        vec![ClimateMode::Off, ClimateMode::Heat, ClimateMode::Cool, ClimateMode::FanOnly]
    );
    assert_eq!(e.visual_min_temperature, 90);
    assert_eq!(e.visual_max_temperature, 320);
    assert_eq!(e.visual_target_temperature_step, 5);
    assert_eq!(e.visual_current_temperature_step, 5);
    assert!(e.supports_current_temperature && e.supports_action);
    assert_eq!(
        e.supported_presets,
        vec![ClimatePreset::NoPreset, ClimatePreset::Away, ClimatePreset::Home]
    );
}

fn command() -> ClimateCommandRequest {
    ClimateCommandRequest {
        has_mode: false,
        mode: ClimateMode::Off,
        has_target_temperature: false,
        target_temperature: 0,
        has_preset: false,
        preset: ClimatePreset::NoPreset,
    }
}

#[test]
fn requests_are_answered() {
    let h = HvacRequestHandler::new(thermostat_entity("climate.x".to_string(), &[]));
    assert_eq!(h.thermostat_entity().object_id, "climate.x");

    let o = h.handle_request(&HaRequest::ListEntitiesRequest).unwrap();
    assert_eq!(
        o.replies,
        vec![HaReply::ListEntitiesClimateResponse, HaReply::ListEntitiesDoneResponse]
    );
    assert!(o.events.is_empty());

    let o = h.handle_request(&HaRequest::SubscribeStatesRequest).unwrap();
    assert!(o.replies.is_empty());
    assert_eq!(o.events, vec![Event::GetState]);

    let o = h.handle_request(&HaRequest::Other).unwrap();
    assert!(o.replies.is_empty() && o.events.is_empty());

    let cmd = ClimateCommandRequest {
        has_mode: true,
        mode: ClimateMode::FanOnly,
        has_target_temperature: true,
        target_temperature: 215,
        has_preset: true,
        preset: ClimatePreset::Sleep,
        ..command()
    };
    let o = h.handle_request(&HaRequest::ClimateCommandRequest(cmd)).unwrap();
    assert_eq!(
        o.events,
        vec![
            Event::SetMode(HvacMode::Fan),
            Event::SetTargetTemp(215),
            Event::SetPreset(Some(PresetName::Sleep)),
        ]
    );

    let cmd = ClimateCommandRequest { has_preset: true, preset: ClimatePreset::Eco, ..command() };
    let o = h.handle_request(&HaRequest::ClimateCommandRequest(cmd)).unwrap();
    assert_eq!(o.events, vec![Event::SetPreset(None)]);
}

#[test]
fn unsupported_mode_is_refused() {
    let h = HvacRequestHandler::new(thermostat_entity("climate.x".to_string(), &[]));
    let cmd = ClimateCommandRequest {
        has_mode: true,
        mode: ClimateMode::Auto,
        has_target_temperature: true,
        target_temperature: 215,
        ..command()
    };
    let r = h.handle_request(&HaRequest::ClimateCommandRequest(cmd));
    assert_eq!(r.err(), Some(UnsupportedClimateValue::Mode(ClimateMode::Auto)));
}

#[test]
fn conversions() {
    assert_eq!(HvacMode::try_from(ClimateMode::FanOnly), Ok(HvacMode::Fan));
    assert_eq!(
        HvacMode::try_from(ClimateMode::Dry),
        Err(UnsupportedClimateValue::Mode(ClimateMode::Dry))
    );
    assert_eq!(ClimateMode::from(HvacMode::Fan), ClimateMode::FanOnly);
    assert_eq!(ClimateAction::from(HvacAction::Cooling), ClimateAction::Cooling);
    assert_eq!(PresetName::try_from(ClimatePreset::Sleep), Ok(PresetName::Sleep));
    assert_eq!(
        PresetName::try_from(ClimatePreset::Boost),
        Err(UnsupportedClimateValue::Preset(ClimatePreset::Boost))
    );
    assert_eq!(ClimatePreset::from(PresetName::Away), ClimatePreset::Away);
    for m in [HvacMode::Off, HvacMode::Heat, HvacMode::Cool, HvacMode::Fan] {
        assert_eq!(HvacMode::try_from(ClimateMode::from(m)), Ok(m));
    }
}

#[test]
fn state_report() {
    let s = ThermostatState {
        target_temp: 210,
        current_temp: 198,
        mode: HvacMode::Heat,
        action: HvacAction::Heating,
        preset: Some(PresetName::Home),
        lockout: false,
        backplate: true,
    };
    let r = s.to_ha_state();
    assert_eq!(
        r,
        ClimateStateResponse {
            current_temperature: 198,
            target_temperature: 210,
            mode: ClimateMode::Heat,
            action: ClimateAction::Heating,
            fan_mode: ClimateFanMode::Auto,
            preset: ClimatePreset::Home,
        }
    );
    let r2: ClimateStateResponse = ThermostatState { preset: None, ..s }.into();
    assert_eq!(r2.preset, ClimatePreset::NoPreset);
}
