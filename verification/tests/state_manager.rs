use retherm::config::{AwayMode, ClimateSettings, Config, Preset, PresetTemp};
use retherm::state::{
    Event, HvacAction, HvacMode, PresetName, StateManager, ThermostatState, TimerId,
};

fn state_manager(state: ThermostatState) -> (Vec<Event>, StateManager) {
    let mut config = Config::default();
    let climate_settings = ClimateSettings::default();
    config.temp_deadband = 4;
    config.temp_overrun = 2;
    let (mgr, sent) = StateManager::new(&config, &climate_settings, state, 0);
    (sent, mgr)
}

fn simulate(mut state: StateManager, steps: &[(i32, HvacAction)]) {
    for (temp, action) in steps {
        state.handle_event(&Event::SetCurrentTemp(*temp), 0);
        assert_eq!(
            state.state().action,
            *action,
            "temp {} expected {:?}, found {:?}",
            temp,
            *action,
            state.state().action
        );
    }
}

fn base(mode: HvacMode, action: HvacAction) -> ThermostatState {
    ThermostatState {
        mode,
        target_temp: 200,
        current_temp: 200,
        action,
        backplate: true,
        ..ThermostatState::default()
    }
}

#[test]
fn temp_hysteresis_heat_on() {
    let (_x, mgr) = state_manager(base(HvacMode::Heat, HvacAction::Idle));
    simulate(
        mgr,
        &[
            (200, HvacAction::Idle),
            (199, HvacAction::Idle),
            (198, HvacAction::Idle),
            (197, HvacAction::Idle),
            (196, HvacAction::Heating),
        ],
    );
}

#[test]
fn temp_hysteresis_heat_off() {
    let (_x, mgr) = state_manager(base(HvacMode::Heat, HvacAction::Heating));
    simulate(
        mgr,
        &[(200, HvacAction::Heating), (201, HvacAction::Heating), (202, HvacAction::Idle)],
    );
}

#[test]
fn temp_hysteresis_cool_on() {
    let (_x, mgr) = state_manager(base(HvacMode::Cool, HvacAction::Idle));
    simulate(
        mgr,
        &[
            (200, HvacAction::Idle),
            (201, HvacAction::Idle),
            (202, HvacAction::Idle),
            (203, HvacAction::Idle),
            (204, HvacAction::Cooling),
        ],
    );
}

#[test]
fn temp_hysteresis_cool_off() {
    let (_x, mgr) = state_manager(base(HvacMode::Cool, HvacAction::Cooling));
    simulate(
        mgr,
        &[(200, HvacAction::Cooling), (199, HvacAction::Cooling), (198, HvacAction::Idle)],
    );
}

#[test]
fn min_off_time() {
    let (_x, mut mgr) = state_manager(base(HvacMode::Cool, HvacAction::Idle));

    // idle -> cooling = lockout
    mgr.handle_event(&Event::SetCurrentTemp(210), 0);
    assert!(mgr.state().action == HvacAction::Cooling);
    assert!(mgr.state().lockout);

    // lockout timer elapsed = no lockout
    mgr.handle_event(&Event::TimeoutReached(TimerId::HvacLockout), 0);
    assert!(mgr.state().action == HvacAction::Cooling);
    assert!(!mgr.state().lockout);

    // cooling -> idle = no lockout
    mgr.handle_event(&Event::SetCurrentTemp(190), 0);
    assert!(mgr.state().action == HvacAction::Idle);
    assert!(!mgr.state().lockout);

    // idle -> cooling = lockout
    mgr.handle_event(&Event::SetCurrentTemp(210), 0);
    assert!(mgr.state().action == HvacAction::Cooling);
    assert!(mgr.state().lockout);

    // cooling -> idle = no lockout
    mgr.handle_event(&Event::SetCurrentTemp(190), 0);
    assert!(mgr.state().action == HvacAction::Idle);
    assert!(!mgr.state().lockout);

    // idle -> long delay (10 minutes) -> cooling = no lockout
    mgr.handle_event(&Event::SetCurrentTemp(210), 10 * 60 * 1000);
    assert!(mgr.state().action == HvacAction::Cooling);
    assert!(!mgr.state().lockout);
}

#[test]
fn transition_idle() {
    let (_x, mut mgr) = state_manager(base(HvacMode::Cool, HvacAction::Idle));

    // Begin cooling
    mgr.handle_event(&Event::SetCurrentTemp(210), 0);
    assert!(mgr.state().action == HvacAction::Cooling);

    // Temp decreased inside hysteresis range, still cooling
    mgr.handle_event(&Event::SetCurrentTemp(200), 0);
    assert!(mgr.state().action == HvacAction::Cooling);

    // Switch mode to heat, current temp within target temp, go idle
    mgr.handle_event(&Event::SetMode(HvacMode::Heat), 0);
    assert!(mgr.state().action == HvacAction::Idle);

    // Begin heating
    mgr.handle_event(&Event::SetCurrentTemp(190), 0);
    assert!(mgr.state().action == HvacAction::Heating);

    // Temp decreased inside hysteresis range, still heating
    mgr.handle_event(&Event::SetCurrentTemp(200), 0);
    assert!(mgr.state().action == HvacAction::Heating);

    // Switch mode to cool, current temp within target temp, go idle
    mgr.handle_event(&Event::SetMode(HvacMode::Cool), 0);
    assert!(mgr.state().action == HvacAction::Idle);
}

fn presets_settings() -> ClimateSettings {
    let mut settings = ClimateSettings::default();
    settings.presets = vec![
        Preset { name: PresetName::Away, temp: PresetTemp::Both { heat: 150, cool: 250 } },
        Preset { name: PresetName::Home, temp: PresetTemp::Heat { heat: 210 } },
        Preset { name: PresetName::Sleep, temp: PresetTemp::Cool { cool: 240 } },
    ];
    settings.away = Some(AwayMode::default());
    settings
}

fn manager_with_presets(state: ThermostatState) -> (Vec<Event>, StateManager) {
    let config = Config::default();
    let (mgr, sent) = StateManager::new(&config, &presets_settings(), state, 0);
    (sent, mgr)
}

#[test]
fn startup_resets_away_and_backlight_timers() {
    let (sent, _) = manager_with_presets(ThermostatState::default());
    assert_eq!(
        sent,
        vec![
            Event::TimeoutReset(TimerId::Away, 30 * 60 * 1000),
            Event::TimeoutReset(TimerId::Backlight, 15_000),
        ]
    );
    let (sent, _) = state_manager(ThermostatState::default());
    assert_eq!(sent, vec![Event::TimeoutReset(TimerId::Backlight, 15_000)]);
}

#[test]
fn away_restores_target_temp() {
    let (_, mut mgr) = manager_with_presets(ThermostatState { target_temp: 205, ..ThermostatState::default() });
    mgr.handle_event(&Event::TimeoutReached(TimerId::Away), 0);
    assert_eq!(mgr.state().preset, Some(PresetName::Away));
    assert_eq!(mgr.state().target_temp, 150);
    assert!(mgr.state().is_away());
    let sent = mgr.handle_event(&Event::ProximityNear, 1000);
    assert_eq!(mgr.state().preset, None);
    assert_eq!(mgr.state().target_temp, 205);
    assert_eq!(sent[0], Event::TimeoutReset(TimerId::Away, 30 * 60 * 1000));
    assert_eq!(*sent.last().unwrap(), Event::TimeoutReset(TimerId::Backlight, 15_000));
    assert!(sent.contains(&Event::State(mgr.state())));
}

#[test]
fn away_restores_preset() {
    let (_, mut mgr) = manager_with_presets(ThermostatState::default());
    mgr.handle_event(&Event::SetPreset(Some(PresetName::Home)), 0);
    assert_eq!(mgr.state().target_temp, 210);
    mgr.handle_event(&Event::SetPreset(Some(PresetName::Away)), 0);
    assert_eq!(mgr.state().target_temp, 150);
    mgr.handle_event(&Event::Dial(1), 0);
    assert_eq!(mgr.state().preset, Some(PresetName::Home));
    assert_eq!(mgr.state().target_temp, 210);
}

#[test]
fn away_selects_configured_preset() {
    let mut settings = presets_settings();
    settings.away = Some(AwayMode { preset: PresetName::Sleep, timeout: 60_000 });
    let state = ThermostatState { mode: HvacMode::Cool, target_temp: 230, ..ThermostatState::default() };
    let (sent, mut mgr) = {
        let (m, sent) = StateManager::new(&Config::default(), &settings, state, 0);
        (sent, m)
    };
    assert_eq!(sent[0], Event::TimeoutReset(TimerId::Away, 60_000));
    mgr.handle_event(&Event::TimeoutReached(TimerId::Away), 0);
    assert_eq!(mgr.state().preset, Some(PresetName::Sleep));
    assert_eq!(mgr.state().target_temp, 240);
    // a scheduled preset waits until someone is present
    let before = mgr.state();
    assert!(mgr.handle_event(&Event::SchedulePreset(PresetName::Home), 0).is_empty());
    assert_eq!(mgr.state(), before);
    mgr.handle_event(&Event::ProximityNear, 0);
    assert_eq!(mgr.state().preset, Some(PresetName::Home));
    // asking for away mode selects the configured preset too
    mgr.handle_event(&Event::SetPreset(Some(PresetName::Away)), 0);
    assert_eq!(mgr.state().preset, Some(PresetName::Sleep));
    mgr.handle_event(&Event::Dial(1), 0);
    assert_eq!(mgr.state().preset, Some(PresetName::Home));
}

#[test]
fn preset_without_temp_for_mode_keeps_target() {
    let (_, mut mgr) = manager_with_presets(ThermostatState::default());
    // Sleep has only a cooling temperature; the default mode heats
    mgr.handle_event(&Event::SetPreset(Some(PresetName::Sleep)), 0);
    assert_eq!(mgr.state().preset, Some(PresetName::Sleep));
    assert_eq!(mgr.state().target_temp, 195);
}

#[test]
fn schedule_preset_deferred_while_away() {
    let (_, mut mgr) = manager_with_presets(ThermostatState::default());
    mgr.handle_event(&Event::SetPreset(Some(PresetName::Away)), 0);
    let before = mgr.state();
    let sent = mgr.handle_event(&Event::SchedulePreset(PresetName::Home), 0);
    assert!(sent.is_empty());
    assert_eq!(mgr.state(), before);
    mgr.handle_event(&Event::ProximityFar, 0);
    assert_eq!(mgr.state().preset, Some(PresetName::Home));
    assert_eq!(mgr.state().target_temp, 210);
}

#[test]
fn schedule_preset_applies_when_present() {
    let (_, mut mgr) = manager_with_presets(ThermostatState::default());
    let sent = mgr.handle_event(&Event::SchedulePreset(PresetName::Home), 0);
    assert_eq!(mgr.state().preset, Some(PresetName::Home));
    assert_eq!(sent, vec![Event::State(mgr.state())]);
}

#[test]
fn set_target_temp_clears_preset() {
    let (_, mut mgr) = manager_with_presets(ThermostatState::default());
    mgr.handle_event(&Event::SetPreset(Some(PresetName::Home)), 0);
    mgr.handle_event(&Event::SetTargetTemp(220), 0);
    assert_eq!(mgr.state().preset, None);
    assert_eq!(mgr.state().target_temp, 220);
}

#[test]
fn fan_timeout_restores_mode() {
    let (_, mut mgr) = state_manager(base(HvacMode::Cool, HvacAction::Idle));
    let sent = mgr.handle_event(&Event::SetMode(HvacMode::Fan), 0);
    assert_eq!(sent[0], Event::StartTickTimer(TimerId::Fan, 15 * 60 * 1000));
    assert_eq!(mgr.state().mode, HvacMode::Fan);
    assert_eq!(mgr.state().action, HvacAction::Fan);
    let sent = mgr.handle_event(&Event::TimeoutReached(TimerId::Fan), 0);
    assert_eq!(sent[0], Event::CancelTimer(TimerId::Fan));
    assert_eq!(mgr.state().mode, HvacMode::Cool);
    assert_eq!(mgr.state().action, HvacAction::Idle);
}

#[test]
fn fan_timeout_without_saved_mode_turns_off() {
    let (_, mut mgr) = state_manager(base(HvacMode::Fan, HvacAction::Idle));
    mgr.handle_event(&Event::TimeoutReached(TimerId::Fan), 0);
    assert_eq!(mgr.state().mode, HvacMode::Off);
}

#[test]
fn lockout_timer_runs_for_rest_of_min_off_time() {
    let (_, mut mgr) = state_manager(base(HvacMode::Cool, HvacAction::Idle));
    let sent = mgr.handle_event(&Event::SetCurrentTemp(210), 60_000);
    assert_eq!(sent[0], Event::StartTickTimer(TimerId::HvacLockout, 240_000));
    assert!(mgr.state().lockout);
}

#[test]
fn backplate_disconnect_idles() {
    let (_, mut mgr) = state_manager(base(HvacMode::Heat, HvacAction::Heating));
    mgr.handle_event(&Event::BackplateDisconnected, 0);
    assert!(!mgr.state().backplate);
    assert_eq!(mgr.state().action, HvacAction::Idle);
    mgr.handle_event(&Event::SetCurrentTemp(150), 0);
    assert_eq!(mgr.state().action, HvacAction::Idle);
    mgr.handle_event(&Event::BackplateConnected, 0);
    assert_eq!(mgr.state().action, HvacAction::Heating);
}

#[test]
fn get_state_answers_with_state() {
    let (_, mut mgr) = state_manager(base(HvacMode::Heat, HvacAction::Idle));
    let sent = mgr.handle_event(&Event::GetState, 0);
    assert_eq!(sent, vec![Event::State(mgr.state())]);
}

#[test]
fn unchanged_events_send_nothing() {
    let (_, mut mgr) = state_manager(base(HvacMode::Heat, HvacAction::Idle));
    assert!(mgr.handle_event(&Event::SetCurrentTemp(200), 0).is_empty());
    assert!(mgr.handle_event(&Event::SetMode(HvacMode::Heat), 0).is_empty());
    assert!(mgr.handle_event(&Event::TimeoutReached(TimerId::Backlight), 0).is_empty());
    assert!(mgr.handle_event(&Event::Quit, 0).is_empty());
}

#[test]
fn thermostat_state_set_target_temp_bounds() {
    let mut s = ThermostatState::default();
    assert!(!s.set_target_temp(89));
    assert!(!s.set_target_temp(321));
    assert!(!s.set_target_temp(195));
    assert_eq!(s.target_temp, 195);
    assert!(s.set_target_temp(90));
    assert_eq!(s.target_temp, 90);
    assert!(s.set_target_temp(320));
    assert_eq!(s.target_temp, 320);
    assert!(!s.set_target_temp(320));
    assert!(!s.is_away());
}

#[test]
fn thermostat_state_default() {
    let s = ThermostatState::default();
    assert_eq!(s.target_temp, 195);
    assert_eq!(s.current_temp, 200);
    assert_eq!(s.mode, HvacMode::Heat);
    assert_eq!(s.action, HvacAction::Idle);
    assert_eq!(s.preset, None);
    assert!(!s.lockout && !s.backplate);
}

#[test]
fn wakeup_events() {
    assert!(Event::ProximityNear.is_wakeup_event());
    assert!(Event::Dial(-2).is_wakeup_event());
    assert!(!Event::ProximityFar.is_wakeup_event());
    assert!(!Event::GetState.is_wakeup_event());
}

#[test]
fn same_target_temp_clears_preset_and_publishes() {
    let (_, mut mgr) = manager_with_presets(ThermostatState::default());
    mgr.handle_event(&Event::SetPreset(Some(PresetName::Home)), 0);
    let sent = mgr.handle_event(&Event::SetTargetTemp(210), 0);
    assert_eq!(mgr.state().preset, None);
    assert_eq!(mgr.state().target_temp, 210);
    assert_eq!(sent, vec![Event::State(mgr.state())]);
}

#[test]
fn leaving_away_onto_same_target_publishes() {
    let (_, mut mgr) = manager_with_presets(ThermostatState { target_temp: 150, ..ThermostatState::default() });
    mgr.handle_event(&Event::TimeoutReached(TimerId::Away), 0);
    assert_eq!(mgr.state().preset, Some(PresetName::Away));
    assert_eq!(mgr.state().target_temp, 150);
    let sent = mgr.handle_event(&Event::ProximityNear, 0);
    assert_eq!(mgr.state().preset, None);
    assert_eq!(mgr.state().target_temp, 150);
    assert!(sent.contains(&Event::State(mgr.state())));
}
