use retherm::schedule::{DaysOfWeek, ScheduleEntry, SetPoint, WeekDayRange};
use retherm::backplate::{BackplateOptions, WireConfig, WireId};
use retherm::config::{
    AwayConfig, AwayMode, ClimateSettings, Config, Preset, PresetTemp, parse_duration,
    parse_time_of_day,
};
use retherm::state::{HvacMode, PresetName};
use retherm::window::BacklightOptions;

#[test]
fn config_defaults() {
    let c = Config::default();
    assert_eq!(c.temp_deadband, 6);
    assert_eq!(c.temp_overrun, 4);
    assert_eq!(c.min_off_time, 5 * 60 * 1000);
    assert_eq!(c.default_fan_timeout, 15 * 60 * 1000);
    assert_eq!(c.backlight, BacklightOptions { brightness: 108, timeout: 15_000 });
    assert_eq!(c.home_assistant.listen_addr, "0.0.0.0:6053");
}

#[test]
fn backplate_defaults() {
    let b = BackplateOptions::default();
    assert_eq!(b.near_pir_threshold, 15);
    assert_eq!(b.serial_port, "/dev/ttyO2");
    assert_eq!(
        b.wiring,
        WireConfig::HeatAndCool { heat_wire: WireId::W1, cool_wire: WireId::Y1, fan_wire: WireId::G }
    );
}

#[test]
fn away_defaults() {
    assert_eq!(AwayMode::default(), AwayMode { preset: PresetName::Away, timeout: 30 * 60 * 1000 });
    assert_eq!(
        AwayConfig::default(),
        AwayConfig { temp_heat: 160, temp_cool: 220, timeout: 30 * 60 * 1000 }
    );
    let s = ClimateSettings::default();
    assert!(s.presets.is_empty() && s.away.is_none() && s.schedule.is_empty());
}

#[test]
fn preset_temp_for_mode() {
    let both = Preset { name: PresetName::Home, temp: PresetTemp::Both { heat: 200, cool: 220 } };
    assert_eq!(both.get_temp(&HvacMode::Heat), Some(200));
    assert_eq!(both.get_temp(&HvacMode::Cool), Some(220));
    assert_eq!(both.get_temp(&HvacMode::Fan), None);
    assert_eq!(both.get_temp(&HvacMode::Off), None);
    let heat = Preset { name: PresetName::Home, temp: PresetTemp::Heat { heat: 190 } };
    assert_eq!(heat.get_temp(&HvacMode::Heat), Some(190));
    assert_eq!(heat.get_temp(&HvacMode::Cool), None);
    let cool = Preset { name: PresetName::Home, temp: PresetTemp::Cool { cool: 250 } };
    assert_eq!(cool.get_temp(&HvacMode::Cool), Some(250));
    assert_eq!(cool.get_temp(&HvacMode::Heat), None);
}

#[test]
fn climate_settings_first_preset_wins() {
    let mut s = ClimateSettings::default();
    s.presets = vec![
        Preset { name: PresetName::Sleep, temp: PresetTemp::Heat { heat: 170 } },
        Preset { name: PresetName::Home, temp: PresetTemp::Cool { cool: 230 } },
        Preset { name: PresetName::Home, temp: PresetTemp::Both { heat: 210, cool: 220 } },
    ];
    assert_eq!(s.get_preset_temp(&PresetName::Sleep, &HvacMode::Heat), Some(170));
    // the first Home preset has no heating temperature
    assert_eq!(s.get_preset_temp(&PresetName::Home, &HvacMode::Heat), None);
    assert_eq!(s.get_preset_temp(&PresetName::Home, &HvacMode::Cool), Some(230));
    assert_eq!(s.get_preset_temp(&PresetName::Away, &HvacMode::Heat), None);
    assert_eq!(
        s.preset_names(),
        vec![PresetName::Sleep, PresetName::Home, PresetName::Home]
    );
}

#[test]
fn durations() {
    assert_eq!(parse_duration("30m"), Some(30 * 60 * 1000));
    assert_eq!(parse_duration("15s"), Some(15_000));
    assert_eq!(parse_duration("0s"), Some(0));
    assert_eq!(parse_duration("2h"), Some(2 * 3600 * 1000));
    assert_eq!(parse_duration("s"), None);
    assert_eq!(parse_duration(""), None);
    assert_eq!(parse_duration("5"), None);
    assert_eq!(parse_duration("5d"), None);
    assert_eq!(parse_duration("1.5m"), None);
    assert_eq!(parse_duration("99999999999999999999s"), None);
    assert_eq!(parse_duration("18446744073709552s"), None);
    assert_eq!(parse_duration("18446744073709551s"), Some(18_446_744_073_709_551_000));
}

#[test]
fn times_of_day() {
    assert_eq!(parse_time_of_day("08:00"), Some(8 * 3600));
    assert_eq!(parse_time_of_day("22:30"), Some(22 * 3600 + 30 * 60));
    assert_eq!(parse_time_of_day("7:05"), Some(7 * 3600 + 5 * 60));
    assert_eq!(parse_time_of_day("24:00"), None);
    assert_eq!(parse_time_of_day("12:60"), None);
    assert_eq!(parse_time_of_day("12-00"), None);
    assert_eq!(parse_time_of_day("1200"), None);
    assert_eq!(parse_time_of_day("123:00"), None);
    assert_eq!(parse_time_of_day("ab:cd"), None);
}

#[test]
fn schedule_for_mode_picks_mode_schedule() {
    let mut c = Config::default();
    assert!(c.schedule_for_mode(&HvacMode::Heat).is_none());
    assert!(c.schedule_for_mode(&HvacMode::Cool).is_none());
    let entry = ScheduleEntry {
        days_of_week: DaysOfWeek::Range(WeekDayRange::WeekEnd),
        set_points: vec![SetPoint { time: 8 * 3600, preset: PresetName::Home }],
    };
    c.schedule_heat = vec![entry.clone()];
    assert_eq!(c.schedule_for_mode(&HvacMode::Heat), Some(&[entry.clone()][..]));
    assert!(c.schedule_for_mode(&HvacMode::Cool).is_none());
    assert!(c.schedule_for_mode(&HvacMode::Fan).is_none());
    assert!(c.schedule_for_mode(&HvacMode::Off).is_none());
    c.schedule_cool = vec![entry.clone(), entry.clone()];
    assert_eq!(c.schedule_for_mode(&HvacMode::Cool).map(|s| s.len()), Some(2));
}
