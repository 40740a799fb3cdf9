use vstd::prelude::*;
use crate::config::{AwayMode, ClimateSettings, Config, Preset, find_preset_temp, preset_temp};

verus! {

/// Operating mode selected by the user.
#[derive(Debug, Clone, Copy, PartialEq, Eq, Structural)]
pub enum HvacMode {
    Off,
    Heat,
    Cool,
    Fan,
}

/// What the HVAC equipment is currently doing.
#[derive(Debug, Clone, Copy, PartialEq, Eq, Structural)]
pub enum HvacAction {
    Idle,
    Heating,
    Cooling,
    Fan,
}

/// Named climate presets.
#[derive(Debug, Clone, Copy, PartialEq, Eq, Structural)]
pub enum PresetName {
    Home,
    Sleep,
    Away,
}

/// Observable thermostat state. Temperatures are in tenths of a degree
/// Celsius (the state manager keeps them rounded to one decimal).
#[derive(Debug, Clone, Copy, PartialEq, Eq, Structural)]
pub struct ThermostatState {
    pub target_temp: i32,
    pub current_temp: i32,
    pub mode: HvacMode,
    pub action: HvacAction,
    pub preset: Option<PresetName>,
    pub lockout: bool,
    /// Backplate connected flag
    pub backplate: bool,
}

impl ThermostatState {
    /// Lowest settable temperature (9.0 °C).
    pub const MIN_TEMP: i32 = 90;
    /// Highest settable temperature (32.0 °C).
    pub const MAX_TEMP: i32 = 320;

    /// Attempt to set target temp and return `true` if successful.
    /// Return `false` if value is outside of min/max range, or if value
    /// equals current target temp.
    pub fn set_target_temp(&mut self, val: i32) -> (changed: bool)
        ensures
            changed == (Self::MIN_TEMP <= val <= Self::MAX_TEMP && val != old(self).target_temp),
            changed ==> *final(self) == (ThermostatState { target_temp: val, ..*old(self) }),
            !changed ==> *final(self) == *old(self),
    {
        if val >= Self::MIN_TEMP && val <= Self::MAX_TEMP && val != self.target_temp {
            self.target_temp = val;
            true
        } else {
            false
        }
    }

    /// Whether the `Away` preset is selected.
    pub fn is_away(&self) -> (away: bool)
        ensures
            away == (self.preset == Some(PresetName::Away)),
    {
        matches!(self.preset, Some(PresetName::Away))
    }
}

impl Default for ThermostatState {
    fn default() -> (s: Self)
        ensures
            s == (ThermostatState {
                target_temp: 195,
                current_temp: 200,
                mode: HvacMode::Heat,
                action: HvacAction::Idle,
                preset: None,
                lockout: false,
                backplate: false,
            }),
    {
        ThermostatState {
            target_temp: 195,
            current_temp: 200,
            action: HvacAction::Idle,
            mode: HvacMode::Heat,
            preset: None,
            lockout: false,
            backplate: false,
        }
    }
}

/// Timers that the state manager starts, resets or cancels.
#[derive(Debug, Clone, Copy, PartialEq, Eq, Structural)]
pub enum TimerId {
    Away,
    Backlight,
    Fan,
    HvacLockout,
}

/// Events exchanged between the thermostat's components. Temperatures are
/// in tenths of a degree Celsius, durations in milliseconds.
#[derive(Debug, Clone, Copy, PartialEq, Eq, Structural)]
pub enum Event {
    /// Restart the timer with this timeout.
    TimeoutReset(TimerId, u64),
    /// Start a one-shot timer.
    StartTickTimer(TimerId, u64),
    CancelTimer(TimerId),
    /// The thermostat state, published after a change or on request.
    State(ThermostatState),
    SetMode(HvacMode),
    SetTargetTemp(i32),
    SetCurrentTemp(i32),
    ProximityNear,
    ProximityFar,
    /// The dial was turned by this many steps.
    Dial(i32),
    SetPreset(Option<PresetName>),
    TimeoutReached(TimerId),
    SchedulePreset(PresetName),
    BackplateConnected,
    BackplateDisconnected,
    GetState,
    Quit,
}

/// Events that wake the display: someone is near, or turned the dial.
pub open spec fn wakes_display(e: Event) -> bool {
    e is ProximityNear || e is Dial
}

/// Events that show someone is present.
pub open spec fn shows_presence(e: Event) -> bool {
    e is ProximityNear || e is ProximityFar || e is Dial
}

impl Event {
    pub fn is_wakeup_event(&self) -> (w: bool)
        ensures
            w == wakes_display(*self),
    {
        matches!(self, Event::ProximityNear | Event::Dial(_))
    }
}

/// What to return to when away mode ends: a preset, or a plain target
/// temperature.
#[derive(Debug, Clone, Copy, PartialEq, Eq, Structural)]
pub enum SavedTemp {
    TargetTemp(i32),
    Preset(PresetName),
}

/// The preset of a state if it has one, else its target temperature.
pub open spec fn saved_of(state: ThermostatState) -> SavedTemp {
    match state.preset {
        Some(p) => SavedTemp::Preset(p),
        None => SavedTemp::TargetTemp(state.target_temp),
    }
}

impl SavedTemp {
    pub fn from_state(value: &ThermostatState) -> (saved: SavedTemp)
        ensures
            saved == saved_of(*value),
    {
        match value.preset {
            Some(preset) => SavedTemp::Preset(preset),
            None => SavedTemp::TargetTemp(value.target_temp),
        }
    }
}

/// The settings that steer the state manager, read from the app config and
/// the climate settings when it is created.
#[derive(Debug, Clone, Copy, PartialEq, Eq, Structural)]
pub struct ManagerSettings {
    pub temp_deadband: i32,
    pub temp_overrun: i32,
    pub min_off_time: u64,
    pub default_fan_timeout: u64,
    pub backlight_timeout: u64,
    pub away: Option<AwayMode>,
}

/// Abstract state of a `StateManager`.
pub struct ManagerModel {
    pub state: ThermostatState,
    pub settings: ManagerSettings,
    pub presets: Seq<Preset>,
    pub restore_temp: Option<SavedTemp>,
    pub restore_mode: Option<HvacMode>,
    /// Instant (in milliseconds) since which the equipment counts as idle.
    pub last_idle_time: u64,
}

/// The action the hysteresis rules call for. Heating starts once the room
/// is `deadband` below target and stops once it is `overrun` above it;
/// cooling is the mirror image. Between the two thresholds the current
/// action is kept. Without a backplate nothing runs.
pub open spec fn next_action(state: ThermostatState, deadband: i32, overrun: i32) -> HvacAction {
    let cur = state.current_temp;
    let target = state.target_temp;
    if !state.backplate {
        HvacAction::Idle
    } else {
        match state.mode {
            HvacMode::Heat => if cur <= target - deadband {
                HvacAction::Heating
            } else if cur >= target + overrun {
                HvacAction::Idle
            } else {
                state.action
            },
            HvacMode::Cool => if cur >= target + deadband {
                HvacAction::Cooling
            } else if cur <= target - overrun {
                HvacAction::Idle
            } else {
                state.action
            },
            HvacMode::Fan => HvacAction::Fan,
            HvacMode::Off => HvacAction::Idle,
        }
    }
}

/// Time elapsed from `since` to `now`, zero if `now` is earlier.
pub open spec fn elapsed(since: u64, now: u64) -> int {
    if now >= since {
        now - since
    } else {
        0
    }
}

/// The preset that away mode selects: the one its settings name, else
/// `Away` where away mode is not configured.
pub open spec fn away_preset_of(settings: ManagerSettings) -> PresetName {
    match settings.away {
        Some(a) => a.preset,
        None => PresetName::Away,
    }
}

impl ManagerModel {
    pub open spec fn with_state(self, state: ThermostatState) -> ManagerModel {
        ManagerModel { state, ..self }
    }

    /// Select a preset; a named preset also sets its temperature for the
    /// current mode, where it has one.
    pub open spec fn set_preset(self, preset: Option<PresetName>) -> (ManagerModel, bool) {
        if preset == self.state.preset {
            (self, false)
        } else {
            let target = match preset {
                Some(p) => match preset_temp(self.presets, p, self.state.mode) {
                    Some(t) => t,
                    None => self.state.target_temp,
                },
                None => self.state.target_temp,
            };
            (self.with_state(ThermostatState { preset, target_temp: target, ..self.state }), true)
        }
    }

    pub open spec fn set_target_temp(self, temp: i32) -> (ManagerModel, bool) {
        if temp != self.state.target_temp {
            (self.with_state(ThermostatState { target_temp: temp, ..self.state }), true)
        } else {
            (self, false)
        }
    }

    pub open spec fn set_current_temp(self, temp: i32) -> (ManagerModel, bool) {
        if temp != self.state.current_temp {
            (self.with_state(ThermostatState { current_temp: temp, ..self.state }), true)
        } else {
            (self, false)
        }
    }

    /// Switch mode. Leaving fan mode cancels the fan timer; entering it
    /// starts the fan timer and remembers the mode to return to. The action
    /// is reset to idle.
    pub open spec fn set_mode(self, mode: HvacMode) -> (ManagerModel, Seq<Event>, bool) {
        if mode == self.state.mode {
            (self, seq![], false)
        } else {
            let leaving_fan = self.state.mode == HvacMode::Fan;
            let entering_fan = mode == HvacMode::Fan;
            let cancel: Seq<Event> = if leaving_fan {
                seq![Event::CancelTimer(TimerId::Fan)]
            } else {
                seq![]
            };
            let start: Seq<Event> = if entering_fan {
                seq![Event::StartTickTimer(TimerId::Fan, self.settings.default_fan_timeout)]
            } else {
                seq![]
            };
            let restore_mode = if entering_fan {
                Some(self.state.mode)
            } else if leaving_fan {
                None
            } else {
                self.restore_mode
            };
            (
                ManagerModel {
                    state: ThermostatState { action: HvacAction::Idle, mode, ..self.state },
                    restore_mode,
                    ..self
                },
                cancel + start,
                true,
            )
        }
    }

    /// The preset that away mode selects: the configured one, else `Away`.
    pub open spec fn away_preset(self) -> PresetName {
        away_preset_of(self.settings)
    }

    /// Whether the thermostat is in away mode: the away preset is selected.
    pub open spec fn is_away(self) -> bool {
        self.state.preset == Some(self.away_preset())
    }

    /// Enter away mode, remembering what to return to.
    pub open spec fn away_start(self) -> (ManagerModel, bool) {
        if !self.is_away() {
            ManagerModel { restore_temp: Some(saved_of(self.state)), ..self }.set_preset(
                Some(self.away_preset()),
            )
        } else {
            (self, false)
        }
    }

    /// Leave away mode, returning to what was saved when it began.
    pub open spec fn away_stop(self) -> (ManagerModel, bool) {
        if self.is_away() {
            match self.restore_temp {
                Some(SavedTemp::Preset(p)) => ManagerModel { restore_temp: None, ..self }.set_preset(
                    Some(p),
                ),
                Some(SavedTemp::TargetTemp(t)) => {
                    let (cleared, preset_changed) = ManagerModel {
                        restore_temp: None,
                        ..self
                    }.set_preset(None);
                    let (m, target_changed) = cleared.set_target_temp(t);
                    (m, preset_changed || target_changed)
                },
                None => (self, false),
            }
        } else {
            (self, false)
        }
    }

    /// A scheduled preset; while away it only changes what away mode
    /// returns to.
    pub open spec fn set_schedule_preset(self, preset: PresetName) -> (ManagerModel, bool) {
        if self.is_away() {
            (ManagerModel { restore_temp: Some(SavedTemp::Preset(preset)), ..self }, false)
        } else {
            self.set_preset(Some(preset))
        }
    }

    pub open spec fn apply_hvac_action(self) -> (ManagerModel, bool) {
        let action = next_action(
            self.state,
            self.settings.temp_deadband,
            self.settings.temp_overrun,
        );
        (self.with_state(ThermostatState { action, ..self.state }), action != self.state.action)
    }

    /// Minimum off time: an action that starts within `min_off_time` of the
    /// last idle instant is locked out until that time has passed.
    pub open spec fn apply_lockout(self, now: u64) -> (ManagerModel, Seq<Event>) {
        let el = elapsed(self.last_idle_time, now);
        let min_off = self.settings.min_off_time;
        if self.state.action == HvacAction::Idle {
            (
                ManagerModel {
                    state: ThermostatState { lockout: false, ..self.state },
                    last_idle_time: if el > min_off {
                        now
                    } else {
                        self.last_idle_time
                    },
                    ..self
                },
                seq![],
            )
        } else if el < min_off {
            (
                self.with_state(ThermostatState { lockout: true, ..self.state }),
                seq![Event::StartTickTimer(TimerId::HvacLockout, (min_off - el) as u64)],
            )
        } else {
            (self.with_state(ThermostatState { lockout: false, ..self.state }), seq![])
        }
    }

    /// The direct effect of an event: the new model, the events sent on the
    /// way, and whether the state changed.
    pub open spec fn react(self, event: Event) -> (ManagerModel, Seq<Event>, bool) {
        match event {
            Event::SetMode(mode) => self.set_mode(mode),
            Event::SetTargetTemp(temp) => {
                let (cleared, preset_changed) = self.set_preset(None);
                let (m, target_changed) = cleared.set_target_temp(temp);
                (m, seq![], preset_changed || target_changed)
            },
            Event::SetCurrentTemp(temp) => {
                let (m, changed) = self.set_current_temp(temp);
                (m, seq![], changed)
            },
            Event::ProximityNear | Event::ProximityFar | Event::Dial(_) => {
                let reset: Seq<Event> = match self.settings.away {
                    Some(away) => seq![Event::TimeoutReset(TimerId::Away, away.timeout)],
                    None => seq![],
                };
                let (m, changed) = self.away_stop();
                (m, reset, changed)
            },
            Event::SetPreset(Some(PresetName::Away)) | Event::TimeoutReached(TimerId::Away) => {
                let (m, changed) = self.away_start();
                (m, seq![], changed)
            },
            Event::SetPreset(preset) => {
                let (m, changed) = self.set_preset(preset);
                (m, seq![], changed)
            },
            Event::SchedulePreset(preset) => {
                let (m, changed) = self.set_schedule_preset(preset);
                (m, seq![], changed)
            },
            Event::TimeoutReached(TimerId::HvacLockout) => (
                self.with_state(ThermostatState { lockout: false, ..self.state }),
                seq![],
                true,
            ),
            Event::TimeoutReached(TimerId::Fan) => self.set_mode(
                match self.restore_mode {
                    Some(m) => m,
                    None => HvacMode::Off,
                },
            ),
            Event::BackplateConnected => (
                self.with_state(ThermostatState { backplate: true, ..self.state }),
                seq![],
                true,
            ),
            Event::BackplateDisconnected => (
                self.with_state(ThermostatState { backplate: false, ..self.state }),
                seq![],
                true,
            ),
            _ => (self, seq![], false),
        }
    }

    /// Handle one event at instant `now`: react to it; after a change,
    /// re-evaluate the action (and the lockout if the action changed) and
    /// publish the state; reset the display timer on a wake-up event; answer
    /// a state request.
    pub open spec fn step(self, event: Event, now: u64) -> (ManagerModel, Seq<Event>) {
        let (m1, sent, changed) = self.react(event);
        let (m2, published) = if changed {
            let (ma, acted) = m1.apply_hvac_action();
            let (mb, locked) = if acted {
                ma.apply_lockout(now)
            } else {
                (ma, seq![])
            };
            (mb, locked.push(Event::State(mb.state)))
        } else {
            (m1, seq![])
        };
        let wake: Seq<Event> = if wakes_display(event) {
            seq![Event::TimeoutReset(TimerId::Backlight, m2.settings.backlight_timeout)]
        } else {
            seq![]
        };
        let answer: Seq<Event> = if event is GetState {
            seq![Event::State(m2.state)]
        } else {
            seq![]
        };
        (m2, sent + published + wake + answer)
    }
}

/// The events a new state manager sends: the away timer, if away mode is
/// configured, then the display timer.
pub open spec fn startup_events(settings: ManagerSettings) -> Seq<Event> {
    let away: Seq<Event> = match settings.away {
        Some(a) => seq![Event::TimeoutReset(TimerId::Away, a.timeout)],
        None => seq![],
    };
    away.push(Event::TimeoutReset(TimerId::Backlight, settings.backlight_timeout))
}

/// The thermostat's state machine: applies user, sensor and timer events to
/// the thermostat state, and says which events to send in response.
/// Instants are milliseconds on a monotonic clock.
pub struct StateManager {
    state: ThermostatState,
    settings: ManagerSettings,
    presets: Vec<Preset>,
    restore_temp: Option<SavedTemp>,
    restore_mode: Option<HvacMode>,
    last_idle_time: u64,
}

impl View for StateManager {
    type V = ManagerModel;

    closed spec fn view(&self) -> ManagerModel {
        ManagerModel {
            state: self.state,
            settings: self.settings,
            presets: self.presets@,
            restore_temp: self.restore_temp,
            restore_mode: self.restore_mode,
            last_idle_time: self.last_idle_time,
        }
    }
}

fn same_preset(a: Option<PresetName>, b: Option<PresetName>) -> (same: bool)
    ensures
        same == (a == b),
{
    match (a, b) {
        (None, None) => true,
        (Some(x), Some(y)) => x == y,
        _ => false,
    }
}

fn copy_presets(presets: &Vec<Preset>) -> (copy: Vec<Preset>)
    ensures
        copy@ == presets@,
{
    let mut copy: Vec<Preset> = Vec::new();
    let n = presets.len();
    for i in 0..n
        invariant
            n == presets@.len(),
            copy@ == presets@.take(i as int),
    {
        copy.push(presets[i]);
        assert(copy@ =~= presets@.take(i + 1));
    }
    assert(presets@.take(n as int) =~= presets@);
    copy
}

impl StateManager {
    /// A state manager for `state`, created at instant `now`, together with
    /// the events it sends at startup.
    pub fn new(
        config: &Config,
        climate_settings: &ClimateSettings,
        state: ThermostatState,
        now: u64,
    ) -> (res: (StateManager, Vec<Event>))
        ensures
            res.0@ == (ManagerModel {
                state,
                settings: ManagerSettings {
                    temp_deadband: config.temp_deadband,
                    temp_overrun: config.temp_overrun,
                    min_off_time: config.min_off_time,
                    default_fan_timeout: config.default_fan_timeout,
                    backlight_timeout: config.backlight.timeout,
                    away: climate_settings.away,
                },
                presets: climate_settings.presets@,
                restore_temp: None,
                restore_mode: None,
                last_idle_time: now,
            }),
            res.1@ == startup_events(res.0@.settings),
    {
        let settings = ManagerSettings {
            temp_deadband: config.temp_deadband,
            temp_overrun: config.temp_overrun,
            min_off_time: config.min_off_time,
            default_fan_timeout: config.default_fan_timeout,
            backlight_timeout: config.backlight.timeout,
            away: climate_settings.away,
        };
        let mut out: Vec<Event> = Vec::new();
        if let Some(away_mode) = climate_settings.away {
            out.push(Event::TimeoutReset(TimerId::Away, away_mode.timeout));
        }
        out.push(Event::TimeoutReset(TimerId::Backlight, settings.backlight_timeout));
        let mgr = StateManager {
            state,
            settings,
            presets: copy_presets(&climate_settings.presets),
            restore_temp: None,
            restore_mode: None,
            last_idle_time: now,
        };
        proof {
            assert(out@ =~= startup_events(mgr@.settings));
        }
        (mgr, out)
    }

    /// The current thermostat state.
    pub fn state(&self) -> (s: ThermostatState)
        ensures
            s == self@.state,
    {
        self.state
    }

    fn set_target_temp(&mut self, temp: i32) -> (changed: bool)
        ensures
            (final(self)@, changed) == old(self)@.set_target_temp(temp),
    {
        if temp != self.state.target_temp {
            self.state.target_temp = temp;
            true
        } else {
            false
        }
    }

    fn set_current_temp(&mut self, temp: i32) -> (changed: bool)
        ensures
            (final(self)@, changed) == old(self)@.set_current_temp(temp),
    {
        if temp != self.state.current_temp {
            self.state.current_temp = temp;
            true
        } else {
            false
        }
    }

    fn set_mode(&mut self, mode: HvacMode, out: &mut Vec<Event>) -> (changed: bool)
        ensures
            final(self)@ == old(self)@.set_mode(mode).0,
            final(out)@ == old(out)@ + old(self)@.set_mode(mode).1,
            changed == old(self)@.set_mode(mode).2,
    {
        if mode != self.state.mode {
            if self.state.mode == HvacMode::Fan {
                out.push(Event::CancelTimer(TimerId::Fan));
                self.restore_mode = None;
            }
            if mode == HvacMode::Fan {
                out.push(Event::StartTickTimer(TimerId::Fan, self.settings.default_fan_timeout));
                self.restore_mode = Some(self.state.mode);
            }
            self.state.action = HvacAction::Idle;
            self.state.mode = mode;
            true
        } else {
            false
        }
    }

    /// Whether the away preset is selected.
    fn in_away_mode(&self) -> (away: bool)
        ensures
            away == self@.is_away(),
    {
        let away_preset = match self.settings.away {
            Some(a) => a.preset,
            None => PresetName::Away,
        };
        match self.state.preset {
            Some(p) => p == away_preset,
            None => false,
        }
    }

    fn away_start(&mut self) -> (changed: bool)
        ensures
            (final(self)@, changed) == old(self)@.away_start(),
    {
        if !self.in_away_mode() {
            let away_preset = match self.settings.away {
                Some(a) => a.preset,
                None => PresetName::Away,
            };
            self.restore_temp = Some(SavedTemp::from_state(&self.state));
            self.set_preset(Some(away_preset))
        } else {
            false
        }
    }

    fn away_stop(&mut self) -> (changed: bool)
        ensures
            (final(self)@, changed) == old(self)@.away_stop(),
    {
        if self.in_away_mode() {
            match self.restore_temp {
                Some(SavedTemp::Preset(preset)) => {
                    self.restore_temp = None;
                    self.set_preset(Some(preset))
                },
                Some(SavedTemp::TargetTemp(temp)) => {
                    self.restore_temp = None;
                    let preset_changed = self.set_preset(None);
                    let target_changed = self.set_target_temp(temp);
                    preset_changed || target_changed
                },
                None => false,
            }
        } else {
            false
        }
    }

    fn set_preset(&mut self, preset: Option<PresetName>) -> (changed: bool)
        ensures
            (final(self)@, changed) == old(self)@.set_preset(preset),
    {
        if !same_preset(preset, self.state.preset) {
            self.state.preset = preset;
            if let Some(p) = preset {
                if let Some(temp) = find_preset_temp(&self.presets, &p, &self.state.mode) {
                    self.state.target_temp = temp;
                }
            }
            true
        } else {
            false
        }
    }

    fn set_schedule_preset(&mut self, preset: PresetName) -> (changed: bool)
        ensures
            (final(self)@, changed) == old(self)@.set_schedule_preset(preset),
    {
        if self.in_away_mode() {
            self.restore_temp = Some(SavedTemp::Preset(preset));
            false
        } else {
            self.set_preset(Some(preset))
        }
    }

    fn apply_hvac_action(&mut self) -> (changed: bool)
        ensures
            (final(self)@, changed) == old(self)@.apply_hvac_action(),
    {
        let old_action = self.state.action;
        if !self.state.backplate {
            self.state.action = HvacAction::Idle;
            return old_action != self.state.action;
        }
        let current_temp = self.state.current_temp as i64;
        let target = self.state.target_temp as i64;
        let deadband = self.settings.temp_deadband as i64;
        let overrun = self.settings.temp_overrun as i64;
        match self.state.mode {
            HvacMode::Heat => {
                if current_temp <= target - deadband {
                    self.state.action = HvacAction::Heating;
                } else if current_temp >= target + overrun {
                    self.state.action = HvacAction::Idle;
                }
            },
            HvacMode::Cool => {
                if current_temp >= target + deadband {
                    self.state.action = HvacAction::Cooling;
                } else if current_temp <= target - overrun {
                    self.state.action = HvacAction::Idle;
                }
            },
            HvacMode::Fan => {
                self.state.action = HvacAction::Fan;
            },
            HvacMode::Off => {
                self.state.action = HvacAction::Idle;
            },
        }
        old_action != self.state.action
    }

    fn apply_lockout(&mut self, now: u64, out: &mut Vec<Event>)
        ensures
            final(self)@ == old(self)@.apply_lockout(now).0,
            final(out)@ == old(out)@ + old(self)@.apply_lockout(now).1,
    {
        let elapsed: u64 = if now >= self.last_idle_time {
            now - self.last_idle_time
        } else {
            0
        };
        if self.state.action == HvacAction::Idle {
            if elapsed > self.settings.min_off_time {
                self.last_idle_time = now;
            }
            self.state.lockout = false;
        } else {
            if elapsed < self.settings.min_off_time {
                let lockout_time = self.settings.min_off_time - elapsed;
                self.state.lockout = true;
                out.push(Event::StartTickTimer(TimerId::HvacLockout, lockout_time));
            } else {
                self.state.lockout = false;
            }
        }
        proof {
            assert(final(out)@ =~= old(out)@ + old(self)@.apply_lockout(now).1);
        }
    }

    /// React to an event, appending the events sent on the way.
    fn react(&mut self, event: &Event, out: &mut Vec<Event>) -> (changed: bool)
        ensures
            final(self)@ == old(self)@.react(*event).0,
            final(out)@ == old(out)@ + old(self)@.react(*event).1,
            changed == old(self)@.react(*event).2,
    {
        match event {
            Event::SetMode(mode) => self.set_mode(*mode, out),
            Event::SetTargetTemp(temp) => {
                let preset_changed = self.set_preset(None);
                let target_changed = self.set_target_temp(*temp);
                let changed = preset_changed || target_changed;
                assert(out@ =~= old(out)@ + old(self)@.react(*event).1);
                changed
            },
            Event::SetCurrentTemp(temp) => {
                let changed = self.set_current_temp(*temp);
                assert(out@ =~= old(out)@ + old(self)@.react(*event).1);
                changed
            },
            Event::ProximityNear | Event::ProximityFar | Event::Dial(_) => {
                if let Some(away_mode) = self.settings.away {
                    out.push(Event::TimeoutReset(TimerId::Away, away_mode.timeout));
                }
                let changed = self.away_stop();
                assert(out@ =~= old(out)@ + old(self)@.react(*event).1);
                changed
            },
            Event::SetPreset(Some(PresetName::Away)) | Event::TimeoutReached(TimerId::Away) => {
                let changed = self.away_start();
                assert(out@ =~= old(out)@ + old(self)@.react(*event).1);
                changed
            },
            Event::SetPreset(preset) => {
                let changed = self.set_preset(*preset);
                assert(out@ =~= old(out)@ + old(self)@.react(*event).1);
                changed
            },
            Event::SchedulePreset(preset) => {
                let changed = self.set_schedule_preset(*preset);
                assert(out@ =~= old(out)@ + old(self)@.react(*event).1);
                changed
            },
            Event::TimeoutReached(TimerId::HvacLockout) => {
                self.state.lockout = false;
                assert(out@ =~= old(out)@ + old(self)@.react(*event).1);
                true
            },
            Event::TimeoutReached(TimerId::Fan) => {
                let mode = match self.restore_mode {
                    Some(m) => m,
                    None => HvacMode::Off,
                };
                self.set_mode(mode, out)
            },
            Event::BackplateConnected => {
                self.state.backplate = true;
                assert(out@ =~= old(out)@ + old(self)@.react(*event).1);
                true
            },
            Event::BackplateDisconnected => {
                self.state.backplate = false;
                assert(out@ =~= old(out)@ + old(self)@.react(*event).1);
                true
            },
            _ => {
                assert(out@ =~= old(out)@ + old(self)@.react(*event).1);
                false
            },
        }
    }

    /// After a change: re-evaluate the action, the lockout if the action
    /// changed, and publish the state.
    fn publish(&mut self, now: u64, out: &mut Vec<Event>)
        ensures
            ({
                let (ma, acted) = old(self)@.apply_hvac_action();
                let (mb, locked) = if acted {
                    ma.apply_lockout(now)
                } else {
                    (ma, seq![])
                };
                &&& final(self)@ == mb
                &&& final(out)@ == old(out)@ + locked.push(Event::State(mb.state))
            }),
    {
        if self.apply_hvac_action() {
            self.apply_lockout(now, out);
        }
        out.push(Event::State(self.state));
        proof {
            let (ma, acted) = old(self)@.apply_hvac_action();
            let (mb, locked) = if acted {
                ma.apply_lockout(now)
            } else {
                (ma, seq![])
            };
            assert(final(out)@ =~= old(out)@ + locked.push(Event::State(mb.state)));
        }
    }

    /// Handle one event at instant `now`; returns the events to send, in
    /// order.
    pub fn handle_event(&mut self, event: &Event, now: u64) -> (out: Vec<Event>)
        ensures
            (final(self)@, out@) == old(self)@.step(*event, now),
    {
        let mut out: Vec<Event> = Vec::new();
        let did_change = self.react(event, &mut out);
        let ghost sent = out@;
        let ghost m1 = self@;
        if did_change {
            self.publish(now, &mut out);
        }
        let ghost before_wake = out@;
        if event.is_wakeup_event() {
            out.push(Event::TimeoutReset(TimerId::Backlight, self.settings.backlight_timeout));
        }
        if matches!(event, Event::GetState) {
            out.push(Event::State(self.state));
        }
        proof {
            assert(sent =~= seq![] + old(self)@.react(*event).1);
            assert(out@ =~= old(self)@.step(*event, now).1);
        }
        out
    }
}

} // verus!
