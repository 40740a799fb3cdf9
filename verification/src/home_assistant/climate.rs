use vstd::prelude::*;
use crate::state::{Event, HvacAction, HvacMode, PresetName, ThermostatState};

verus! {

/// Climate modes of the ESPHome native API.
#[derive(Debug, Clone, Copy, PartialEq, Eq, Structural)]
pub enum ClimateMode {
    Off,
    HeatCool,
    Cool,
    Heat,
    FanOnly,
    Dry,
    Auto,
}

/// Climate actions of the ESPHome native API.
#[derive(Debug, Clone, Copy, PartialEq, Eq, Structural)]
pub enum ClimateAction {
    Off,
    Cooling,
    Heating,
    Idle,
    Drying,
    Fan,
}

/// Climate presets of the ESPHome native API.
#[derive(Debug, Clone, Copy, PartialEq, Eq, Structural)]
pub enum ClimatePreset {
    /// No preset (the protocol's `NONE`).
    NoPreset,
    Home,
    Away,
    Boost,
    Comfort,
    Eco,
    Sleep,
    Activity,
}

/// Fan modes of the ESPHome native API.
#[derive(Debug, Clone, Copy, PartialEq, Eq, Structural)]
pub enum ClimateFanMode {
    On,
    Off,
    Auto,
    Low,
    Medium,
    High,
    Middle,
    Focus,
    Diffuse,
    Quiet,
}

/// A climate mode or preset that the thermostat does not support.
#[derive(Debug, Clone, Copy, PartialEq, Eq, Structural)]
pub enum UnsupportedClimateValue {
    Mode(ClimateMode),
    Preset(ClimatePreset),
}

/// The thermostat mode that a climate mode selects, if it supports it.
pub open spec fn hvac_mode_of(value: ClimateMode) -> Option<HvacMode> {
    match value {
        ClimateMode::Off => Some(HvacMode::Off),
        ClimateMode::Heat => Some(HvacMode::Heat),
        ClimateMode::Cool => Some(HvacMode::Cool),
        ClimateMode::FanOnly => Some(HvacMode::Fan),
        _ => None,
    }
}

/// The climate mode that reports a thermostat mode.
pub open spec fn climate_mode_of(value: HvacMode) -> ClimateMode {
    match value {
        HvacMode::Off => ClimateMode::Off,
        HvacMode::Heat => ClimateMode::Heat,
        HvacMode::Cool => ClimateMode::Cool,
        HvacMode::Fan => ClimateMode::FanOnly,
    }
}

/// The climate action that reports a thermostat action.
pub open spec fn climate_action_of(value: HvacAction) -> ClimateAction {
    match value {
        HvacAction::Idle => ClimateAction::Idle,
        HvacAction::Heating => ClimateAction::Heating,
        HvacAction::Cooling => ClimateAction::Cooling,
        HvacAction::Fan => ClimateAction::Fan,
    }
}

/// The thermostat preset that a climate preset names, if it supports it.
pub open spec fn preset_name_of(value: ClimatePreset) -> Option<PresetName> {
    match value {
        ClimatePreset::Home => Some(PresetName::Home),
        ClimatePreset::Sleep => Some(PresetName::Sleep),
        ClimatePreset::Away => Some(PresetName::Away),
        _ => None,
    }
}

/// The climate preset that reports a thermostat preset.
pub open spec fn climate_preset_of(value: PresetName) -> ClimatePreset {
    match value {
        PresetName::Home => ClimatePreset::Home,
        PresetName::Sleep => ClimatePreset::Sleep,
        PresetName::Away => ClimatePreset::Away,
    }
}

impl TryFrom<ClimateMode> for HvacMode {
    type Error = UnsupportedClimateValue;

    fn try_from(value: ClimateMode) -> (r: Result<HvacMode, UnsupportedClimateValue>) {
        match value {
            ClimateMode::Off => Ok(HvacMode::Off),
            ClimateMode::Heat => Ok(HvacMode::Heat),
            ClimateMode::Cool => Ok(HvacMode::Cool),
            ClimateMode::FanOnly => Ok(HvacMode::Fan),
            v => Err(UnsupportedClimateValue::Mode(v)),
        }
    }
}

impl vstd::std_specs::convert::TryFromSpecImpl<ClimateMode> for HvacMode {
    open spec fn obeys_try_from_spec() -> bool {
        true
    }

    open spec fn try_from_spec(value: ClimateMode) -> Result<HvacMode, UnsupportedClimateValue> {
        match hvac_mode_of(value) {
            Some(m) => Ok(m),
            None => Err(UnsupportedClimateValue::Mode(value)),
        }
    }
}

impl From<HvacMode> for ClimateMode {
    fn from(value: HvacMode) -> (r: ClimateMode) {
        match value {
            HvacMode::Off => ClimateMode::Off,
            HvacMode::Heat => ClimateMode::Heat,
            HvacMode::Cool => ClimateMode::Cool,
            HvacMode::Fan => ClimateMode::FanOnly,
        }
    }
}

impl vstd::std_specs::convert::FromSpecImpl<HvacMode> for ClimateMode {
    open spec fn obeys_from_spec() -> bool {
        true
    }

    open spec fn from_spec(value: HvacMode) -> ClimateMode {
        climate_mode_of(value)
    }
}

impl From<HvacAction> for ClimateAction {
    fn from(value: HvacAction) -> (r: ClimateAction) {
        match value {
            HvacAction::Idle => ClimateAction::Idle,
            HvacAction::Heating => ClimateAction::Heating,
            HvacAction::Cooling => ClimateAction::Cooling,
            HvacAction::Fan => ClimateAction::Fan,
        }
    }
}

impl vstd::std_specs::convert::FromSpecImpl<HvacAction> for ClimateAction {
    open spec fn obeys_from_spec() -> bool {
        true
    }

    open spec fn from_spec(value: HvacAction) -> ClimateAction {
        climate_action_of(value)
    }
}

impl TryFrom<ClimatePreset> for PresetName {
    type Error = UnsupportedClimateValue;

    fn try_from(value: ClimatePreset) -> (r: Result<PresetName, UnsupportedClimateValue>) {
        match value {
            ClimatePreset::Home => Ok(PresetName::Home),
            ClimatePreset::Sleep => Ok(PresetName::Sleep),
            ClimatePreset::Away => Ok(PresetName::Away),
            v => Err(UnsupportedClimateValue::Preset(v)),
        }
    }
}

impl vstd::std_specs::convert::TryFromSpecImpl<ClimatePreset> for PresetName {
    open spec fn obeys_try_from_spec() -> bool {
        true
    }

    open spec fn try_from_spec(value: ClimatePreset) -> Result<PresetName, UnsupportedClimateValue> {
        match preset_name_of(value) {
            Some(p) => Ok(p),
            None => Err(UnsupportedClimateValue::Preset(value)),
        }
    }
}

impl From<PresetName> for ClimatePreset {
    fn from(value: PresetName) -> (r: ClimatePreset) {
        match value {
            PresetName::Home => ClimatePreset::Home,
            PresetName::Sleep => ClimatePreset::Sleep,
            PresetName::Away => ClimatePreset::Away,
        }
    }
}

impl vstd::std_specs::convert::FromSpecImpl<PresetName> for ClimatePreset {
    open spec fn obeys_from_spec() -> bool {
        true
    }

    open spec fn from_spec(value: PresetName) -> ClimatePreset {
        climate_preset_of(value)
    }
}

/// The climate state reported to Home Assistant. Temperatures are in
/// tenths of a degree Celsius.
#[derive(Debug, Clone, Copy, PartialEq, Eq, Structural)]
pub struct ClimateStateResponse {
    pub current_temperature: i32,
    pub target_temperature: i32,
    pub mode: ClimateMode,
    pub action: ClimateAction,
    pub fan_mode: ClimateFanMode,
    pub preset: ClimatePreset,
}

/// The report of a thermostat state: its temperatures, mode, action and
/// preset (`NoPreset` when it has none), with the fan on automatic.
pub open spec fn ha_state_of(state: ThermostatState) -> ClimateStateResponse {
    ClimateStateResponse {
        current_temperature: state.current_temp,
        target_temperature: state.target_temp,
        mode: climate_mode_of(state.mode),
        action: climate_action_of(state.action),
        fan_mode: ClimateFanMode::Auto,
        preset: match state.preset {
            Some(p) => climate_preset_of(p),
            None => ClimatePreset::NoPreset,
        },
    }
}

impl ThermostatState {
    pub fn to_ha_state(&self) -> (r: ClimateStateResponse)
        ensures
            r == ha_state_of(*self),
    {
        ClimateStateResponse {
            current_temperature: self.current_temp,
            target_temperature: self.target_temp,
            mode: ClimateMode::from(self.mode),
            action: ClimateAction::from(self.action),
            fan_mode: ClimateFanMode::Auto,
            preset: match self.preset {
                Some(p) => ClimatePreset::from(p),
                None => ClimatePreset::NoPreset,
            },
        }
    }
}

impl From<ThermostatState> for ClimateStateResponse {
    fn from(value: ThermostatState) -> (r: ClimateStateResponse) {
        value.to_ha_state()
    }
}

impl vstd::std_specs::convert::FromSpecImpl<ThermostatState> for ClimateStateResponse {
    open spec fn obeys_from_spec() -> bool {
        true
    }

    open spec fn from_spec(value: ThermostatState) -> ClimateStateResponse {
        ha_state_of(value)
    }
}

/// The climate entity that the thermostat announces to Home Assistant.
/// Temperatures and steps are in tenths of a degree Celsius.
#[derive(Debug)]
pub struct ListEntitiesClimateResponse {
    pub object_id: String,
    pub supported_modes: Vec<ClimateMode>,
    pub visual_min_temperature: i32,
    pub visual_max_temperature: i32,
    pub visual_target_temperature_step: i32,
    pub visual_current_temperature_step: i32,
    pub supports_current_temperature: bool,
    pub supports_action: bool,
    pub supported_presets: Vec<ClimatePreset>,
}

/// The modes the thermostat supports: off, heat, cool and fan only.
pub open spec fn supported_modes() -> Seq<ClimateMode> {
    seq![ClimateMode::Off, ClimateMode::Heat, ClimateMode::Cool, ClimateMode::FanOnly]
}

/// The presets offered: always `NoPreset`, then each configured preset in
/// order.
pub open spec fn supported_presets(presets: Seq<PresetName>) -> Seq<ClimatePreset> {
    seq![ClimatePreset::NoPreset] + presets.map_values(|p: PresetName| climate_preset_of(p))
}

/// The thermostat's climate entity, with the given object id and presets.
pub fn thermostat_entity(object_id: String, presets: &[PresetName]) -> (entity:
    ListEntitiesClimateResponse)
    ensures
        entity.object_id == object_id,
        entity.supported_modes@ == supported_modes(),
        entity.visual_min_temperature == ThermostatState::MIN_TEMP,
        entity.visual_max_temperature == ThermostatState::MAX_TEMP,
        entity.visual_target_temperature_step == 5,
        entity.visual_current_temperature_step == 5,
        entity.supports_current_temperature,
        entity.supports_action,
        entity.supported_presets@ == supported_presets(presets@),
{
    let modes = vec![
        ClimateMode::Off,
        ClimateMode::Heat,
        ClimateMode::Cool,
        ClimateMode::FanOnly,
    ];
    let mut supported: Vec<ClimatePreset> = Vec::new();
    // "None" stands for the `None` variant of `Option<PresetName>`
    supported.push(ClimatePreset::NoPreset);
    let n = presets.len();
    for i in 0..n
        invariant
            n == presets@.len(),
            supported@ == supported_presets(presets@.take(i as int)),
    {
        supported.push(ClimatePreset::from(presets[i]));
        proof {
            assert(presets@.take(i + 1).drop_last() =~= presets@.take(i as int));
            assert(supported@ =~= supported_presets(presets@.take(i + 1)));
        }
    }
    assert(presets@.take(n as int) =~= presets@);
    assert(modes@ =~= supported_modes());
    ListEntitiesClimateResponse {
        object_id,
        supported_modes: modes,
        visual_min_temperature: ThermostatState::MIN_TEMP,
        visual_max_temperature: ThermostatState::MAX_TEMP,
        visual_target_temperature_step: 5,
        visual_current_temperature_step: 5,
        supports_current_temperature: true,
        supports_action: true,
        supported_presets: supported,
    }
}

/// A climate command from Home Assistant. The target temperature is in
/// tenths of a degree Celsius.
#[derive(Debug, Clone, Copy, PartialEq, Eq, Structural)]
pub struct ClimateCommandRequest {
    pub has_mode: bool,
    pub mode: ClimateMode,
    pub has_target_temperature: bool,
    pub target_temperature: i32,
    pub has_preset: bool,
    pub preset: ClimatePreset,
}

/// The requests from Home Assistant that the thermostat answers.
#[derive(Debug, Clone, Copy, PartialEq, Eq, Structural)]
pub enum HaRequest {
    ListEntitiesRequest,
    SubscribeStatesRequest,
    ClimateCommandRequest(ClimateCommandRequest),
    /// Any other message.
    Other,
}

/// Messages written back to Home Assistant.
#[derive(Debug, Clone, Copy, PartialEq, Eq, Structural)]
pub enum HaReply {
    /// The thermostat's climate entity.
    ListEntitiesClimateResponse,
    ListEntitiesDoneResponse,
}

/// What answering a request amounts to: the messages to write back, and
/// the events to send, each in order.
#[derive(Debug)]
pub struct RequestOutcome {
    pub replies: Vec<HaReply>,
    pub events: Vec<Event>,
}

/// The events that a climate command asks for: the mode, the target
/// temperature, then the preset (an unsupported preset clears it).
pub open spec fn command_events(cmd: ClimateCommandRequest) -> Seq<Event> {
    let mode: Seq<Event> = if cmd.has_mode {
        match hvac_mode_of(cmd.mode) {
            Some(m) => seq![Event::SetMode(m)],
            None => seq![],
        }
    } else {
        seq![]
    };
    let temp: Seq<Event> = if cmd.has_target_temperature {
        seq![Event::SetTargetTemp(cmd.target_temperature)]
    } else {
        seq![]
    };
    let preset: Seq<Event> = if cmd.has_preset {
        seq![Event::SetPreset(preset_name_of(cmd.preset))]
    } else {
        seq![]
    };
    mode + temp + preset
}

/// How a request is answered: entity listing writes the entity and the end
/// of the list; a subscription asks for the state; a climate command sends
/// the events it asks for, unless it selects an unsupported mode, which is
/// refused before anything is sent; anything else is ignored.
pub open spec fn request_outcome(message: HaRequest) -> Result<
    (Seq<HaReply>, Seq<Event>),
    UnsupportedClimateValue,
> {
    match message {
        HaRequest::ListEntitiesRequest => Ok(
            (
                seq![HaReply::ListEntitiesClimateResponse, HaReply::ListEntitiesDoneResponse],
                seq![],
            ),
        ),
        HaRequest::SubscribeStatesRequest => Ok((seq![], seq![Event::GetState])),
        HaRequest::ClimateCommandRequest(cmd) => if cmd.has_mode && hvac_mode_of(cmd.mode) is None {
            Err(UnsupportedClimateValue::Mode(cmd.mode))
        } else {
            Ok((seq![], command_events(cmd)))
        },
        HaRequest::Other => Ok((seq![], seq![])),
    }
}

/// Answers Home Assistant's requests for the thermostat entity.
pub struct HvacRequestHandler {
    thermostat_entity: ListEntitiesClimateResponse,
}

impl HvacRequestHandler {
    pub fn new(thermostat_entity: ListEntitiesClimateResponse) -> (h: Self)
        ensures
            h.entity() == thermostat_entity,
    {
        HvacRequestHandler { thermostat_entity }
    }

    pub closed spec fn entity(&self) -> ListEntitiesClimateResponse {
        self.thermostat_entity
    }

    /// The climate entity written in answer to an entity listing.
    pub fn thermostat_entity(&self) -> (e: &ListEntitiesClimateResponse)
        ensures
            *e == self.entity(),
    {
        &self.thermostat_entity
    }

    pub fn handle_request(&self, message: &HaRequest) -> (r: Result<
        RequestOutcome,
        UnsupportedClimateValue,
    >)
        ensures
            match (r, request_outcome(*message)) {
                (Ok(o), Ok((replies, events))) => o.replies@ == replies && o.events@ == events,
                (Err(e), Err(f)) => e == f,
                _ => false,
            },
    {
        let mut replies: Vec<HaReply> = Vec::new();
        let mut events: Vec<Event> = Vec::new();
        match message {
            HaRequest::ListEntitiesRequest => {
                replies.push(HaReply::ListEntitiesClimateResponse);
                replies.push(HaReply::ListEntitiesDoneResponse);
            },
            HaRequest::SubscribeStatesRequest => {
                events.push(Event::GetState);
            },
            HaRequest::ClimateCommandRequest(cmd) => {
                if cmd.has_mode {
                    let mode = HvacMode::try_from(cmd.mode)?;
                    events.push(Event::SetMode(mode));
                }
                if cmd.has_target_temperature {
                    events.push(Event::SetTargetTemp(cmd.target_temperature));
                }
                if cmd.has_preset {
                    let preset = match PresetName::try_from(cmd.preset) {
                        Ok(p) => Some(p),
                        Err(_) => None,
                    };
                    events.push(Event::SetPreset(preset));
                }
                proof {
                    assert(events@ =~= command_events(*cmd));
                }
            },
            HaRequest::Other => {},
        }
        proof {
            if let Ok((rs, es)) = request_outcome(*message) {
                assert(replies@ =~= rs);
                assert(events@ =~= es);
            }
        }
        Ok(RequestOutcome { replies, events })
    }
}

} // verus!
