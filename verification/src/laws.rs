//! Properties of the thermostat that span several operations.

use vstd::prelude::*;
use crate::config::preset_temp;
use crate::home_assistant::{
    ClimateAction, ClimateCommandRequest, ClimateMode, ClimatePreset, HaRequest, climate_action_of,
    climate_mode_of, climate_preset_of, ha_state_of, hvac_mode_of, preset_name_of,
    request_outcome,
};
use crate::schedule::{
    DaysOfWeek, LocalTime, ScheduleEntry, ScheduleModel, WeekDay, WeekDayRange, Weekday, covers,
    days_of, get_preset_post, map_of, range_days, reached, still_reported, week_of,
    weekday_of,
};
use crate::state::{
    ThermostatState, Event, HvacAction, HvacMode, ManagerModel, PresetName, SavedTemp, TimerId, elapsed,
    shows_presence,
};

verus! {

/// Heating hysteresis: with the backplate connected in heat mode, a new room
/// temperature starts heating once it is `temp_deadband` or more below the
/// target, stops it once it is `temp_overrun` or more above the target, and
/// otherwise leaves the action as it was.
pub proof fn law_heat_hysteresis(m: ManagerModel, temp: i32, now: u64)
    requires
        m.state.backplate,
        m.state.mode == HvacMode::Heat,
        temp != m.state.current_temp,
    ensures
        ({
            let after = m.step(Event::SetCurrentTemp(temp), now).0.state;
            &&& after.current_temp == temp
            &&& after.target_temp == m.state.target_temp
            &&& after.mode == HvacMode::Heat
            &&& after.action == if temp <= m.state.target_temp - m.settings.temp_deadband {
                HvacAction::Heating
            } else if temp >= m.state.target_temp + m.settings.temp_overrun {
                HvacAction::Idle
            } else {
                m.state.action
            }
        }),
{
}

/// Cooling hysteresis: with the backplate connected in cool mode, a new room
/// temperature starts cooling once it is `temp_deadband` or more above the
/// target, stops it once it is `temp_overrun` or more below the target, and
/// otherwise leaves the action as it was.
pub proof fn law_cool_hysteresis(m: ManagerModel, temp: i32, now: u64)
    requires
        m.state.backplate,
        m.state.mode == HvacMode::Cool,
        temp != m.state.current_temp,
    ensures
        ({
            let after = m.step(Event::SetCurrentTemp(temp), now).0.state;
            &&& after.current_temp == temp
            &&& after.target_temp == m.state.target_temp
            &&& after.mode == HvacMode::Cool
            &&& after.action == if temp >= m.state.target_temp + m.settings.temp_deadband {
                HvacAction::Cooling
            } else if temp <= m.state.target_temp - m.settings.temp_overrun {
                HvacAction::Idle
            } else {
                m.state.action
            }
        }),
{
}

/// Without a backplate nothing runs: disconnecting it leaves the equipment
/// idle.
pub proof fn law_disconnect_idles(m: ManagerModel, now: u64)
    ensures
        ({
            let after = m.step(Event::BackplateDisconnected, now).0.state;
            &&& !after.backplate
            &&& after.action == HvacAction::Idle
        }),
{
}

/// Changing the mode clears the action before it is re-evaluated: in fan
/// mode the fan runs, and in heat or cool mode an action only starts when
/// the room is past the deadband.
pub proof fn law_mode_change_resets_action(m: ManagerModel, mode: HvacMode, now: u64)
    requires
        mode != m.state.mode,
        m.state.backplate,
    ensures
        ({
            let after = m.step(Event::SetMode(mode), now).0.state;
            let cur = m.state.current_temp;
            let target = m.state.target_temp;
            let deadband = m.settings.temp_deadband;
            &&& after.mode == mode
            &&& after.action == match mode {
                HvacMode::Heat => if cur <= target - deadband {
                    HvacAction::Heating
                } else {
                    HvacAction::Idle
                },
                HvacMode::Cool => if cur >= target + deadband {
                    HvacAction::Cooling
                } else {
                    HvacAction::Idle
                },
                HvacMode::Fan => HvacAction::Fan,
                HvacMode::Off => HvacAction::Idle,
            }
        }),
{
}

/// Minimum off time: when an event starts the equipment within
/// `min_off_time` of the instant it last counted as idle, the thermostat
/// is locked out and a timer is started for the rest of that time.
pub proof fn law_lockout_after_short_idle(m: ManagerModel, event: Event, now: u64)
    requires
        m.state.action == HvacAction::Idle,
        m.step(event, now).0.state.action != HvacAction::Idle,
        elapsed(m.last_idle_time, now) < m.settings.min_off_time,
    ensures
        m.step(event, now).0.state.lockout,
        m.step(event, now).1.contains(
            Event::StartTickTimer(
                TimerId::HvacLockout,
                (m.settings.min_off_time - elapsed(m.last_idle_time, now)) as u64,
            ),
        ),
{
    let (m1, sent, changed) = m.react(event);
    assert(m1.last_idle_time == m.last_idle_time);
    assert(m1.settings == m.settings);
    assert(changed);
    let (ma, acted) = m1.apply_hvac_action();
    assert(m1.state.action == HvacAction::Idle);
    assert(acted);
    let (mb, locked) = ma.apply_lockout(now);
    let out = m.step(event, now).1;
    let published = locked.push(Event::State(mb.state));
    assert(out[sent.len() as int] == locked[0]);
}

/// Away mode undoes itself: entering it from a plain target temperature
/// selects the configured away preset, and leaving it when someone is
/// present restores that target temperature and no preset.
pub proof fn law_away_restores_target(m: ManagerModel, enter: Event, presence: Event, t1: u64, t2: u64)
    requires
        enter == Event::SetPreset(Some(PresetName::Away)) || enter == Event::TimeoutReached(
            TimerId::Away,
        ),
        shows_presence(presence),
        m.state.preset is None,
    ensures
        ({
            let away = m.step(enter, t1).0;
            let back = away.step(presence, t2).0;
            &&& away.state.preset == Some(m.away_preset())
            &&& back.state.preset is None
            &&& back.state.target_temp == m.state.target_temp
            &&& back.restore_temp is None
        }),
{
}

/// Away mode undoes itself: entering it from another preset selects the
/// configured away preset, and leaving it when someone is present selects
/// the earlier preset again, with its temperature for the current mode
/// where it has one.
pub proof fn law_away_restores_preset(
    m: ManagerModel,
    enter: Event,
    presence: Event,
    t1: u64,
    t2: u64,
)
    requires
        enter == Event::SetPreset(Some(PresetName::Away)) || enter == Event::TimeoutReached(
            TimerId::Away,
        ),
        shows_presence(presence),
        m.state.preset is Some,
        !m.is_away(),
    ensures
        ({
            let p = m.state.preset->0;
            let away = m.step(enter, t1).0;
            let back = away.step(presence, t2).0;
            &&& away.state.preset == Some(m.away_preset())
            &&& back.state.preset == Some(p)
            &&& back.state.target_temp == match preset_temp(m.presets, p, m.state.mode) {
                Some(t) => t,
                None => away.state.target_temp,
            }
            &&& back.restore_temp is None
        }),
{
}

/// While away, a scheduled preset changes nothing visible and sends
/// nothing; it is what the thermostat returns to when someone is present.
pub proof fn law_schedule_deferred_while_away(
    m: ManagerModel,
    preset: PresetName,
    presence: Event,
    t1: u64,
    t2: u64,
)
    requires
        m.is_away(),
        shows_presence(presence),
    ensures
        ({
            let (deferred, sent) = m.step(Event::SchedulePreset(preset), t1);
            let back = deferred.step(presence, t2).0;
            &&& deferred.state == m.state
            &&& sent.len() == 0
            &&& deferred.restore_temp == Some(SavedTemp::Preset(preset))
            &&& back.state.preset == Some(preset)
        }),
{
}

/// Fan mode undoes itself: it starts the fan timer, and when that timer
/// runs out the thermostat returns to the mode it left.
pub proof fn law_fan_timeout_restores_mode(m: ManagerModel, t1: u64, t2: u64)
    requires
        m.state.mode != HvacMode::Fan,
    ensures
        ({
            let (fan, sent) = m.step(Event::SetMode(HvacMode::Fan), t1);
            let back = fan.step(Event::TimeoutReached(TimerId::Fan), t2).0;
            &&& fan.state.mode == HvacMode::Fan
            &&& sent[0] == Event::StartTickTimer(TimerId::Fan, m.settings.default_fan_timeout)
            &&& back.state.mode == m.state.mode
            &&& back.restore_mode is None
        }),
{
    let (m1, s1, c1) = m.react(Event::SetMode(HvacMode::Fan));
    assert(s1 == seq![Event::StartTickTimer(TimerId::Fan, m.settings.default_fan_timeout)]);
}

/// A request for the state is answered with the current state and changes
/// nothing.
pub proof fn law_get_state_answers(m: ManagerModel, now: u64)
    ensures
        m.step(Event::GetState, now) == (m, seq![Event::State(m.state)]),
{
    assert(m.step(Event::GetState, now).1 =~= seq![Event::State(m.state)]);
}

/// Every change of the thermostat state is published with the new state.
pub proof fn law_changes_are_published(m: ManagerModel, event: Event, now: u64)
    requires
        m.step(event, now).0.state != m.state,
    ensures
        m.step(event, now).1.contains(Event::State(m.step(event, now).0.state)),
{
    let (m1, sent, changed) = m.react(event);
    assert(changed);
    let (m2, out) = m.step(event, now);
    let (ma, acted) = m1.apply_hvac_action();
    let (mb, locked) = if acted {
        ma.apply_lockout(now)
    } else {
        (ma, seq![])
    };
    let published = locked.push(Event::State(mb.state));
    assert(out[(sent.len() + locked.len()) as int] == published[locked.len() as int]);
}

/// A thermostat mode survives the round trip through Home Assistant.
pub proof fn law_mode_round_trip(mode: HvacMode)
    ensures
        hvac_mode_of(climate_mode_of(mode)) == Some(mode),
{
}

/// A thermostat preset survives the round trip through Home Assistant.
pub proof fn law_preset_round_trip(preset: PresetName)
    ensures
        preset_name_of(climate_preset_of(preset)) == Some(preset),
{
}

/// A set point is reported once: the call that reports it remembers it,
/// and every later call on the same day while the set point is still
/// within its window reports nothing and changes nothing.
pub proof fn law_set_point_reported_once(
    s0: ScheduleModel,
    t0: LocalTime,
    p: PresetName,
    s1: ScheduleModel,
    t1: LocalTime,
    r: Option<PresetName>,
    s2: ScheduleModel,
)
    requires
        get_preset_post(s0, t0, Some(p), s1),
        get_preset_post(s1, t1, r, s2),
    ensures
        s1.last_set_point matches Some(l) && l.weekday == t0.weekday && l.preset == p && reached(
            l.time,
            t0,
            s0.max_age,
        ),
        s1.last_set_point matches Some(l) && l.weekday == t1.weekday && reached(
            l.time,
            t1,
            s1.max_age,
        ) ==> r is None && s2 == s1,
{
}

/// A set point counts once its time is reached: a call within the window
/// of a set point of the day reports a preset, unless the set point
/// reported last is still within its own window.
pub proof fn law_reached_set_point_reported(
    s0: ScheduleModel,
    now: LocalTime,
    t: u32,
    r: Option<PresetName>,
    s1: ScheduleModel,
)
    requires
        get_preset_post(s0, now, r, s1),
        s0.days[now.weekday.index()].contains_key(t),
        reached(t, now, s0.max_age),
        !still_reported(s0, now),
    ensures
        r is Some,
{
    let day = s0.days[now.weekday.index()];
    if r is None {
        let p = day[t];
        assert(forall|u: u32|
            #![trigger day[u]]
            day.contains_key(u) ==> !reached(u, now, s0.max_age));
        assert(day.contains_key(t) && day[t] == p);
    }
}

/// A schedule entry overlaps the entries before it: on the days it covers,
/// its set points decide the preset at their times; every other time and
/// day keeps what the earlier entries gave it.
pub proof fn law_later_entry_overlaps(entries: Seq<ScheduleEntry>, d: int, t: u32)
    requires
        entries.len() > 0,
        0 <= d < 7,
    ensures
        ({
            let last = entries.last();
            let before = week_of(entries.drop_last())[d];
            let after = week_of(entries)[d];
            let own = map_of(last.set_points@);
            &&& covers(last.days_of_week, d) && own.contains_key(t) ==> after.contains_key(t)
                && after[t] == own[t]
            &&& !(covers(last.days_of_week, d) && own.contains_key(t)) ==> (after.contains_key(t)
                == before.contains_key(t) && (before.contains_key(t) ==> after[t] == before[t]))
        }),
{
}

/// Without a backplate the equipment stays idle: while it is disconnected,
/// no event other than its reconnection starts heating, cooling or the fan.
pub proof fn law_idle_without_backplate(m: ManagerModel, event: Event, now: u64)
    requires
        !m.state.backplate,
        m.state.action == HvacAction::Idle,
        event != Event::BackplateConnected,
    ensures
        m.step(event, now).0.state.action == HvacAction::Idle,
        !m.step(event, now).0.state.backplate,
{
}

/// Minimum off time, idle side: when a new room temperature takes the
/// running equipment to idle more than `min_off_time` after the instant it
/// last counted as idle, that instant becomes the new idle instant, and
/// nothing is locked out.
pub proof fn law_going_idle_records_instant(m: ManagerModel, temp: i32, now: u64)
    requires
        m.state.action != HvacAction::Idle,
        m.step(Event::SetCurrentTemp(temp), now).0.state.action == HvacAction::Idle,
        now >= m.last_idle_time,
        now - m.last_idle_time > m.settings.min_off_time,
    ensures
        m.step(Event::SetCurrentTemp(temp), now).0.last_idle_time == now,
        !m.step(Event::SetCurrentTemp(temp), now).0.state.lockout,
        m.step(Event::SetCurrentTemp(temp), now).0.settings == m.settings,
{
}

/// Minimum off time across a stop and a restart: when the running equipment
/// goes idle at `t1`, more than `min_off_time` after it last counted as
/// idle, and a new room temperature starts it again at `t2` less than
/// `min_off_time` later, the restart is locked out and a lockout timer is
/// started for the rest of the minimum off time.
pub proof fn law_restart_after_short_idle_locked_out(
    m: ManagerModel,
    temp1: i32,
    t1: u64,
    temp2: i32,
    t2: u64,
)
    requires
        m.state.action != HvacAction::Idle,
        m.step(Event::SetCurrentTemp(temp1), t1).0.state.action == HvacAction::Idle,
        t1 >= m.last_idle_time,
        t1 - m.last_idle_time > m.settings.min_off_time,
        m.step(Event::SetCurrentTemp(temp1), t1).0.step(Event::SetCurrentTemp(temp2), t2).0.state.action
            != HvacAction::Idle,
        t2 >= t1,
        t2 - t1 < m.settings.min_off_time,
    ensures
        ({
            let idle = m.step(Event::SetCurrentTemp(temp1), t1).0;
            let (restarted, sent) = idle.step(Event::SetCurrentTemp(temp2), t2);
            &&& restarted.state.lockout
            &&& sent.contains(
                Event::StartTickTimer(
                    TimerId::HvacLockout,
                    (m.settings.min_off_time - (t2 - t1)) as u64,
                ),
            )
        }),
{
    law_going_idle_records_instant(m, temp1, t1);
    let idle = m.step(Event::SetCurrentTemp(temp1), t1).0;
    assert(elapsed(idle.last_idle_time, t2) == t2 - t1);
    law_lockout_after_short_idle(idle, Event::SetCurrentTemp(temp2), t2);
}

/// Movement restarts the away timer: where away mode is configured, every
/// proximity or dial event first resets the away timer to its timeout,
/// whether or not the thermostat is away.
pub proof fn law_presence_restarts_away_timer(m: ManagerModel, event: Event, now: u64)
    requires
        m.settings.away is Some,
        event is ProximityNear || event is ProximityFar || event is Dial,
    ensures
        m.step(event, now).1.len() > 0,
        m.step(event, now).1[0] == Event::TimeoutReset(TimerId::Away, m.settings.away->0.timeout),
{
}

/// A scheduled preset, when the thermostat is not in away mode, is selected
/// with its temperature for the current mode, where it has one; the mode is
/// unchanged. Selecting the preset that is already active changes nothing.
pub proof fn law_scheduled_preset_applies(m: ManagerModel, p: PresetName, now: u64)
    requires
        m.state.preset != Some(
            match m.settings.away {
                Some(a) => a.preset,
                None => PresetName::Away,
            },
        ),
    ensures
        ({
            let after = m.step(Event::SchedulePreset(p), now).0.state;
            &&& after.preset == Some(p)
            &&& after.mode == m.state.mode
            &&& after.target_temp == if m.state.preset == Some(p) {
                m.state.target_temp
            } else {
                match preset_temp(m.presets, p, m.state.mode) {
                    Some(t) => t,
                    None => m.state.target_temp,
                }
            }
        }),
{
}

/// Outside away mode a scheduled preset has the same effect on the state as
/// the user selecting it (other than `Away`, which the user's selection
/// turns into away mode).
pub proof fn law_scheduled_preset_as_selected(m: ManagerModel, p: PresetName, now: u64)
    requires
        m.state.preset != Some(
            match m.settings.away {
                Some(a) => a.preset,
                None => PresetName::Away,
            },
        ),
        p != PresetName::Away,
    ensures
        m.step(Event::SchedulePreset(p), now).0 == m.step(Event::SetPreset(Some(p)), now).0,
{
}

/// Each climate mode of Home Assistant selects the thermostat mode of the
/// same name, the others are unsupported, and each thermostat mode is
/// reported as the climate mode of its name.
pub proof fn law_modes_keep_their_names(cm: ClimateMode, hm: HvacMode)
    ensures
        hvac_mode_of(cm) == match cm {
            ClimateMode::Off => Some(HvacMode::Off),
            ClimateMode::Heat => Some(HvacMode::Heat),
            ClimateMode::Cool => Some(HvacMode::Cool),
            ClimateMode::FanOnly => Some(HvacMode::Fan),
            ClimateMode::HeatCool | ClimateMode::Dry | ClimateMode::Auto => None::<HvacMode>,
        },
        hvac_mode_of(climate_mode_of(hm)) == Some(hm),
        climate_mode_of(HvacMode::Off) == ClimateMode::Off,
        climate_mode_of(HvacMode::Heat) == ClimateMode::Heat,
        climate_mode_of(HvacMode::Cool) == ClimateMode::Cool,
        climate_mode_of(HvacMode::Fan) == ClimateMode::FanOnly,
{
}

/// Presets and actions keep their names too: each climate preset of the
/// thermostat's three names selects that preset, the others are none of
/// them, and each action is reported under its own name.
pub proof fn law_presets_and_actions_keep_their_names(cp: ClimatePreset, p: PresetName)
    ensures
        preset_name_of(cp) == match cp {
            ClimatePreset::Home => Some(PresetName::Home),
            ClimatePreset::Sleep => Some(PresetName::Sleep),
            ClimatePreset::Away => Some(PresetName::Away),
            _ => None::<PresetName>,
        },
        preset_name_of(climate_preset_of(p)) == Some(p),
        climate_action_of(HvacAction::Idle) == ClimateAction::Idle,
        climate_action_of(HvacAction::Heating) == ClimateAction::Heating,
        climate_action_of(HvacAction::Cooling) == ClimateAction::Cooling,
        climate_action_of(HvacAction::Fan) == ClimateAction::Fan,
{
}

/// What Home Assistant is told of a state: its room and target
/// temperatures, its mode and action under their own names, and its
/// preset, or no preset.
pub proof fn law_state_report(s: ThermostatState)
    ensures
        ha_state_of(s).current_temperature == s.current_temp,
        ha_state_of(s).target_temperature == s.target_temp,
        hvac_mode_of(ha_state_of(s).mode) == Some(s.mode),
        ha_state_of(s).action == climate_action_of(s.action),
        s.preset is None <==> ha_state_of(s).preset == ClimatePreset::NoPreset,
        s.preset matches Some(p) ==> preset_name_of(ha_state_of(s).preset) == Some(p),
        ha_state_of(s).fan_mode == crate::home_assistant::ClimateFanMode::Auto,
{
}

/// A climate command from Home Assistant sends, in order, the mode it
/// selects, the target temperature it sets and the preset it names, each
/// only where the command carries it; a command that selects an
/// unsupported mode is refused.
pub proof fn law_command_events(cmd: ClimateCommandRequest)
    ensures
        ({
            let out = request_outcome(HaRequest::ClimateCommandRequest(cmd));
            let mode_n: int = if cmd.has_mode {
                1
            } else {
                0
            };
            let temp_n: int = if cmd.has_target_temperature {
                1
            } else {
                0
            };
            let preset_n: int = if cmd.has_preset {
                1
            } else {
                0
            };
            &&& (cmd.has_mode && hvac_mode_of(cmd.mode) is None) <==> out is Err
            &&& out matches Ok((replies, events)) ==> {
                &&& replies.len() == 0
                &&& events.len() == mode_n + temp_n + preset_n
                &&& cmd.has_mode ==> events[0] == Event::SetMode(hvac_mode_of(cmd.mode)->0)
                &&& cmd.has_target_temperature ==> events[mode_n] == Event::SetTargetTemp(
                    cmd.target_temperature,
                )
                &&& cmd.has_preset ==> events[mode_n + temp_n] == Event::SetPreset(
                    preset_name_of(cmd.preset),
                )
            }
        }),
{
}

/// Each configured weekday names the calendar day of the same name, and
/// days count from Monday.
pub proof fn law_weekdays_keep_their_names(d: WeekDay)
    ensures
        weekday_of(d) == match d {
            WeekDay::Mon => Weekday::Mon,
            WeekDay::Tue => Weekday::Tue,
            WeekDay::Wed => Weekday::Wed,
            WeekDay::Thur => Weekday::Thu,
            WeekDay::Fri => Weekday::Fri,
            WeekDay::Sat => Weekday::Sat,
            WeekDay::Sun => Weekday::Sun,
        },
        Weekday::Mon.index() == 0,
        Weekday::Tue.index() == 1,
        Weekday::Wed.index() == 2,
        Weekday::Thu.index() == 3,
        Weekday::Fri.index() == 4,
        Weekday::Sat.index() == 5,
        Weekday::Sun.index() == 6,
{
}

/// The day number, from Monday (0), of a configured weekday.
pub open spec fn listed_day_number(d: WeekDay) -> int {
    match d {
        WeekDay::Mon => 0,
        WeekDay::Tue => 1,
        WeekDay::Wed => 2,
        WeekDay::Thur => 3,
        WeekDay::Fri => 4,
        WeekDay::Sat => 5,
        WeekDay::Sun => 6,
    }
}

/// A schedule of one entry that lists one weekday has that entry's set
/// points on the day of that name and none on any other day.
pub proof fn law_listed_day_gets_set_points(entry: ScheduleEntry, d: WeekDay, i: int)
    requires
        entry.days_of_week matches DaysOfWeek::List(days) && days@ == seq![d],
        0 <= i < 7,
    ensures
        week_of(seq![entry])[i] == if i == listed_day_number(d) {
            map_of(entry.set_points@)
        } else {
            Map::<u32, PresetName>::empty()
        },
{
    let es = seq![entry];
    assert(es.drop_last() =~= Seq::<ScheduleEntry>::empty());
    assert(es.last() == entry);
    assert(week_of(es.drop_last()) == crate::schedule::empty_week());
    let listed = days_of(entry.days_of_week);
    if let DaysOfWeek::List(days) = entry.days_of_week {
        assert(listed =~= seq![weekday_of(d)]);
    }
    assert(weekday_of(d).index() == listed_day_number(d));
    assert(listed.len() == 1 && listed[0] == weekday_of(d));
    if i == listed_day_number(d) {
        assert(listed[0].index() == i);
        assert(covers(entry.days_of_week, i));
        assert(Map::<u32, PresetName>::empty().union_prefer_right(map_of(entry.set_points@))
            =~= map_of(entry.set_points@));
    } else {
        assert(!covers(entry.days_of_week, i));
    }
}

/// The day ranges cover the days they name: every day, Monday to Friday,
/// and Saturday and Sunday.
pub proof fn law_day_ranges(i: int)
    requires
        0 <= i < 7,
    ensures
        covers(DaysOfWeek::Range(WeekDayRange::EveryDay), i),
        covers(DaysOfWeek::Range(WeekDayRange::WeekDays), i) <==> i < 5,
        covers(DaysOfWeek::Range(WeekDayRange::WeekEnd), i) <==> i >= 5,
{
    let every = range_days(WeekDayRange::EveryDay);
    let week = range_days(WeekDayRange::WeekDays);
    let end = range_days(WeekDayRange::WeekEnd);
    assert(every.len() == 7 && week.len() == 5 && end.len() == 2);
    assert(every[0].index() == 0 && every[1].index() == 1 && every[2].index() == 2
        && every[3].index() == 3 && every[4].index() == 4 && every[5].index() == 5
        && every[6].index() == 6);
    assert(week[0].index() == 0 && week[1].index() == 1 && week[2].index() == 2
        && week[3].index() == 3 && week[4].index() == 4);
    assert(end[0].index() == 5 && end[1].index() == 6);
    assert(days_of(DaysOfWeek::Range(WeekDayRange::EveryDay)) == every);
    assert(days_of(DaysOfWeek::Range(WeekDayRange::WeekDays)) == week);
    assert(days_of(DaysOfWeek::Range(WeekDayRange::WeekEnd)) == end);
    assert(every[i].index() == i);
    if i < 5 {
        assert(week[i].index() == i);
    } else {
        assert(end[i - 5].index() == i);
    }
}

/// Leaving fan mode for another mode cancels the fan timer first.
pub proof fn law_leaving_fan_cancels_timer(m: ManagerModel, mode: HvacMode, now: u64)
    requires
        m.state.mode == HvacMode::Fan,
        mode != HvacMode::Fan,
    ensures
        m.step(Event::SetMode(mode), now).0.state.mode == mode,
        m.step(Event::SetMode(mode), now).1.len() > 0,
        m.step(Event::SetMode(mode), now).1[0] == Event::CancelTimer(TimerId::Fan),
{
}

/// Waking the display: a proximity-near or dial event ends with a reset of
/// the display timer to the backlight timeout; no other event resets it.
pub proof fn law_wake_resets_backlight(m: ManagerModel, event: Event, now: u64)
    ensures
        ({
            let out = m.step(event, now).1;
            &&& (event is ProximityNear || event is Dial) ==> out.len() > 0 && out.last()
                == Event::TimeoutReset(TimerId::Backlight, m.settings.backlight_timeout)
            &&& !(event is ProximityNear || event is Dial) ==> forall|i: int|
                0 <= i < out.len() ==> !(#[trigger] out[i] matches Event::TimeoutReset(
                    TimerId::Backlight,
                    _,
                ))
        }),
{
    let (m1, sent, changed) = m.react(event);
    let (m2, out) = m.step(event, now);
    assert(forall|i: int|
        0 <= i < sent.len() ==> !(#[trigger] sent[i] matches Event::TimeoutReset(
            TimerId::Backlight,
            _,
        )));
    if changed {
        let (ma, acted) = m1.apply_hvac_action();
        if acted {
            let (mb, locked) = ma.apply_lockout(now);
            assert(forall|i: int|
                0 <= i < locked.len() ==> !(#[trigger] locked[i] matches Event::TimeoutReset(
                    TimerId::Backlight,
                    _,
                )));
        }
    }
}

/// At startup the manager starts the away timer, where away mode is
/// configured, and then the display timer.
pub proof fn law_startup_timers(settings: crate::state::ManagerSettings)
    ensures
        ({
            let out = crate::state::startup_events(settings);
            &&& out.last() == Event::TimeoutReset(TimerId::Backlight, settings.backlight_timeout)
            &&& settings.away matches Some(a) ==> out.len() == 2 && out[0] == Event::TimeoutReset(
                TimerId::Away,
                a.timeout,
            )
            &&& settings.away is None ==> out.len() == 1
        }),
{
}

/// A set point at `t` counts as reached from its own time until `max_age`
/// seconds later, that last instant included but not its fractions.
pub proof fn law_set_point_window(t: u32, now: LocalTime, max_age: u32)
    ensures
        reached(t, now, max_age) <==> (t <= now.seconds && (now.seconds < t + max_age || (
        now.seconds == t + max_age && now.nanos == 0))),
{
}

/// A preset's temperature for a mode: the heat temperature in heat mode,
/// the cool temperature in cool mode, where the preset has one, and none in
/// fan or off mode.
pub proof fn law_preset_temp_for_mode(heat: i32, cool: i32, temp: crate::config::PresetTemp)
    ensures
        crate::config::temp_for_mode(crate::config::PresetTemp::Both { heat, cool }, HvacMode::Heat)
            == Some(heat),
        crate::config::temp_for_mode(crate::config::PresetTemp::Both { heat, cool }, HvacMode::Cool)
            == Some(cool),
        crate::config::temp_for_mode(crate::config::PresetTemp::Heat { heat }, HvacMode::Heat)
            == Some(heat),
        crate::config::temp_for_mode(crate::config::PresetTemp::Heat { heat }, HvacMode::Cool)
            is None,
        crate::config::temp_for_mode(crate::config::PresetTemp::Cool { cool }, HvacMode::Cool)
            == Some(cool),
        crate::config::temp_for_mode(crate::config::PresetTemp::Cool { cool }, HvacMode::Heat)
            is None,
        crate::config::temp_for_mode(temp, HvacMode::Fan) is None,
        crate::config::temp_for_mode(temp, HvacMode::Off) is None,
{
}

/// The temperature of a named preset comes from the first preset of that
/// name; with no preset of that name there is none.
pub proof fn law_preset_temp_first_named(
    presets: Seq<crate::config::Preset>,
    name: PresetName,
    mode: HvacMode,
    i: int,
)
    requires
        0 <= i <= presets.len(),
        forall|j: int| 0 <= j < i ==> presets[j].name != name,
    ensures
        i < presets.len() && presets[i].name == name ==> preset_temp(presets, name, mode)
            == crate::config::temp_for_mode(presets[i].temp, mode),
        i == presets.len() ==> preset_temp(presets, name, mode) is None,
{
    crate::config::lemma_first_named(presets, name);
    match crate::config::first_named(presets, name) {
        Some(k) => {
            if i < presets.len() && presets[i].name == name {
                assert(!(k < i));
                assert(!(i < k));
            }
        },
        None => {},
    }
}

} // verus!
