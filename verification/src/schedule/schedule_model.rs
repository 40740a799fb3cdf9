use vstd::prelude::*;
use vstd::std_specs::hash::spec_hash_map_iter;
use vstd::std_specs::iter::IteratorSpec;
use std::collections::HashMap;
use crate::schedule::schedule_options::{DaysOfWeek, ScheduleEntry, SetPoint, Weekday, days_of};
use crate::state::PresetName;

verus! {

/// How long after its time a set point still counts as reached, in seconds.
pub const MAX_AGE: u32 = 2;

/// A local date and time, as the schedule reads it.
#[derive(Debug, Clone, Copy, PartialEq, Eq, Structural)]
pub struct LocalTime {
    pub weekday: Weekday,
    /// Whole seconds since local midnight.
    pub seconds: u32,
    /// Fraction of the second in nanoseconds (at or above 10^9 during a
    /// leap second).
    pub nanos: u32,
}

/// Earliest year of a calendar date.
pub const MIN_YEAR: i32 = -262_143;

/// Latest year of a calendar date.
pub const MAX_YEAR: i32 = 262_142;

/// A leap year of the proleptic Gregorian calendar.
pub open spec fn is_leap_year(year: int) -> bool {
    year % 4 == 0 && (year % 100 != 0 || year % 400 == 0)
}

/// Days in a month of a year.
pub open spec fn days_in_month(year: int, month: int) -> int {
    if month == 2 {
        if is_leap_year(year) {
            29
        } else {
            28
        }
    } else if month == 4 || month == 6 || month == 9 || month == 11 {
        30
    } else {
        31
    }
}

/// A date that exists, in the range of years that dates cover.
pub open spec fn valid_date(year: i32, month: u32, day: u32) -> bool {
    &&& MIN_YEAR <= year <= MAX_YEAR
    &&& 1 <= month <= 12
    &&& 1 <= day <= days_in_month(year as int, month as int)
}

/// The day of the week of an existing date, counted from Monday (0) to
/// Sunday (6), by Zeller's congruence with January and February counted
/// as months 13 and 14 of the year before.
pub open spec fn weekday_number(year: int, month: int, day: int) -> int {
    let m = if month < 3 {
        month + 12
    } else {
        month
    };
    let y = if month < 3 {
        year - 1
    } else {
        year
    };
    let h = (day + (13 * (m + 1)) / 5 + y + y / 4 - y / 100 + y / 400) % 7;
    // h counts from Saturday (0)
    (h + 5) % 7
}

/// The day of the week of a calendar date, counted from Monday (0) to
/// Sunday (6), or `None` where the date does not exist.
pub open spec fn calendar_weekday(year: i32, month: u32, day: u32) -> Option<u32> {
    if valid_date(year, month, day) {
        Some(weekday_number(year as int, month as int, day as int) as u32)
    } else {
        None
    }
}

/// chrono's `NaiveDate::from_ymd_opt`, then `Datelike::weekday` and
/// `Weekday::num_days_from_monday`: the day of the week of a date in the
/// proleptic Gregorian calendar, or `None` where chrono rejects the date.
/// Claimed: chrono accepts exactly the dates of `valid_date` (years from
/// `MIN_YEAR` to `MAX_YEAR`, months 1 to 12, days up to the month's length
/// with the Gregorian leap rule), and the result is their day of the week,
/// as `calendar_weekday` computes it.
#[verifier::external_body]
fn weekday_of_date(year: i32, month: u32, day: u32) -> (w: Option<u32>)
    ensures
        w == calendar_weekday(year, month, day),
{
    match chrono::NaiveDate::from_ymd_opt(year, month, day) {
        Some(date) => Some(chrono::Datelike::weekday(&date).num_days_from_monday()),
        None => None,
    }
}

/// Whether chrono accepts an hour, minute, second and nanosecond as a time
/// of day: the nanosecond may reach into a leap second only at second 59.
pub open spec fn valid_time_of_day(hour: u32, min: u32, sec: u32, nano: u32) -> bool {
    &&& hour < 24
    &&& min < 60
    &&& sec < 60
    &&& nano < 2_000_000_000
    &&& nano >= 1_000_000_000 ==> sec == 59
}

/// The seconds since midnight of a time of day, or `None` where the values
/// are no valid time of day.
fn seconds_of_time(hour: u32, min: u32, sec: u32, nano: u32) -> (secs: Option<u32>)
    ensures
        secs == if valid_time_of_day(hour, min, sec, nano) {
            Some((hour * 3600 + min * 60 + sec) as u32)
        } else {
            None
        },
{
    if hour < 24 && min < 60 && sec < 60 && nano < 2_000_000_000 && (nano < 1_000_000_000 || sec
        == 59) {
        Some(hour * 3600 + min * 60 + sec)
    } else {
        None
    }
}

/// The day with this number, counted from Monday (0).
pub open spec fn weekday_at(n: u32) -> Weekday {
    if n == 0 {
        Weekday::Mon
    } else if n == 1 {
        Weekday::Tue
    } else if n == 2 {
        Weekday::Wed
    } else if n == 3 {
        Weekday::Thu
    } else if n == 4 {
        Weekday::Fri
    } else if n == 5 {
        Weekday::Sat
    } else {
        Weekday::Sun
    }
}

/// The local time at a calendar date and time of day, or `None` where the
/// date does not exist or the time of day is invalid.
pub open spec fn local_time_at(
    year: i32,
    month: u32,
    day: u32,
    hour: u32,
    min: u32,
    sec: u32,
    nano: u32,
) -> Option<LocalTime> {
    match calendar_weekday(year, month, day) {
        Some(w) => if valid_time_of_day(hour, min, sec, nano) {
            Some(
                LocalTime {
                    weekday: weekday_at(w),
                    seconds: (hour * 3600 + min * 60 + sec) as u32,
                    nanos: nano,
                },
            )
        } else {
            None
        },
        None => None,
    }
}

impl Weekday {
    /// The day with this number, counted from Monday (0).
    pub fn from_index(n: u32) -> (d: Weekday)
        requires
            n < 7,
        ensures
            d == weekday_at(n),
            d.index() == n,
    {
        if n == 0 {
            Weekday::Mon
        } else if n == 1 {
            Weekday::Tue
        } else if n == 2 {
            Weekday::Wed
        } else if n == 3 {
            Weekday::Thu
        } else if n == 4 {
            Weekday::Fri
        } else if n == 5 {
            Weekday::Sat
        } else {
            Weekday::Sun
        }
    }
}

impl LocalTime {
    /// The local time at a calendar date (proleptic Gregorian) and a time of
    /// day, as chrono reads them.
    pub fn from_calendar(
        year: i32,
        month: u32,
        day: u32,
        hour: u32,
        min: u32,
        sec: u32,
        nano: u32,
    ) -> (t: Option<LocalTime>)
        ensures
            t == local_time_at(year, month, day, hour, min, sec, nano),
    {
        match weekday_of_date(year, month, day) {
            Some(w) => match seconds_of_time(hour, min, sec, nano) {
                Some(seconds) => Some(
                    LocalTime { weekday: Weekday::from_index(w), seconds, nanos: nano },
                ),
                None => None,
            },
            None => None,
        }
    }
}

/// The preset in force at each time of a day's set points; a later set
/// point at the same time replaces an earlier one.
pub open spec fn map_of(points: Seq<SetPoint>) -> Map<u32, PresetName>
    decreases points.len(),
{
    if points.len() == 0 {
        Map::empty()
    } else {
        map_of(points.drop_last()).insert(points.last().time, points.last().preset)
    }
}

/// Whether the days of an entry include the day with index `d`.
pub open spec fn covers(days: DaysOfWeek, d: int) -> bool {
    exists|k: int| 0 <= k < days_of(days).len() && days_of(days)[k].index() == d
}

/// A week with no set points.
pub open spec fn empty_week() -> Seq<Map<u32, PresetName>> {
    Seq::new(7, |d: int| Map::<u32, PresetName>::empty())
}

/// Lay one schedule entry over a week: on each day it covers, its set
/// points replace those at the same times.
pub open spec fn apply_entry(week: Seq<Map<u32, PresetName>>, entry: ScheduleEntry) -> Seq<
    Map<u32, PresetName>,
> {
    Seq::new(
        7,
        |d: int|
            if covers(entry.days_of_week, d) {
                week[d].union_prefer_right(map_of(entry.set_points@))
            } else {
                week[d]
            },
    )
}

/// The week that a list of schedule entries describes, each entry laid
/// over those before it. Day 0 is Monday.
pub open spec fn week_of(entries: Seq<ScheduleEntry>) -> Seq<Map<u32, PresetName>>
    decreases entries.len(),
{
    if entries.len() == 0 {
        empty_week()
    } else {
        apply_entry(week_of(entries.drop_last()), entries.last())
    }
}

/// End of the window in which a set point at `t` counts as reached: `t`
/// plus `max_age` seconds. Near midnight the window runs to the end of the
/// day.
pub open spec fn window_end(t: u32, max_age: u32) -> int {
    t + max_age
}

/// Whether the set point at `t` counts as reached at `now`: `now` is at or
/// after `t` and not after the end of its window.
pub open spec fn reached(t: u32, now: LocalTime, max_age: u32) -> bool {
    &&& now.seconds >= t
    &&& now.seconds < window_end(t, max_age) || (now.seconds == window_end(t, max_age)
        && now.nanos == 0)
}

/// The set point that a schedule reported last.
#[derive(Debug, Clone, Copy, PartialEq, Eq, Structural)]
pub struct ReportedSetPoint {
    pub weekday: Weekday,
    /// Seconds since midnight of the set point.
    pub time: u32,
    pub preset: PresetName,
}

/// Abstract state of a `Schedule`.
pub struct ScheduleModel {
    /// Set points of each day of the week, Monday first.
    pub days: Seq<Map<u32, PresetName>>,
    pub max_age: u32,
    /// The set point reported last, while its window may still be open.
    pub last_set_point: Option<ReportedSetPoint>,
}

/// Whether the set point reported last is still within its window at
/// `now`, so that it must not be reported again.
pub open spec fn still_reported(s: ScheduleModel, now: LocalTime) -> bool {
    s.last_set_point matches Some(l) && l.weekday == now.weekday && reached(
        l.time,
        now,
        s.max_age,
    )
}

/// What a call of `get_preset` at `now` does. While the set point reported
/// last is still within its window, nothing is reported and nothing
/// changes. Otherwise a set point of the day that `now` has reached is
/// reported and remembered, or, where there is none, nothing is reported
/// and the record is cleared. Which of several reached set points is
/// reported is left open.
pub open spec fn get_preset_post(
    before: ScheduleModel,
    now: LocalTime,
    r: Option<PresetName>,
    after: ScheduleModel,
) -> bool {
    let day = before.days[now.weekday.index()];
    if still_reported(before, now) {
        r is None && after == before
    } else {
        match r {
            Some(p) => exists|t: u32|
                #![trigger day[t]]
                day.contains_key(t) && reached(t, now, before.max_age) && day[t] == p && after
                    == (ScheduleModel {
                    last_set_point: Some(
                        ReportedSetPoint { weekday: now.weekday, time: t, preset: p },
                    ),
                    ..before
                }),
            None => (forall|t: u32|
                #![trigger day[t]]
                day.contains_key(t) ==> !reached(t, now, before.max_age)) && after == (
            ScheduleModel { last_set_point: None, ..before }),
        }
    }
}

/// A weekly schedule of preset set points.
#[derive(Debug)]
pub struct Schedule {
    /// The set points of each day, keyed by their time; Monday first.
    days: Vec<HashMap<u32, PresetName>>,
    max_age: u32,
    last_set_point: Option<ReportedSetPoint>,
}

/// The maps of the days of a week.
pub open spec fn week_view(days: Seq<HashMap<u32, PresetName>>) -> Seq<Map<u32, PresetName>> {
    days.map_values(|m: HashMap<u32, PresetName>| m@)
}

impl View for Schedule {
    type V = ScheduleModel;

    closed spec fn view(&self) -> ScheduleModel {
        ScheduleModel {
            days: week_view(self.days@),
            max_age: self.max_age,
            last_set_point: self.last_set_point,
        }
    }
}

impl Schedule {
    #[verifier::type_invariant]
    spec fn wf(self) -> bool {
        self.days@.len() == 7
    }
}

/// Lay the set points of an entry over a day; a later set point at the
/// same time replaces an earlier one.
fn apply_points(day: &mut HashMap<u32, PresetName>, points: &Vec<SetPoint>)
    ensures
        final(day)@ == old(day)@.union_prefer_right(map_of(points@)),
{
    broadcast use vstd::std_specs::hash::group_hash_axioms;

    let n = points.len();
    for j in 0..n
        invariant
            n == points@.len(),
            day@ == old(day)@.union_prefer_right(map_of(points@.take(j as int))),
    {
        let point = points[j];
        day.insert(point.time, point.preset);
        proof {
            let tk = points@.take(j + 1);
            assert(tk.drop_last() =~= points@.take(j as int));
            assert(day@ =~= old(day)@.union_prefer_right(map_of(tk)));
        }
    }
    assert(points@.take(n as int) =~= points@);
}

/// Lay a schedule entry over a week.
fn apply_to_week(days: &mut Vec<HashMap<u32, PresetName>>, entry: &ScheduleEntry)
    requires
        old(days)@.len() == 7,
    ensures
        final(days)@.len() == 7,
        week_view(final(days)@) == apply_entry(week_view(old(days)@), *entry),
{
    let ghost prev = week_view(days@);
    let ghost m = map_of(entry.set_points@);
    let list = entry.days_of_week.normalize();
    let n = list.len();
    for k in 0..n
        invariant
            n == list@.len(),
            list@ == days_of(entry.days_of_week),
            prev == week_view(old(days)@),
            m == map_of(entry.set_points@),
            days@.len() == 7,
            forall|d: int|
                #![trigger days@[d]]
                0 <= d < 7 ==> days@[d]@ == if exists|j: int|
                    0 <= j < k && list@[j].index() == d {
                    prev[d].union_prefer_right(m)
                } else {
                    prev[d]
                },
    {
        let d = list[k].num_days_from_monday();
        let ghost start = days@[d as int]@;
        let mut day: HashMap<u32, PresetName> = HashMap::new();
        days.set_and_swap(d, &mut day);
        apply_points(&mut day, &entry.set_points);
        days.set_and_swap(d, &mut day);
        proof {
            assert(days@[d as int]@ == start.union_prefer_right(m));
            assert(prev[d as int].union_prefer_right(m).union_prefer_right(m) =~= prev[
                d as int].union_prefer_right(m));
            assert forall|e: int|
                #![trigger days@[e]]
                0 <= e < 7 implies days@[e]@ == if exists|j: int|
                    0 <= j < k + 1 && list@[j].index() == e {
                    prev[e].union_prefer_right(m)
                } else {
                    prev[e]
                } by {
                if e == d {
                    assert(list@[k as int].index() == e);
                } else {
                    if exists|j: int| 0 <= j < k + 1 && list@[j].index() == e {
                        let j = choose|j: int| 0 <= j < k + 1 && list@[j].index() == e;
                        assert(j < k);
                    }
                }
            }
        }
    }
    proof {
        assert(week_view(days@) =~= apply_entry(prev, *entry)) by {
            assert forall|d: int| 0 <= d < 7 implies #[trigger] week_view(days@)[d] == apply_entry(
                prev,
                *entry,
            )[d] by {
                assert((exists|j: int| 0 <= j < n && list@[j].index() == d) == covers(
                    entry.days_of_week,
                    d,
                ));
            }
        }
    }
}

/// The seven days of the week that the entries describe, each entry laid
/// over those before it.
fn week_schedule(schedule: &[ScheduleEntry]) -> (days: Vec<HashMap<u32, PresetName>>)
    ensures
        days@.len() == 7,
        week_view(days@) == week_of(schedule@),
{
    let mut days: Vec<HashMap<u32, PresetName>> = Vec::new();
    for d in 0..7usize
        invariant
            days@.len() == d,
            forall|e: int| 0 <= e < d ==> (#[trigger] days@[e])@ == Map::<u32, PresetName>::empty(),
    {
        days.push(HashMap::new());
    }
    proof {
        assert(week_view(days@) =~= week_of(schedule@.take(0)));
    }
    let n = schedule.len();
    for i in 0..n
        invariant
            n == schedule@.len(),
            days@.len() == 7,
            week_view(days@) == week_of(schedule@.take(i as int)),
    {
        apply_to_week(&mut days, &schedule[i]);
        proof {
            let tk = schedule@.take(i + 1);
            assert(tk.drop_last() =~= schedule@.take(i as int));
            assert(tk.last() == schedule@[i as int]);
        }
    }
    assert(schedule@.take(n as int) =~= schedule@);
    days
}

impl Schedule {
    /// The schedule that the entries describe; later entries overlap
    /// earlier ones.
    pub fn new(schedule: &[ScheduleEntry]) -> (s: Self)
        ensures
            s@ == (ScheduleModel {
                days: week_of(schedule@),
                max_age: MAX_AGE,
                last_set_point: None,
            }),
    {
        Schedule { days: week_schedule(schedule), max_age: MAX_AGE, last_set_point: None }
    }

    /// The preset of a set point that `now` has reached, unless the set
    /// point reported last is still within its window.
    pub fn get_preset(&mut self, now: LocalTime) -> (r: Option<PresetName>)
        ensures
            get_preset_post(old(self)@, now, r, final(self)@),
    {
        proof {
            use_type_invariant(&*self);
        }
        let seconds = now.seconds as u64;
        let max_age = self.max_age as u64;
        if let Some(last) = self.last_set_point {
            let end = last.time as u64 + max_age;
            if last.weekday == now.weekday && seconds >= last.time as u64 && (seconds < end || (
            seconds == end && now.nanos == 0)) {
                return None;
            }
        }
        let d = now.weekday.num_days_from_monday();
        let day = &self.days[d];
        let mut found: Option<(u32, PresetName)> = None;
        broadcast use vstd::std_specs::hash::group_hash_axioms;

        for entry in it: day.iter()
            invariant
                day@ == old(self)@.days[now.weekday.index()],
                seconds == now.seconds,
                max_age == old(self)@.max_age,
                it.seq() == spec_hash_map_iter(day).remaining(),
                found is None ==> forall|j: int|
                    #![trigger it.seq()[j]]
                    0 <= j < it.index() ==> !reached(*it.seq()[j].0, now, max_age as u32),
                found matches Some((t, p)) ==> day@.contains_key(t) && day@[t] == p && reached(
                    t,
                    now,
                    max_age as u32,
                ),
        {
            let (time, preset) = entry;
            let end = *time as u64 + max_age;
            if found.is_none() && seconds >= *time as u64 && (seconds < end || (seconds == end
                && now.nanos == 0)) {
                found = Some((*time, *preset));
            }
        }
        match found {
            Some((time, preset)) => {
                self.last_set_point = Some(
                    ReportedSetPoint { weekday: now.weekday, time, preset },
                );
                Some(preset)
            },
            None => {
                self.last_set_point = None;
                None
            },
        }
    }
}

} // verus!
