use vstd::prelude::*;
use crate::state::PresetName;

verus! {

/// Day of the week, as the system calendar reports it.
#[derive(Debug, Clone, Copy, PartialEq, Eq, Structural)]
pub enum Weekday {
    Mon,
    Tue,
    Wed,
    Thu,
    Fri,
    Sat,
    Sun,
}

impl Weekday {
    /// Days since Monday: Monday is 0, Sunday is 6.
    pub open spec fn index(self) -> int {
        match self {
            Weekday::Mon => 0,
            Weekday::Tue => 1,
            Weekday::Wed => 2,
            Weekday::Thu => 3,
            Weekday::Fri => 4,
            Weekday::Sat => 5,
            Weekday::Sun => 6,
        }
    }

    pub fn num_days_from_monday(&self) -> (n: usize)
        ensures
            n == self.index(),
            n < 7,
    {
        match self {
            Weekday::Mon => 0,
            Weekday::Tue => 1,
            Weekday::Wed => 2,
            Weekday::Thu => 3,
            Weekday::Fri => 4,
            Weekday::Sat => 5,
            Weekday::Sun => 6,
        }
    }
}

/// Schedule
///
/// ```toml
/// [[schedule]]
/// days_of_week = "EveryDay"
/// set_points = [
///    { time = "08:00", preset = "Home" },
///    { time = "22:00", preset = "Sleep" },
/// ]
/// ```
///
/// You can define more than one schedule entry, and it will overlap the
/// previous.
#[derive(Debug, Clone, PartialEq, Eq)]
pub struct ScheduleEntry {
    /// Days of the week: one of "EveryDay", "WeekDays", "WeekEnd", or a
    /// list of weekdays.
    pub days_of_week: DaysOfWeek,
    /// List of set points with time of day and name of preset
    pub set_points: Vec<SetPoint>,
}

#[derive(Debug, Clone, PartialEq, Eq)]
pub enum DaysOfWeek {
    Range(WeekDayRange),
    List(Vec<WeekDay>),
}

/// The days that a range names, Monday first.
pub open spec fn range_days(range: WeekDayRange) -> Seq<Weekday> {
    match range {
        WeekDayRange::EveryDay => seq![
            Weekday::Mon, Weekday::Tue, Weekday::Wed, Weekday::Thu, Weekday::Fri,
            Weekday::Sat, Weekday::Sun,
        ],
        WeekDayRange::WeekDays => seq![
            Weekday::Mon, Weekday::Tue, Weekday::Wed, Weekday::Thu, Weekday::Fri,
        ],
        WeekDayRange::WeekEnd => seq![Weekday::Sat, Weekday::Sun],
    }
}

/// The calendar day that a configured weekday names.
pub open spec fn weekday_of(d: WeekDay) -> Weekday {
    match d {
        WeekDay::Mon => Weekday::Mon,
        WeekDay::Tue => Weekday::Tue,
        WeekDay::Wed => Weekday::Wed,
        WeekDay::Thur => Weekday::Thu,
        WeekDay::Fri => Weekday::Fri,
        WeekDay::Sat => Weekday::Sat,
        WeekDay::Sun => Weekday::Sun,
    }
}

/// The days of a `DaysOfWeek`, in the order they are listed.
pub open spec fn days_of(d: DaysOfWeek) -> Seq<Weekday> {
    match d {
        DaysOfWeek::List(days) => days@.map_values(|w: WeekDay| weekday_of(w)),
        DaysOfWeek::Range(range) => range_days(range),
    }
}

impl DaysOfWeek {
    pub fn normalize(&self) -> (days: Vec<Weekday>)
        ensures
            days@ == days_of(*self),
    {
        match self {
            DaysOfWeek::List(days) => {
                let mut out: Vec<Weekday> = Vec::new();
                let n = days.len();
                for i in 0..n
                    invariant
                        n == days@.len(),
                        out@ == days@.take(i as int).map_values(|w: WeekDay| weekday_of(w)),
                {
                    out.push(days[i].to_chrono());
                    assert(days@.take(i + 1).drop_last() =~= days@.take(i as int));
                    assert(out@ =~= days@.take(i + 1).map_values(|w: WeekDay| weekday_of(w)));
                }
                assert(days@.take(n as int) =~= days@);
                out
            },
            DaysOfWeek::Range(range) => match range {
                WeekDayRange::EveryDay => {
                    let v = vec![
                        Weekday::Mon, Weekday::Tue, Weekday::Wed, Weekday::Thu, Weekday::Fri,
                        Weekday::Sat, Weekday::Sun,
                    ];
                    assert(v@ =~= range_days(WeekDayRange::EveryDay));
                    v
                },
                WeekDayRange::WeekDays => {
                    let v = vec![
                        Weekday::Mon, Weekday::Tue, Weekday::Wed, Weekday::Thu, Weekday::Fri,
                    ];
                    assert(v@ =~= range_days(WeekDayRange::WeekDays));
                    v
                },
                WeekDayRange::WeekEnd => {
                    let v = vec![Weekday::Sat, Weekday::Sun];
                    assert(v@ =~= range_days(WeekDayRange::WeekEnd));
                    v
                },
            },
        }
    }
}

#[derive(Debug, Clone, Copy, PartialEq, Eq, Structural)]
pub enum WeekDayRange {
    EveryDay,
    WeekDays,
    WeekEnd,
}

#[derive(Debug, Clone, Copy, PartialEq, Eq, Structural)]
pub enum WeekDay {
    Mon,
    Tue,
    Wed,
    Thur,
    Fri,
    Sat,
    Sun,
}

impl WeekDay {
    /// The calendar day this configured weekday names.
    pub fn to_chrono(&self) -> (d: Weekday)
        ensures
            d == weekday_of(*self),
    {
        match self {
            WeekDay::Mon => Weekday::Mon,
            WeekDay::Tue => Weekday::Tue,
            WeekDay::Wed => Weekday::Wed,
            WeekDay::Thur => Weekday::Thu,
            WeekDay::Fri => Weekday::Fri,
            WeekDay::Sat => Weekday::Sat,
            WeekDay::Sun => Weekday::Sun,
        }
    }
}

/// A set point: at `time` (seconds since midnight, whole seconds) switch to
/// `preset`.
#[derive(Debug, Clone, Copy, PartialEq, Eq, Structural)]
pub struct SetPoint {
    pub time: u32,
    pub preset: PresetName,
}

} // verus!
