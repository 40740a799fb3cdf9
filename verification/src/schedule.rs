//! Weekly preset schedule.

mod schedule_model;
mod schedule_options;

pub use schedule_options::{
    DaysOfWeek, ScheduleEntry, SetPoint, WeekDay, WeekDayRange, Weekday, days_of, range_days,
    weekday_of,
};
pub use schedule_model::{
    LocalTime, MAX_AGE, ReportedSetPoint, Schedule, ScheduleModel, apply_entry,
    MAX_YEAR, MIN_YEAR, calendar_weekday, covers, days_in_month, is_leap_year, valid_date,
    weekday_number, empty_week, get_preset_post, local_time_at, still_reported,
    valid_time_of_day, weekday_at, map_of, reached, week_of, week_view, window_end,
};
