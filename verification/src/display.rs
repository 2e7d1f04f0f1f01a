//! The display of a forecast: the conditions of the present moment, the
//! hourly outlook and the daily outlook, under the name of the location.

use crate::clock::{clock_text, same_hour, seconds_past_hour, LocalInstant};
use crate::error::ForecastError;
use crate::forecast::{
    daily_records, hourly_records, DailyForecastWithDateTime, DailyRecord,
    HourlyForecastWithDateTime, HourlyRecord, WeatherResponse,
};
use crate::icons::IconTable;
use crate::outlook::{
    ascending, at_most, daily_entry, daily_outlook, daily_outlook_of, daily_views, daily_window,
    hourly_entry, hourly_outlook, hourly_outlook_of, hourly_views, hourly_window,
    lemma_daily_window, lemma_window_ascending, lemma_window_len, lemma_window_not_before,
    not_before, upcoming_hours, DailyForecast, DailyForecastView, HourlyForecast, HourlyForecastView,
    DAILY_WINDOW, HOURLY_WINDOW,
};
use crate::text::{first_segment, first_segment_string};
use vstd::prelude::*;

verus! {

/// The conditions of the present moment.
#[derive(Clone, Debug, PartialEq, Eq)]
pub struct CurrentForecast {
    /// The local time on a twelve-hour clock, as in `3:07 PM`.
    pub time: String,
    /// Today's high, in whole degrees.
    pub temp_max: i32,
    /// Today's low, in whole degrees.
    pub temp_min: i32,
    /// The temperature of the current hour, in whole degrees.
    pub temp: i32,
}

/// A forecast ready for display.
#[derive(Clone, Debug, PartialEq, Eq)]
pub struct WeatherDisplay {
    /// The name of the location: the first segment of its full name.
    pub display_name: String,
    pub current: CurrentForecast,
    /// The hours from the current local hour on, twenty-four at most.
    pub hourly: Vec<HourlyForecast>,
    /// The days after today, five at most.
    pub daily: Vec<DailyForecast>,
}

/// What a `CurrentForecast` holds, as plain mathematics.
pub struct CurrentForecastView {
    pub time: Seq<char>,
    pub temp_max: int,
    pub temp_min: int,
    pub temp: int,
}

/// What a `WeatherDisplay` holds, as plain mathematics.
pub struct WeatherDisplayView {
    pub display_name: Seq<char>,
    pub current: CurrentForecastView,
    pub hourly: Seq<HourlyForecastView>,
    pub daily: Seq<DailyForecastView>,
}

impl View for CurrentForecast {
    type V = CurrentForecastView;

    open spec fn view(&self) -> CurrentForecastView {
        CurrentForecastView {
            time: self.time@,
            temp_max: self.temp_max as int,
            temp_min: self.temp_min as int,
            temp: self.temp as int,
        }
    }
}

impl View for WeatherDisplay {
    type V = WeatherDisplayView;

    open spec fn view(&self) -> WeatherDisplayView {
        WeatherDisplayView {
            display_name: self.display_name@,
            current: self.current@,
            hourly: hourly_views(self.hourly@),
            daily: daily_views(self.daily@),
        }
    }
}

/// How many hours at the head of the series lie outside the hour of `now`;
/// the length of the series where none lies in it.
pub open spec fn hours_before_current(hours: Seq<HourlyRecord>, now: int) -> nat
    decreases hours.len(),
{
    if hours.len() == 0 || same_hour(hours.first().date, now) {
        0
    } else {
        1 + hours_before_current(hours.drop_first(), now)
    }
}

/// The first hour of the series that agrees with `now` on year, month, day
/// and hour, if there is one.
pub open spec fn current_hour(hours: Seq<HourlyRecord>, now: int) -> Option<HourlyRecord> {
    let before = hours_before_current(hours, now);
    if before < hours.len() {
        Some(hours[before as int])
    } else {
        None
    }
}

/// The conditions of the moment `now`: its time, the temperature of its hour,
/// and the high and the low of the first day of the series, which is today.
pub open spec fn current_of(
    now: int,
    hours: Seq<HourlyRecord>,
    days: Seq<DailyRecord>,
) -> Result<CurrentForecastView, ForecastError> {
    if days.len() == 0 {
        Err(ForecastError::EmptyDailySeries)
    } else {
        match current_hour(hours, now) {
            None => Err(ForecastError::MissingCurrentHour),
            Some(hour) => Ok(
                CurrentForecastView {
                    time: clock_text(now),
                    temp_max: days[0].temperature_max.truncated(),
                    temp_min: days[0].temperature_min.truncated(),
                    temp: hour.temperature.truncated(),
                },
            ),
        }
    }
}

/// The display of the raw forecast `raw` for the location named `name`, with
/// the icons of `icons`; or the first reason, in the order of the checks, why
/// there is none: series whose sequences differ in length, an instant that
/// the calendar has no date for, an empty daily series, no entry for the
/// current hour, a condition without an icon in one of the outlooks.
pub open spec fn display_of(
    raw: WeatherResponse,
    name: Seq<char>,
    icons: Map<Seq<char>, Seq<char>>,
) -> Result<WeatherDisplayView, ForecastError> {
    let hours = raw.hourly.records(raw.utc_offset_seconds);
    let days = raw.daily.records(raw.utc_offset_seconds);
    if !raw.aligned() {
        Err(ForecastError::MalformedSeries)
    } else if !raw.in_range() {
        Err(ForecastError::TimeOutOfRange)
    } else {
        match current_of(raw.now_local(), hours, days) {
            Err(e) => Err(e),
            Ok(current) => match hourly_outlook_of(hours, raw.this_hour_local(), icons) {
                Err(e) => Err(e),
                Ok(hourly) => match daily_outlook_of(days, icons) {
                    Err(e) => Err(e),
                    Ok(daily) => Ok(
                        WeatherDisplayView {
                            display_name: first_segment(name),
                            current,
                            hourly,
                            daily,
                        },
                    ),
                },
            },
        }
    }
}

/// What the result of building the current conditions stands for in contracts.
pub open spec fn current_result_view(
    current: Result<CurrentForecast, ForecastError>,
) -> Result<CurrentForecastView, ForecastError> {
    match current {
        Ok(c) => Ok(c@),
        Err(e) => Err(e),
    }
}

/// What the result of building a display stands for in contracts.
pub open spec fn display_result_view(
    display: Result<WeatherDisplay, ForecastError>,
) -> Result<WeatherDisplayView, ForecastError> {
    match display {
        Ok(d) => Ok(d@),
        Err(e) => Err(e),
    }
}

/// The hours before index `n` lie outside the hour of `now`, and the hour at
/// `n`, if there is one, lies in it: then `n` hours stand before the current
/// one.
proof fn lemma_hours_before_current(hours: Seq<HourlyRecord>, now: int, n: int)
    requires
        0 <= n <= hours.len(),
        forall|i: int| 0 <= i < n ==> !same_hour((#[trigger] hours[i]).date, now),
        n == hours.len() || same_hour(hours[n].date, now),
    ensures
        hours_before_current(hours, now) == n,
    decreases n,
{
    if n > 0 {
        let rest = hours.drop_first();
        assert(!same_hour(hours[0].date, now));
        assert forall|i: int| 0 <= i < n - 1 implies !same_hour(
            (#[trigger] rest[i]).date,
            now,
        ) by {
            assert(rest[i] == hours[i + 1]);
        }
        lemma_hours_before_current(rest, now, n - 1);
    }
}

/// The hourly outlook of a display shows the window of the hourly series, hour
/// by hour; none of its hours lies before the start of the current local
/// hour; and where the series stands in the order of its instants, so does the
/// outlook.
pub proof fn lemma_hourly_outlook_from_this_hour(
    raw: WeatherResponse,
    name: Seq<char>,
    icons: Map<Seq<char>, Seq<char>>,
)
    requires
        display_of(raw, name, icons) is Ok,
    ensures
        ({
            let shown = display_of(raw, name, icons).unwrap().hourly;
            let hours = raw.hourly.records(raw.utc_offset_seconds);
            let window = hourly_window(hours, raw.this_hour_local());
            &&& shown.len() == window.len()
            &&& forall|k: int|
                0 <= k < shown.len() ==> #[trigger] shown[k] == hourly_entry(window[k], icons)
            &&& forall|k: int|
                0 <= k < window.len() ==> (#[trigger] window[k]).date >= raw.this_hour_local()
            &&& ascending(hours) ==> ascending(window)
        }),
{
    let hours = raw.hourly.records(raw.utc_offset_seconds);
    lemma_window_not_before(hours, raw.this_hour_local());
    if ascending(hours) {
        lemma_window_ascending(hours, raw.this_hour_local());
    }
}

/// The hourly outlook of a display holds as many hours as the series has from
/// the start of the current local hour on, and no more than twenty-four.
pub proof fn lemma_hourly_outlook_len(
    raw: WeatherResponse,
    name: Seq<char>,
    icons: Map<Seq<char>, Seq<char>>,
)
    requires
        display_of(raw, name, icons) is Ok,
    ensures
        display_of(raw, name, icons).unwrap().hourly.len() == at_most(
            upcoming_hours(
                raw.hourly.records(raw.utc_offset_seconds),
                raw.this_hour_local(),
            ).len(),
            HOURLY_WINDOW as nat,
        ),
{
    lemma_window_len(raw.hourly.records(raw.utc_offset_seconds), raw.this_hour_local());
}

/// The daily outlook of a display leaves out the first day of the series and
/// shows the days that follow it, five at most.
pub proof fn lemma_daily_outlook_after_today(
    raw: WeatherResponse,
    name: Seq<char>,
    icons: Map<Seq<char>, Seq<char>>,
)
    requires
        display_of(raw, name, icons) is Ok,
    ensures
        ({
            let shown = display_of(raw, name, icons).unwrap().daily;
            let days = raw.daily.records(raw.utc_offset_seconds);
            &&& days.len() >= 1
            &&& shown.len() == at_most((days.len() - 1) as nat, DAILY_WINDOW as nat)
            &&& forall|k: int|
                0 <= k < shown.len() ==> #[trigger] shown[k] == daily_entry(days[k + 1], icons)
        }),
{
    let days = raw.daily.records(raw.utc_offset_seconds);
    lemma_daily_window(days);
    let window = daily_window(days);
    let shown = display_of(raw, name, icons).unwrap().daily;
    assert forall|k: int| 0 <= k < shown.len() implies #[trigger] shown[k] == daily_entry(
        days[k + 1],
        icons,
    ) by {
        assert(window[k] == days[k + 1]);
    }
}

/// At a location whose offset is a whole number of hours, the hour that gives
/// the current temperature is one of the upcoming hours.
pub proof fn lemma_current_hour_is_upcoming(raw: WeatherResponse)
    requires
        raw.utc_offset_seconds % 3_600 == 0,
        current_hour(raw.hourly.records(raw.utc_offset_seconds), raw.now_local()) is Some,
    ensures
        upcoming_hours(raw.hourly.records(raw.utc_offset_seconds), raw.this_hour_local()).contains(
            current_hour(raw.hourly.records(raw.utc_offset_seconds), raw.now_local()).unwrap(),
        ),
{
    let hours = raw.hourly.records(raw.utc_offset_seconds);
    let now = raw.now_local();
    let from = raw.this_hour_local();
    lemma_current_hour(hours, now);
    raw.lemma_this_hour_local();
    let n = hours_before_current(hours, now) as int;
    let date = hours[n].date;
    assert(date >= from) by (nonlinear_arith)
        requires
            date / 3_600 == now / 3_600,
            from == now - now % 3_600,
    ;
    assert(not_before(from)(hours[n]));
    hours.lemma_filter_contains(not_before(from), n);
}

/// A display exists exactly when the series are aligned, the calendar has a
/// date for every instant, the daily series is not empty, an hour of the
/// hourly series lies in the current local hour, and every condition of the
/// two outlooks has an icon; each failure has its own error.
pub proof fn lemma_display_failures(
    raw: WeatherResponse,
    name: Seq<char>,
    icons: Map<Seq<char>, Seq<char>>,
)
    ensures
        ({
            let hours = raw.hourly.records(raw.utc_offset_seconds);
            let days = raw.daily.records(raw.utc_offset_seconds);
            let result = display_of(raw, name, icons);
            let sound = raw.aligned() && raw.in_range();
            &&& result == Err::<WeatherDisplayView, ForecastError>(ForecastError::MalformedSeries)
                <==> !raw.aligned()
            &&& result == Err::<WeatherDisplayView, ForecastError>(ForecastError::TimeOutOfRange)
                <==> raw.aligned() && !raw.in_range()
            &&& result == Err::<WeatherDisplayView, ForecastError>(ForecastError::EmptyDailySeries)
                <==> sound && days.len() == 0
            &&& result == Err::<WeatherDisplayView, ForecastError>(
                ForecastError::MissingCurrentHour,
            ) <==> sound && days.len() > 0 && forall|i: int|
                0 <= i < hours.len() ==> !same_hour(
                    (#[trigger] hours[i]).date,
                    raw.now_local(),
                )
        }),
{
    let hours = raw.hourly.records(raw.utc_offset_seconds);
    let now = raw.now_local();
    lemma_current_hour(hours, now);
}

/// The current hour is the first hour of the series in the hour of `now`, and
/// there is none exactly when no hour of the series lies in it.
pub proof fn lemma_current_hour(hours: Seq<HourlyRecord>, now: int)
    ensures
        hours_before_current(hours, now) <= hours.len(),
        forall|i: int|
            0 <= i < hours_before_current(hours, now) ==> !same_hour(
                (#[trigger] hours[i]).date,
                now,
            ),
        hours_before_current(hours, now) < hours.len() ==> same_hour(
            hours[hours_before_current(hours, now) as int].date,
            now,
        ),
        current_hour(hours, now) is None <==> forall|i: int|
            0 <= i < hours.len() ==> !same_hour((#[trigger] hours[i]).date, now),
    decreases hours.len(),
{
    if hours.len() == 0 || same_hour(hours.first().date, now) {
    } else {
        let rest = hours.drop_first();
        lemma_current_hour(rest, now);
        let n = hours_before_current(rest, now);
        assert forall|i: int| 0 <= i < n + 1 implies !same_hour(
            (#[trigger] hours[i]).date,
            now,
        ) by {
            if i > 0 {
                assert(hours[i] == rest[i - 1]);
            }
        }
        if n < rest.len() {
            assert(rest[n as int] == hours[n as int + 1]);
        }
    }
}

/// Builds the conditions of the moment `now`.
pub fn current_conditions(
    now: &LocalInstant,
    hours: &Vec<HourlyForecastWithDateTime>,
    days: &Vec<DailyForecastWithDateTime>,
) -> (current: Result<CurrentForecast, ForecastError>)
    ensures
        current_result_view(current) == current_of(
            now@,
            hourly_records(hours@),
            daily_records(days@),
        ),
{
    if days.len() == 0 {
        return Err(ForecastError::EmptyDailySeries);
    }
    let today = days[0];
    let ghost records = hourly_records(hours@);
    let n = hours.len();
    let mut i: usize = 0;
    while i < n && !hours[i].date.in_same_hour(now)
        invariant
            n == hours@.len(),
            records == hourly_records(hours@),
            i <= n,
            forall|j: int| 0 <= j < i ==> !same_hour((#[trigger] records[j]).date, now@),
        decreases n - i,
    {
        assert(records[i as int] == hours@[i as int]@);
        i += 1;
    }
    proof {
        if i < n {
            assert(records[i as int] == hours@[i as int]@);
        }
        lemma_hours_before_current(records, now@, i as int);
        assert(daily_records(days@)[0] == today@);
    }
    if i == n {
        return Err(ForecastError::MissingCurrentHour);
    }
    Ok(
        CurrentForecast {
            time: now.clock_time(),
            temp_max: today.temperature_max.truncate(),
            temp_min: today.temperature_min.truncate(),
            temp: hours[i].temperature.truncate(),
        },
    )
}

impl WeatherDisplay {
    /// Builds the display of a raw forecast for the location whose full name
    /// is `display_name`, with the icons of `weather_code_to_href`.
    pub fn new(
        weather_data: &WeatherResponse,
        display_name: &String,
        weather_code_to_href: &IconTable,
    ) -> (display: Result<WeatherDisplay, ForecastError>)
        ensures
            display_result_view(display) == display_of(
                *weather_data,
                display_name@,
                weather_code_to_href@,
            ),
            display matches Ok(shown) ==> {
                &&& shown.hourly@.len() == at_most(
                    upcoming_hours(
                        weather_data.hourly.records(weather_data.utc_offset_seconds),
                        weather_data.this_hour_local(),
                    ).len(),
                    HOURLY_WINDOW as nat,
                )
                &&& shown.daily@.len() == at_most(
                    (weather_data.daily.time@.len() - 1) as nat,
                    DAILY_WINDOW as nat,
                )
            },
    {
        proof {
            if display_of(*weather_data, display_name@, weather_code_to_href@) is Ok {
                lemma_hourly_outlook_len(*weather_data, display_name@, weather_code_to_href@);
                lemma_daily_outlook_after_today(
                    *weather_data,
                    display_name@,
                    weather_code_to_href@,
                );
            }
        }
        let offset = weather_data.utc_offset_seconds;
        if !weather_data.is_aligned() {
            return Err(ForecastError::MalformedSeries);
        }
        let now = match LocalInstant::new(weather_data.current.time, offset) {
            Some(now) => now,
            None => {
                return Err(ForecastError::TimeOutOfRange);
            },
        };
        let hours = match weather_data.hourly.local_records(offset) {
            Ok(hours) => hours,
            Err(e) => {
                return Err(e);
            },
        };
        let days = match weather_data.daily.local_records(offset) {
            Ok(days) => days,
            Err(e) => {
                return Err(e);
            },
        };
        let this_hour = now.seconds() - seconds_past_hour(weather_data.current.time);
        let current = match current_conditions(&now, &hours, &days) {
            Ok(current) => current,
            Err(e) => {
                return Err(e);
            },
        };
        let hourly = match hourly_outlook(&hours, this_hour, weather_code_to_href) {
            Ok(hourly) => hourly,
            Err(e) => {
                return Err(e);
            },
        };
        let daily = match daily_outlook(&days, weather_code_to_href) {
            Ok(daily) => daily,
            Err(e) => {
                return Err(e);
            },
        };
        Ok(
            WeatherDisplay {
                display_name: first_segment_string(display_name.as_str()),
                current,
                hourly,
                daily,
            },
        )
    }
}

} // verus!
