//! The two outlooks of a display: the hours from the current local hour on,
//! and the days after today.

use crate::clock::{date_text, hour_text};
use crate::error::ForecastError;
use crate::forecast::{
    daily_records, hourly_records, DailyForecastWithDateTime, DailyRecord,
    HourlyForecastWithDateTime, HourlyRecord,
};
use crate::icons::{daily_icon, daily_weather_icon, hourly_icon, hourly_weather_icon, IconTable};
use vstd::prelude::*;

verus! {

/// The most hours that the hourly outlook shows.
pub const HOURLY_WINDOW: usize = 24;

/// The most days that the daily outlook shows.
pub const DAILY_WINDOW: usize = 5;

/// One hour of the outlook, ready for display.
#[derive(Clone, Debug, PartialEq, Eq)]
pub struct HourlyForecast {
    /// The hour on a twelve-hour clock, as in `3 PM`.
    pub date: String,
    /// Whole degrees.
    pub temperature: i32,
    /// The icon reference of the condition.
    pub weather_code: String,
}

/// One day of the outlook, ready for display.
#[derive(Clone, Debug, PartialEq, Eq)]
pub struct DailyForecast {
    /// The date as month and day, as in `7/4`.
    pub date: String,
    /// Whole degrees.
    pub temperature_min: i32,
    /// Whole degrees.
    pub temperature_max: i32,
    /// The icon reference of the condition.
    pub weather_code: String,
}

/// What an `HourlyForecast` holds, as plain mathematics.
pub struct HourlyForecastView {
    pub date: Seq<char>,
    pub temperature: int,
    pub weather_code: Seq<char>,
}

/// What a `DailyForecast` holds, as plain mathematics.
pub struct DailyForecastView {
    pub date: Seq<char>,
    pub temperature_min: int,
    pub temperature_max: int,
    pub weather_code: Seq<char>,
}

impl View for HourlyForecast {
    type V = HourlyForecastView;

    open spec fn view(&self) -> HourlyForecastView {
        HourlyForecastView {
            date: self.date@,
            temperature: self.temperature as int,
            weather_code: self.weather_code@,
        }
    }
}

impl View for DailyForecast {
    type V = DailyForecastView;

    open spec fn view(&self) -> DailyForecastView {
        DailyForecastView {
            date: self.date@,
            temperature_min: self.temperature_min as int,
            temperature_max: self.temperature_max as int,
            weather_code: self.weather_code@,
        }
    }
}

/// The views of a sequence of hours of the outlook.
pub open spec fn hourly_views(outlook: Seq<HourlyForecast>) -> Seq<HourlyForecastView> {
    outlook.map_values(|h: HourlyForecast| h@)
}

/// The views of a sequence of days of the outlook.
pub open spec fn daily_views(outlook: Seq<DailyForecast>) -> Seq<DailyForecastView> {
    outlook.map_values(|d: DailyForecast| d@)
}

/// What the result of building the hourly outlook stands for in contracts.
pub open spec fn hourly_result_view(
    outlook: Result<Vec<HourlyForecast>, ForecastError>,
) -> Result<Seq<HourlyForecastView>, ForecastError> {
    match outlook {
        Ok(v) => Ok(hourly_views(v@)),
        Err(e) => Err(e),
    }
}

/// What the result of building the daily outlook stands for in contracts.
pub open spec fn daily_result_view(
    outlook: Result<Vec<DailyForecast>, ForecastError>,
) -> Result<Seq<DailyForecastView>, ForecastError> {
    match outlook {
        Ok(v) => Ok(daily_views(v@)),
        Err(e) => Err(e),
    }
}

/// The test that an hour does not lie before the instant `from`.
pub open spec fn not_before(from: int) -> spec_fn(HourlyRecord) -> bool {
    |hour: HourlyRecord| hour.date >= from
}

/// The hours that do not lie before `from`, in the order of the series.
pub open spec fn upcoming_hours(hours: Seq<HourlyRecord>, from: int) -> Seq<HourlyRecord> {
    hours.filter(not_before(from))
}

/// The smaller of a length and a bound.
pub open spec fn at_most(len: nat, bound: nat) -> nat {
    if len < bound {
        len
    } else {
        bound
    }
}

/// The hours of the outlook: the first twenty-four of the upcoming hours.
pub open spec fn hourly_window(hours: Seq<HourlyRecord>, from: int) -> Seq<HourlyRecord> {
    let upcoming = upcoming_hours(hours, from);
    upcoming.take(at_most(upcoming.len(), HOURLY_WINDOW as nat) as int)
}

/// The days of the outlook: the five days that follow the first of the
/// series, or as many as the series has.
pub open spec fn daily_window(days: Seq<DailyRecord>) -> Seq<DailyRecord> {
    if days.len() == 0 {
        days
    } else {
        days.subrange(1, at_most(days.len(), (DAILY_WINDOW + 1) as nat) as int)
    }
}

/// Whether the icon table covers the condition of `hour`.
pub open spec fn hour_icon_known(hour: HourlyRecord, icons: Map<Seq<char>, Seq<char>>) -> bool {
    hourly_icon(icons, hour.weather_code, hour.is_day) is Some
}

/// Whether the icon table covers the condition of `day`.
pub open spec fn day_icon_known(day: DailyRecord, icons: Map<Seq<char>, Seq<char>>) -> bool {
    daily_icon(icons, day.weather_code) is Some
}

/// How `hour` is displayed, given that its icon is known.
pub open spec fn hourly_entry(
    hour: HourlyRecord,
    icons: Map<Seq<char>, Seq<char>>,
) -> HourlyForecastView {
    HourlyForecastView {
        date: hour_text(hour.date),
        temperature: hour.temperature.truncated(),
        weather_code: hourly_icon(icons, hour.weather_code, hour.is_day).unwrap(),
    }
}

/// How `day` is displayed, given that its icon is known.
pub open spec fn daily_entry(
    day: DailyRecord,
    icons: Map<Seq<char>, Seq<char>>,
) -> DailyForecastView {
    DailyForecastView {
        date: date_text(day.date),
        temperature_min: day.temperature_min.truncated(),
        temperature_max: day.temperature_max.truncated(),
        weather_code: daily_icon(icons, day.weather_code).unwrap(),
    }
}

/// The hourly outlook of a series: each hour of the window as displayed, or
/// the failure to find the icon of one of them.
pub open spec fn hourly_outlook_of(
    hours: Seq<HourlyRecord>,
    from: int,
    icons: Map<Seq<char>, Seq<char>>,
) -> Result<Seq<HourlyForecastView>, ForecastError> {
    let window = hourly_window(hours, from);
    if forall|k: int| 0 <= k < window.len() ==> hour_icon_known(#[trigger] window[k], icons) {
        Ok(window.map_values(|hour: HourlyRecord| hourly_entry(hour, icons)))
    } else {
        Err(ForecastError::UnknownConditionCode)
    }
}

/// The daily outlook of a series: each day of the window as displayed, or the
/// failure to find the icon of one of them.
pub open spec fn daily_outlook_of(
    days: Seq<DailyRecord>,
    icons: Map<Seq<char>, Seq<char>>,
) -> Result<Seq<DailyForecastView>, ForecastError> {
    let window = daily_window(days);
    if forall|k: int| 0 <= k < window.len() ==> day_icon_known(#[trigger] window[k], icons) {
        Ok(window.map_values(|day: DailyRecord| daily_entry(day, icons)))
    } else {
        Err(ForecastError::UnknownConditionCode)
    }
}

/// Whether the hours stand in the order of their local instants.
pub open spec fn ascending(hours: Seq<HourlyRecord>) -> bool {
    forall|i: int, j: int| 0 <= i <= j < hours.len() ==> hours[i].date <= hours[j].date
}

/// Taking one more hour of the series into account adds it to the window if
/// it is upcoming and the window is not full, and changes nothing otherwise.
proof fn lemma_window_step(hours: Seq<HourlyRecord>, from: int, i: int)
    requires
        0 <= i < hours.len(),
    ensures
        hourly_window(hours.take(i + 1), from) == if hours[i].date >= from && hourly_window(
            hours.take(i),
            from,
        ).len() < HOURLY_WINDOW {
            hourly_window(hours.take(i), from).push(hours[i])
        } else {
            hourly_window(hours.take(i), from)
        },
{
    let pred = not_before(from);
    let before = hours.take(i);
    assert(hours.take(i + 1) =~= before.push(hours[i]));
    before.lemma_filter_push(hours[i], pred);
    let up = before.filter(pred);
    let window = hourly_window(before, from);
    if hours[i].date >= from {
        if up.len() < HOURLY_WINDOW {
            assert(window =~= up);
            assert(hourly_window(hours.take(i + 1), from) =~= window.push(hours[i]));
        } else {
            assert(hourly_window(hours.take(i + 1), from) =~= window);
        }
    }
}

/// The window of the first hours of a series is the beginning of the window
/// of the whole series.
proof fn lemma_window_prefix(hours: Seq<HourlyRecord>, from: int, i: int)
    requires
        0 <= i <= hours.len(),
    ensures
        hourly_window(hours.take(i), from).is_prefix_of(hourly_window(hours, from)),
{
    let pred = not_before(from);
    assert(hours.take(i).is_prefix_of(hours));
    hours.take(i).lemma_filter_monotone(hours, pred);
}

/// No hour of the window lies before the instant that the window starts from.
pub proof fn lemma_window_not_before(hours: Seq<HourlyRecord>, from: int)
    ensures
        forall|k: int|
            0 <= k < hourly_window(hours, from).len() ==> (#[trigger] hourly_window(
                hours,
                from,
            )[k]).date >= from,
{
    let pred = not_before(from);
    let up = hours.filter(pred);
    let window = hourly_window(hours, from);
    assert forall|k: int| 0 <= k < window.len() implies (#[trigger] window[k]).date >= from by {
        hours.lemma_filter_pred(pred, k);
        assert(window[k] == up[k]);
        assert(pred(up[k]));
    }
}

/// Every upcoming hour is an hour of the series, and the upcoming hours of an
/// ascending series are ascending.
proof fn lemma_upcoming_ascending(hours: Seq<HourlyRecord>, from: int)
    requires
        ascending(hours),
    ensures
        ascending(upcoming_hours(hours, from)),
        forall|k: int|
            0 <= k < upcoming_hours(hours, from).len() ==> hours.contains(
                #[trigger] upcoming_hours(hours, from)[k],
            ),
    decreases hours.len(),
{
    let pred = not_before(from);
    reveal(Seq::filter);
    if hours.len() > 0 {
        let before = hours.drop_last();
        let last = hours.last();
        assert forall|i: int, j: int| 0 <= i <= j < before.len() implies before[i].date
            <= before[j].date by {
            assert(before[i] == hours[i] && before[j] == hours[j]);
        }
        lemma_upcoming_ascending(before, from);
        let up_before = upcoming_hours(before, from);
        let up = upcoming_hours(hours, from);
        assert forall|k: int| 0 <= k < up.len() implies hours.contains(#[trigger] up[k]) by {
            if k < up_before.len() {
                assert(up[k] == up_before[k]);
                assert(before.contains(up_before[k]));
                let m = choose|m: int| 0 <= m < before.len() && before[m] == up_before[k];
                assert(hours[m] == up[k]);
            } else {
                assert(up[k] == last);
                assert(hours[hours.len() - 1] == last);
            }
        }
        assert forall|i: int, j: int| 0 <= i <= j < up.len() implies up[i].date
            <= up[j].date by {
            if j < up_before.len() {
                assert(up[i] == up_before[i] && up[j] == up_before[j]);
            } else if i < up_before.len() {
                assert(up[j] == last);
                assert(up[i] == up_before[i]);
                assert(before.contains(up_before[i]));
                let m = choose|m: int| 0 <= m < before.len() && before[m] == up_before[i];
                assert(hours[m].date <= hours[hours.len() - 1].date);
            }
        }
    }
}

/// The window of a series whose hours stand in the order of their local
/// instants stands in that order too.
pub proof fn lemma_window_ascending(hours: Seq<HourlyRecord>, from: int)
    requires
        ascending(hours),
    ensures
        ascending(hourly_window(hours, from)),
{
    lemma_upcoming_ascending(hours, from);
    let up = upcoming_hours(hours, from);
    let window = hourly_window(hours, from);
    assert forall|i: int, j: int| 0 <= i <= j < window.len() implies window[i].date
        <= window[j].date by {
        assert(window[i] == up[i] && window[j] == up[j]);
    }
}

/// The window holds as many hours as are upcoming, and no more than
/// twenty-four.
pub proof fn lemma_window_len(hours: Seq<HourlyRecord>, from: int)
    ensures
        hourly_window(hours, from).len() == at_most(
            upcoming_hours(hours, from).len(),
            HOURLY_WINDOW as nat,
        ),
        hourly_window(hours, from).len() <= hours.len(),
{
    hours.lemma_filter_len(not_before(from));
}

/// The daily window never holds the first day of the series; it holds the
/// days at indices 1 to 5, as far as the series has them.
pub proof fn lemma_daily_window(days: Seq<DailyRecord>)
    ensures
        days.len() > 0 ==> daily_window(days).len() == at_most(
            (days.len() - 1) as nat,
            DAILY_WINDOW as nat,
        ),
        days.len() == 0 ==> daily_window(days).len() == 0,
        forall|k: int|
            0 <= k < daily_window(days).len() ==> #[trigger] daily_window(days)[k] == days[k + 1],
{
}

/// Builds the hourly outlook: the first twenty-four hours of the series that
/// do not lie before `from`, in the order of the series.
pub fn hourly_outlook(
    hours: &Vec<HourlyForecastWithDateTime>,
    from: i64,
    icons: &IconTable,
) -> (outlook: Result<Vec<HourlyForecast>, ForecastError>)
    ensures
        hourly_result_view(outlook) == hourly_outlook_of(
            hourly_records(hours@),
            from as int,
            icons@,
        ),
{
    let ghost records = hourly_records(hours@);
    let n = hours.len();
    let mut outlook: Vec<HourlyForecast> = Vec::new();
    let mut i: usize = 0;
    while i < n
        invariant
            n == hours@.len(),
            records == hourly_records(hours@),
            i <= n,
            outlook@.len() == hourly_window(records.take(i as int), from as int).len(),
            outlook@.len() <= HOURLY_WINDOW,
            forall|k: int|
                0 <= k < outlook@.len() ==> hour_icon_known(
                    #[trigger] hourly_window(records.take(i as int), from as int)[k],
                    icons@,
                ),
            forall|k: int|
                0 <= k < outlook@.len() ==> (#[trigger] outlook@[k])@ == hourly_entry(
                    hourly_window(records.take(i as int), from as int)[k],
                    icons@,
                ),
        decreases n - i,
    {
        let hour = hours[i];
        proof {
            assert(records[i as int] == hour@);
            lemma_window_step(records, from as int, i as int);
        }
        if hour.date.seconds() >= from && outlook.len() < HOURLY_WINDOW {
            let icon = match hourly_weather_icon(icons, hour.weather_code, hour.is_day) {
                Ok(icon) => icon,
                Err(_) => {
                    proof {
                        let part = hourly_window(records.take(i + 1), from as int);
                        let whole = hourly_window(records, from as int);
                        lemma_window_prefix(records, from as int, i + 1);
                        let k = part.len() - 1;
                        assert(part[k] == records[i as int]);
                        assert(whole[k] == part[k]);
                        assert(!hour_icon_known(whole[k], icons@));
                    }
                    return Err(ForecastError::UnknownConditionCode);
                },
            };
            outlook.push(
                HourlyForecast {
                    date: hour.date.hour_label(),
                    temperature: hour.temperature.truncate(),
                    weather_code: icon,
                },
            );
        }
        i += 1;
    }
    proof {
        assert(records.take(n as int) =~= records);
        let window = hourly_window(records, from as int);
        assert(hourly_views(outlook@) =~= window.map_values(
            |hour: HourlyRecord| hourly_entry(hour, icons@),
        ));
    }
    Ok(outlook)
}

/// Builds the daily outlook: the five days that follow the first of the
/// series, or as many as the series has.
pub fn daily_outlook(
    days: &Vec<DailyForecastWithDateTime>,
    icons: &IconTable,
) -> (outlook: Result<Vec<DailyForecast>, ForecastError>)
    ensures
        daily_result_view(outlook) == daily_outlook_of(daily_records(days@), icons@),
{
    let ghost records = daily_records(days@);
    let n = days.len();
    let end = if n < DAILY_WINDOW + 1 {
        n
    } else {
        DAILY_WINDOW + 1
    };
    let mut outlook: Vec<DailyForecast> = Vec::new();
    let mut i: usize = 1;
    while i < end
        invariant
            n == days@.len(),
            records == daily_records(days@),
            end == at_most(n as nat, (DAILY_WINDOW + 1) as nat),
            1 <= i,
            i <= end || i == 1,
            outlook@.len() == i - 1,
            forall|k: int|
                0 <= k < outlook@.len() ==> day_icon_known(#[trigger] records[k + 1], icons@),
            forall|k: int|
                0 <= k < outlook@.len() ==> (#[trigger] outlook@[k])@ == daily_entry(
                    records[k + 1],
                    icons@,
                ),
        decreases end - i,
    {
        let day = days[i];
        assert(records[i as int] == day@);
        let icon = match daily_weather_icon(icons, day.weather_code) {
            Ok(icon) => icon,
            Err(_) => {
                proof {
                    let window = daily_window(records);
                    assert(window[i - 1] == records[i as int]);
                    assert(!day_icon_known(window[i - 1], icons@));
                }
                return Err(ForecastError::UnknownConditionCode);
            },
        };
        outlook.push(
            DailyForecast {
                date: day.date.month_day(),
                temperature_min: day.temperature_min.truncate(),
                temperature_max: day.temperature_max.truncate(),
                weather_code: icon,
            },
        );
        i += 1;
    }
    proof {
        let window = daily_window(records);
        assert forall|k: int| 0 <= k < window.len() implies day_icon_known(
            #[trigger] window[k],
            icons@,
        ) by {
            assert(window[k] == records[k + 1]);
        }
        let shown = window.map_values(|day: DailyRecord| daily_entry(day, icons@));
        assert(outlook@.len() == window.len());
        assert forall|k: int| 0 <= k < outlook@.len() implies daily_views(outlook@)[k]
            == shown[k] by {
            assert(window[k] == records[k + 1]);
            assert(outlook@[k]@ == daily_entry(records[k + 1], icons@));
        }
        assert(daily_views(outlook@) =~= shown);
    }
    Ok(outlook)
}

} // verus!
