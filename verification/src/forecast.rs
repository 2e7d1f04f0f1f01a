//! The raw forecast as the weather provider reports it: one current sample and
//! two series, hourly and daily, each held as parallel sequences that belong
//! together index by index.

use crate::clock::{representable, LocalInstant};
use crate::error::ForecastError;
use crate::temperature::Temperature;
use vstd::prelude::*;

verus! {

/// The sample of the present moment.
#[derive(Clone, Copy, Debug)]
pub struct Current {
    pub time: i64,
    pub temperature_2m: Temperature,
    pub weather_code: u16,
}

/// The hourly series. Index `i` of each sequence describes the same hour.
#[derive(Clone, Debug)]
pub struct Hourly {
    pub time: Vec<i64>,
    pub temperature_2m: Vec<Temperature>,
    pub weather_code: Vec<u16>,
    /// 1 by day, 0 by night.
    pub is_day: Vec<u8>,
}

/// The daily series. Index `i` of each sequence describes the same day, and
/// index 0 is today.
#[derive(Clone, Debug)]
pub struct Daily {
    pub time: Vec<i64>,
    pub temperature_2m_max: Vec<Temperature>,
    pub temperature_2m_min: Vec<Temperature>,
    pub weather_code: Vec<u16>,
}

/// The provider's answer for one location.
#[derive(Clone, Debug)]
pub struct WeatherResponse {
    /// What to add to a provider timestamp to get local wall-clock time.
    pub utc_offset_seconds: i64,
    pub current: Current,
    pub hourly: Hourly,
    pub daily: Daily,
}

/// One hour of the forecast, with `date` its local instant.
#[derive(Clone, Copy, Debug)]
pub struct HourlyForecastWithDateTime {
    pub date: LocalInstant,
    pub temperature: Temperature,
    pub weather_code: u16,
    pub is_day: u8,
}

/// One day of the forecast, with `date` its local instant.
#[derive(Clone, Copy, Debug)]
pub struct DailyForecastWithDateTime {
    pub date: LocalInstant,
    pub temperature_min: Temperature,
    pub temperature_max: Temperature,
    pub weather_code: u16,
}

/// What an `HourlyForecastWithDateTime` holds, as plain mathematics.
pub struct HourlyRecord {
    pub date: int,
    pub temperature: Temperature,
    pub weather_code: u16,
    pub is_day: u8,
}

/// What a `DailyForecastWithDateTime` holds, as plain mathematics.
pub struct DailyRecord {
    pub date: int,
    pub temperature_min: Temperature,
    pub temperature_max: Temperature,
    pub weather_code: u16,
}

impl View for HourlyForecastWithDateTime {
    type V = HourlyRecord;

    open spec fn view(&self) -> HourlyRecord {
        HourlyRecord {
            date: self.date@,
            temperature: self.temperature,
            weather_code: self.weather_code,
            is_day: self.is_day,
        }
    }
}

impl View for DailyForecastWithDateTime {
    type V = DailyRecord;

    open spec fn view(&self) -> DailyRecord {
        DailyRecord {
            date: self.date@,
            temperature_min: self.temperature_min,
            temperature_max: self.temperature_max,
            weather_code: self.weather_code,
        }
    }
}

/// The views of a sequence of hours.
pub open spec fn hourly_records(hours: Seq<HourlyForecastWithDateTime>) -> Seq<HourlyRecord> {
    hours.map_values(|hour: HourlyForecastWithDateTime| hour@)
}

/// The views of a sequence of days.
pub open spec fn daily_records(days: Seq<DailyForecastWithDateTime>) -> Seq<DailyRecord> {
    days.map_values(|day: DailyForecastWithDateTime| day@)
}

impl Hourly {
    /// Whether the four sequences have one length.
    pub open spec fn aligned(&self) -> bool {
        &&& self.temperature_2m@.len() == self.time@.len()
        &&& self.weather_code@.len() == self.time@.len()
        &&& self.is_day@.len() == self.time@.len()
    }

    /// Whether the calendar has a date for every hour of the series, seen
    /// from a location `offset` seconds ahead of UTC.
    pub open spec fn in_range(&self, offset: i64) -> bool {
        forall|i: int|
            0 <= i < self.time@.len() ==> representable(#[trigger] self.time@[i] + offset)
    }

    /// The hour at index `i`, with its local instant.
    pub open spec fn record(&self, offset: i64, i: int) -> HourlyRecord {
        HourlyRecord {
            date: self.time@[i] + offset,
            temperature: self.temperature_2m@[i],
            weather_code: self.weather_code@[i],
            is_day: self.is_day@[i],
        }
    }

    /// The series as one sequence of hours, in its own order.
    pub open spec fn records(&self, offset: i64) -> Seq<HourlyRecord> {
        Seq::new(self.time@.len(), |i: int| self.record(offset, i))
    }

    /// Whether the four sequences have one length.
    pub fn is_aligned(&self) -> (yes: bool)
        ensures
            yes == self.aligned(),
    {
        let n = self.time.len();
        self.temperature_2m.len() == n && self.weather_code.len() == n && self.is_day.len() == n
    }

    /// Joins the four sequences into one sequence of hours in local time.
    pub fn local_records(
        &self,
        offset: i64,
    ) -> (records: Result<Vec<HourlyForecastWithDateTime>, ForecastError>)
        ensures
            records is Ok <==> self.aligned() && self.in_range(offset),
            records matches Ok(v) ==> hourly_records(v@) == self.records(offset),
            records matches Err(e) ==> e == if self.aligned() {
                ForecastError::TimeOutOfRange
            } else {
                ForecastError::MalformedSeries
            },
    {
        if !self.is_aligned() {
            return Err(ForecastError::MalformedSeries);
        }
        let n = self.time.len();
        let mut records: Vec<HourlyForecastWithDateTime> = Vec::new();
        let mut i: usize = 0;
        while i < n
            invariant
                self.aligned(),
                n == self.time@.len(),
                i <= n,
                records@.len() == i,
                forall|j: int| 0 <= j < i ==> representable(#[trigger] self.time@[j] + offset),
                forall|j: int| 0 <= j < i ==> (#[trigger] records@[j])@ == self.record(offset, j),
            decreases n - i,
        {
            match LocalInstant::new(self.time[i], offset) {
                Some(date) => {
                    records.push(
                        HourlyForecastWithDateTime {
                            date,
                            temperature: self.temperature_2m[i],
                            weather_code: self.weather_code[i],
                            is_day: self.is_day[i],
                        },
                    );
                },
                None => {
                    return Err(ForecastError::TimeOutOfRange);
                },
            }
            i += 1;
        }
        assert(hourly_records(records@) =~= self.records(offset));
        Ok(records)
    }
}

impl Daily {
    /// Whether the four sequences have one length.
    pub open spec fn aligned(&self) -> bool {
        &&& self.temperature_2m_max@.len() == self.time@.len()
        &&& self.temperature_2m_min@.len() == self.time@.len()
        &&& self.weather_code@.len() == self.time@.len()
    }

    /// Whether the calendar has a date for every day of the series, seen from
    /// a location `offset` seconds ahead of UTC.
    pub open spec fn in_range(&self, offset: i64) -> bool {
        forall|i: int|
            0 <= i < self.time@.len() ==> representable(#[trigger] self.time@[i] + offset)
    }

    /// The day at index `i`, with its local instant.
    pub open spec fn record(&self, offset: i64, i: int) -> DailyRecord {
        DailyRecord {
            date: self.time@[i] + offset,
            temperature_min: self.temperature_2m_min@[i],
            temperature_max: self.temperature_2m_max@[i],
            weather_code: self.weather_code@[i],
        }
    }

    /// The series as one sequence of days, in its own order.
    pub open spec fn records(&self, offset: i64) -> Seq<DailyRecord> {
        Seq::new(self.time@.len(), |i: int| self.record(offset, i))
    }

    /// Whether the four sequences have one length.
    pub fn is_aligned(&self) -> (yes: bool)
        ensures
            yes == self.aligned(),
    {
        let n = self.time.len();
        self.temperature_2m_max.len() == n && self.temperature_2m_min.len() == n
            && self.weather_code.len() == n
    }

    /// Joins the four sequences into one sequence of days in local time.
    pub fn local_records(
        &self,
        offset: i64,
    ) -> (records: Result<Vec<DailyForecastWithDateTime>, ForecastError>)
        ensures
            records is Ok <==> self.aligned() && self.in_range(offset),
            records matches Ok(v) ==> daily_records(v@) == self.records(offset),
            records matches Err(e) ==> e == if self.aligned() {
                ForecastError::TimeOutOfRange
            } else {
                ForecastError::MalformedSeries
            },
    {
        if !self.is_aligned() {
            return Err(ForecastError::MalformedSeries);
        }
        let n = self.time.len();
        let mut records: Vec<DailyForecastWithDateTime> = Vec::new();
        let mut i: usize = 0;
        while i < n
            invariant
                self.aligned(),
                n == self.time@.len(),
                i <= n,
                records@.len() == i,
                forall|j: int| 0 <= j < i ==> representable(#[trigger] self.time@[j] + offset),
                forall|j: int| 0 <= j < i ==> (#[trigger] records@[j])@ == self.record(offset, j),
            decreases n - i,
        {
            match LocalInstant::new(self.time[i], offset) {
                Some(date) => {
                    records.push(
                        DailyForecastWithDateTime {
                            date,
                            temperature_min: self.temperature_2m_min[i],
                            temperature_max: self.temperature_2m_max[i],
                            weather_code: self.weather_code[i],
                        },
                    );
                },
                None => {
                    return Err(ForecastError::TimeOutOfRange);
                },
            }
            i += 1;
        }
        assert(daily_records(records@) =~= self.records(offset));
        Ok(records)
    }
}

impl WeatherResponse {
    /// Whether the sequences of each series have one length.
    pub open spec fn aligned(&self) -> bool {
        self.hourly.aligned() && self.daily.aligned()
    }

    /// The present moment on the wall clock of the location.
    pub open spec fn now_local(&self) -> int {
        self.current.time + self.utc_offset_seconds
    }

    /// The start of the current hour on the wall clock of the location: the
    /// present moment cut back to the full hour in UTC, then shifted by the
    /// offset.
    pub open spec fn this_hour_local(&self) -> int {
        self.current.time - self.current.time % 3_600 + self.utc_offset_seconds
    }

    /// Whether the calendar has a date for every instant of the forecast in
    /// local time: the present moment, each hour and each day.
    pub open spec fn in_range(&self) -> bool {
        &&& representable(self.now_local())
        &&& self.hourly.in_range(self.utc_offset_seconds)
        &&& self.daily.in_range(self.utc_offset_seconds)
    }

    /// Whether the sequences of each series have one length.
    pub fn is_aligned(&self) -> (yes: bool)
        ensures
            yes == self.aligned(),
    {
        self.hourly.is_aligned() && self.daily.is_aligned()
    }

    /// The start of the current hour lies less than an hour before the
    /// present moment, or at it. Where the offset is a whole number of hours,
    /// it is a full hour on the local clock: cutting back in UTC and then
    /// shifting gives what shifting and then cutting back would give.
    pub proof fn lemma_this_hour_local(&self)
        ensures
            self.this_hour_local() <= self.now_local() < self.this_hour_local() + 3_600,
            self.utc_offset_seconds % 3_600 == 0 ==> self.this_hour_local() == self.now_local()
                - self.now_local() % 3_600,
    {
        let t = self.current.time as int;
        let offset = self.utc_offset_seconds as int;
        if offset % 3_600 == 0 {
            assert((t + offset) % 3_600 == t % 3_600) by (nonlinear_arith)
                requires
                    offset % 3_600 == 0,
            ;
        }
    }
}

} // verus!
