//! The ways in which a raw forecast can fail to become a display.

use vstd::prelude::*;

verus! {

/// Why a raw forecast could not be turned into a display. No partial display
/// is ever produced.
#[derive(Clone, Copy, Debug, PartialEq, Eq, Structural)]
pub enum ForecastError {
    /// The sequences of the hourly series, or those of the daily series,
    /// differ in length.
    MalformedSeries,
    /// An instant of the forecast, shifted to local time, lies outside the
    /// years that the calendar covers.
    TimeOutOfRange,
    /// The daily series is empty, so there is no entry for today.
    EmptyDailySeries,
    /// No entry of the hourly series lies in the current local hour.
    MissingCurrentHour,
    /// The icon table has no entry for a condition code of the outlook.
    UnknownConditionCode,
}

} // verus!
