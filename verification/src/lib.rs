//! Display-ready weather outlooks, built from a provider's raw forecast.
//!
//! The provider reports instants as seconds since the Unix epoch together with
//! the offset of the forecast location from UTC. Everything shown to a reader
//! is expressed in the wall-clock time of that location.
//!
//! - [`forecast`] holds the raw forecast and joins its parallel sequences into
//!   hours and days in local time.
//! - [`display`] builds the display: [`WeatherDisplay::new`] is the whole
//!   transform, and `display::display_of` says what it returns.
//! - [`outlook`] selects and renders the hours and days that are shown.
//! - [`clock`] has the local instants and their texts, [`temperature`] the
//!   narrowing of readings to whole degrees, [`icons`] the icon table, and
//!   [`text`] decimal numbers and name segments.
//! - [`request`] decides how one request proceeds from what the geocoding
//!   service and the weather provider gave back.

pub mod clock;
pub mod display;
pub mod error;
pub mod forecast;
pub mod icons;
pub mod outlook;
pub mod request;
pub mod temperature;
pub mod text;

pub use display::{CurrentForecast, WeatherDisplay};
pub use error::ForecastError;
pub use forecast::{
    Current, Daily, DailyForecastWithDateTime, Hourly, HourlyForecastWithDateTime, WeatherResponse,
};
pub use icons::{get_weather_icon, IconTable};
pub use outlook::{DailyForecast, HourlyForecast};
pub use request::{LocalState, LocationData, WeatherParams};
pub use temperature::Temperature;

