//! One weather request from start to reply. The work done outside this
//! library, which is asking the geocoding service and the weather provider,
//! happens between the steps; each step decides what follows from what came
//! back.

use crate::display::{display_of, WeatherDisplay, WeatherDisplayView};
use crate::forecast::WeatherResponse;
use crate::icons::IconTable;
use vstd::prelude::*;
use vstd::string::*;

verus! {

/// What every request shares.
pub struct LocalState {
    /// The key that the geocoding service asks for.
    pub api_key: String,
    /// The icon table.
    pub weather_code_to_href: IconTable,
}

/// A place, as the geocoding service describes it.
#[derive(Clone, Debug, PartialEq, Eq)]
pub struct LocationData {
    /// The full name: comma-separated segments, the most local one first.
    pub display_name: String,
    /// The longitude, in the service's own writing.
    pub lon: String,
    /// The latitude, in the service's own writing.
    pub lat: String,
}

/// The parameter of a weather request.
#[derive(Clone, Debug, PartialEq, Eq)]
pub struct WeatherParams {
    pub zipcode: String,
}

/// Why a request gets no display.
#[derive(Clone, Copy, Debug, PartialEq, Eq, Structural)]
pub enum RequestFailure {
    /// The geocoding service knows no place for the postal code, or did not
    /// answer.
    NotFound,
    /// The weather provider did not answer, or its forecast cannot be shown.
    Internal,
}

impl RequestFailure {
    /// The HTTP status that reports the failure.
    pub open spec fn status(self) -> u16 {
        match self {
            RequestFailure::NotFound => 404,
            RequestFailure::Internal => 500,
        }
    }

    /// The HTTP status that reports the failure.
    pub fn status_code(self) -> (code: u16)
        ensures
            code == self.status(),
    {
        match self {
            RequestFailure::NotFound => 404,
            RequestFailure::Internal => 500,
        }
    }
}

/// The address that asks the geocoding service for the places of a postal
/// code.
pub open spec fn geocoding_url_of(zipcode: Seq<char>, api_key: Seq<char>) -> Seq<char> {
    "https://geocode.maps.co/search?q="@ + zipcode + "&api_key="@ + api_key
}

/// The address that asks the weather provider for the forecast of a place:
/// temperatures in Fahrenheit, five days ahead and one day back, in the time
/// zone of the place, with instants as seconds since the epoch.
pub open spec fn forecast_url_of(lon: Seq<char>, lat: Seq<char>) -> Seq<char> {
    "https://api.open-meteo.com/v1/forecast?latitude="@ + lat + "&longitude="@ + lon
        + "&hourly=temperature_2m,weather_code,is_day&temperature_unit=fahrenheit&forecast_days=5&current=temperature_2m,weather_code&daily=temperature_2m_max,temperature_2m_min,weather_code&past_days=1&timezone=auto&timeformat=unixtime"@
}

/// Writes the address that asks the geocoding service for the places of
/// `zipcode`.
pub fn geocoding_url(zipcode: &str, api_key: &str) -> (url: String)
    ensures
        url@ == geocoding_url_of(zipcode@, api_key@),
{
    let mut url = String::from_str("https://geocode.maps.co/search?q=");
    url.append(zipcode);
    url.append("&api_key=");
    url.append(api_key);
    url
}

/// Writes the address that asks the weather provider for the forecast at the
/// given longitude and latitude.
pub fn forecast_url(lon: &str, lat: &str) -> (url: String)
    ensures
        url@ == forecast_url_of(lon@, lat@),
{
    let mut url = String::from_str("https://api.open-meteo.com/v1/forecast?latitude=");
    url.append(lat);
    url.append("&longitude=");
    url.append(lon);
    url.append(
        "&hourly=temperature_2m,weather_code,is_day&temperature_unit=fahrenheit&forecast_days=5&current=temperature_2m,weather_code&daily=temperature_2m_max,temperature_2m_min,weather_code&past_days=1&timezone=auto&timeformat=unixtime",
    );
    url
}

/// The place that a lookup settles on: the first candidate, if there is one.
pub open spec fn located_of(
    lookup: Option<Vec<LocationData>>,
) -> Result<LocationData, RequestFailure> {
    match lookup {
        Some(candidates) => if candidates@.len() > 0 {
            Ok(candidates@[0])
        } else {
            Err(RequestFailure::NotFound)
        },
        None => Err(RequestFailure::NotFound),
    }
}

/// Settles on a place after the geocoding service was asked. `lookup` holds
/// the candidates of its answer, best match first, and is `None` where it
/// gave no answer that could be read.
pub fn located(lookup: Option<Vec<LocationData>>) -> (place: Result<LocationData, RequestFailure>)
    ensures
        place == located_of(lookup),
{
    match lookup {
        Some(candidates) => {
            let mut candidates = candidates;
            if candidates.len() > 0 {
                Ok(candidates.remove(0))
            } else {
                Err(RequestFailure::NotFound)
            }
        },
        None => Err(RequestFailure::NotFound),
    }
}

/// What a request is answered with after the weather provider was asked: the
/// display of its forecast for the place, or an internal failure where it
/// gave no forecast or one that cannot be shown.
pub open spec fn reply_of(
    icons: Map<Seq<char>, Seq<char>>,
    display_name: Seq<char>,
    fetched: Option<WeatherResponse>,
) -> Result<WeatherDisplayView, RequestFailure> {
    match fetched {
        Some(raw) => match display_of(raw, display_name, icons) {
            Ok(display) => Ok(display),
            Err(_) => Err(RequestFailure::Internal),
        },
        None => Err(RequestFailure::Internal),
    }
}

/// What the reply to a request stands for in contracts.
pub open spec fn reply_view(
    reply: Result<WeatherDisplay, RequestFailure>,
) -> Result<WeatherDisplayView, RequestFailure> {
    match reply {
        Ok(display) => Ok(display@),
        Err(e) => Err(e),
    }
}

/// Answers a request after the weather provider was asked about `location`.
/// `fetched` holds its forecast, and is `None` where it gave no answer that
/// could be read.
pub fn reply(
    state: &LocalState,
    location: &LocationData,
    fetched: Option<WeatherResponse>,
) -> (reply: Result<WeatherDisplay, RequestFailure>)
    ensures
        reply_view(reply) == reply_of(
            state.weather_code_to_href@,
            location.display_name@,
            fetched,
        ),
{
    match fetched {
        Some(raw) => {
            match WeatherDisplay::new(&raw, &location.display_name, &state.weather_code_to_href) {
                Ok(display) => Ok(display),
                Err(_) => Err(RequestFailure::Internal),
            }
        },
        None => Err(RequestFailure::Internal),
    }
}

} // verus!
