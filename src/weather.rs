use vstd::prelude::*;

verus! {

/// The weather service's query address for a city and a key.
pub open spec fn search_url_of(location: Seq<char>, api_key: Seq<char>) -> Seq<char> {
    "http://api.openweathermap.org/data/2.5/weather?q="@ + location + "&appid="@ + api_key
}

/// Builds the address that asks the weather service about `location`.
pub fn search_url(location: &str, api_key: &str) -> (r: String)
    ensures
        r@ == search_url_of(location@, api_key@),
{
    let mut url = String::from_str("http://api.openweathermap.org/data/2.5/weather?q=");
    url.append(location);
    url.append("&appid=");
    url.append(api_key);
    url
}

/// A temperature in hundredths of a kelvin, as whole degrees Celsius rounded
/// down.
pub open spec fn celsius_floor(centikelvin: int) -> int {
    (centikelvin - 27315) / 100
}

/// Converts a temperature given in hundredths of a kelvin to whole degrees
/// Celsius, rounding down.
pub fn calculate_temperature(centikelvin: i64) -> (r: i64)
    ensures
        r == celsius_floor(centikelvin as int),
{
    let offset: i128 = 100 * 0x1_0000_0000_0000_0000;
    let shifted: i128 = centikelvin as i128 - 27315 + offset;
    let q: i128 = shifted / 100 - 0x1_0000_0000_0000_0000;
    assert(q == (centikelvin - 27315) / 100) by (nonlinear_arith)
        requires
            shifted == centikelvin - 27315 + offset,
            offset == 100 * 0x1_0000_0000_0000_0000int,
            q == shifted / 100 - 0x1_0000_0000_0000_0000int,
            shifted >= 0,
    ;
    q as i64
}

/// The parts of a weather report the weather page shows. Temperatures are
/// in hundredths of a kelvin.
#[derive(Debug, Clone, PartialEq, Eq)]
pub struct WeatherReport {
    pub location: String,
    pub condition: String,
    pub temp: i64,
    pub temp_min: i64,
    pub temp_max: i64,
}

/// Why a fetch gave no document.
#[derive(Debug, Clone, Copy, PartialEq, Eq, Structural)]
pub enum FetchError {
    Unauthorized,
    NetworkFailure,
    ParseFailure,
}

/// The status code the weather service gives for a missing or wrong key.
pub const UNAUTHORIZED_STATUS: i64 = 401;

/// Sorts a weather service answer: a refused key, a report, or an answer
/// that could not be read.
pub open spec fn weather_outcome_of(status: Option<i64>, report: Option<WeatherReport>) -> Result<
    WeatherReport,
    FetchError,
> {
    if status == Some(UNAUTHORIZED_STATUS) {
        Err(FetchError::Unauthorized)
    } else {
        match report {
            Some(w) => Ok(w),
            None => Err(FetchError::ParseFailure),
        }
    }
}

/// Turns the status code and the fields read from a weather service answer
/// into the outcome of the fetch.
pub fn weather_outcome(status: Option<i64>, report: Option<WeatherReport>) -> (r: Result<
    WeatherReport,
    FetchError,
>)
    ensures
        r == weather_outcome_of(status, report),
{
    match status {
        Some(code) if code == UNAUTHORIZED_STATUS => Err(FetchError::Unauthorized),
        _ => match report {
            Some(w) => Ok(w),
            None => Err(FetchError::ParseFailure),
        },
    }
}

/// What the weather page has to show.
#[derive(Debug, Clone, PartialEq, Eq)]
pub enum WeatherDocument {
    /// Nothing fetched yet.
    Absent,
    Report(WeatherReport),
    /// The service refused the key, or no key or city was given.
    InvalidKey,
    /// The service could not be reached or its answer could not be read.
    Unavailable,
}

/// The document a fetch outcome leaves on the weather page.
pub open spec fn document_of(result: Result<WeatherReport, FetchError>) -> WeatherDocument {
    match result {
        Ok(w) => WeatherDocument::Report(w),
        Err(FetchError::Unauthorized) => WeatherDocument::InvalidKey,
        Err(_) => WeatherDocument::Unavailable,
    }
}

impl WeatherDocument {
    /// The document a fetch outcome leaves on the weather page.
    pub fn from_result(result: Result<WeatherReport, FetchError>) -> (r: WeatherDocument)
        ensures
            r == document_of(result),
    {
        match result {
            Ok(w) => WeatherDocument::Report(w),
            Err(FetchError::Unauthorized) => WeatherDocument::InvalidKey,
            Err(_) => WeatherDocument::Unavailable,
        }
    }
}

} // verus!
