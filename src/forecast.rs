use vstd::prelude::*;

use crate::temperature::Celsius;

verus! {

/// Why a forecast could not be had.
#[derive(Clone, Copy, Debug, PartialEq, Eq, Structural)]
pub enum FetchError {
    /// Zero days were asked for; no request was made.
    NonZeroDays,
    /// The request could not be sent, or the service did not answer with success.
    Request,
    /// The answer did not have the shape of a forecast.
    Json,
}

/// The daily series of a forecast, one entry per day, oldest first.
#[derive(Clone, Debug)]
pub struct Daily {
    pub time: Vec<String>,
    pub temperature_2m_min: Vec<Celsius>,
    pub temperature_2m_max: Vec<Celsius>,
}

/// A decoded answer of the forecast service.
#[derive(Clone, Debug)]
pub struct WeatherForecast {
    pub daily: Daily,
}

/// What came back from one round trip to the forecast service.
#[derive(Clone, Debug)]
pub enum Response {
    /// The request failed in transport, or the status was not a success.
    Unreachable,
    /// A body arrived but could not be decoded as a forecast.
    Malformed,
    /// A decoded forecast.
    Forecast(WeatherForecast),
}

/// What to do to obtain a forecast for a number of days.
#[derive(Clone, Debug)]
pub enum FetchStep {
    /// Fail at once, without any request.
    Reject(FetchError),
    /// Send one GET request to this address.
    Get(String),
}

/// The address of the forecast service, up to the number of days.
pub const FORECAST_URL_PREFIX: &'static str = "https://api.open-meteo.com/v1/forecast?latitude=51.68&longitude=5.05&timezone=auto&daily=temperature_2m_min,temperature_2m_max&forecast_days=";

/// The character of a decimal digit.
pub open spec fn digit_char(d: nat) -> char {
    if d == 0 { '0' }
    else if d == 1 { '1' }
    else if d == 2 { '2' }
    else if d == 3 { '3' }
    else if d == 4 { '4' }
    else if d == 5 { '5' }
    else if d == 6 { '6' }
    else if d == 7 { '7' }
    else if d == 8 { '8' }
    else { '9' }
}

/// The decimal notation of `n`, without leading zeros.
pub open spec fn decimal(n: nat) -> Seq<char>
    decreases n,
{
    if n < 10 {
        seq![digit_char(n)]
    } else {
        decimal(n / 10) + seq![digit_char(n % 10)]
    }
}

/// The address that asks for a forecast of `days` days.
pub open spec fn url_for(days: u8) -> Seq<char> {
    FORECAST_URL_PREFIX@ + decimal(days as nat)
}

/// The mathematical value of a fetch result.
pub open spec fn result_model(r: Result<Vec<Celsius>, FetchError>) -> Result<Seq<Celsius>, FetchError> {
    match r {
        Ok(v) => Ok(v@),
        Err(e) => Err(e),
    }
}

/// The series a response yields, or the error it maps to.
pub open spec fn settled(response: Response) -> Result<Seq<Celsius>, FetchError> {
    match response {
        Response::Unreachable => Err(FetchError::Request),
        Response::Malformed => Err(FetchError::Json),
        Response::Forecast(f) => Ok(f.daily.temperature_2m_max@),
    }
}

fn digit_str(d: u8) -> (r: &'static str)
    requires
        d < 10,
    ensures
        r@ == seq![digit_char(d as nat)],
{
    proof {
        reveal_strlit("0");
        reveal_strlit("1");
        reveal_strlit("2");
        reveal_strlit("3");
        reveal_strlit("4");
        reveal_strlit("5");
        reveal_strlit("6");
        reveal_strlit("7");
        reveal_strlit("8");
        reveal_strlit("9");
    }
    match d {
        0 => "0",
        1 => "1",
        2 => "2",
        3 => "3",
        4 => "4",
        5 => "5",
        6 => "6",
        7 => "7",
        8 => "8",
        _ => "9",
    }
}

/// The address of the forecast service for `days` days.
pub fn forecast_url(days: u8) -> (r: String)
    ensures
        r@ == url_for(days),
{
    let mut url = String::from_str(FORECAST_URL_PREFIX);
    let ghost n = days as nat;
    if days >= 100 {
        url.append(digit_str(days / 100));
    }
    if days >= 10 {
        url.append(digit_str((days / 10) % 10));
    }
    url.append(digit_str(days % 10));
    proof {
        if n >= 100 {
            assert(decimal(n / 10) == decimal(n / 100) + seq![digit_char((n / 10) % 10)]);
            assert(decimal(n / 100) == seq![digit_char(n / 100)]);
        } else if n >= 10 {
            assert(decimal(n / 10) == seq![digit_char(n / 10)]);
        }
        assert(url@ =~= url_for(days));
    }
    url
}

/// Decides how to fetch a forecast of `days` days: zero days fail at once
/// without any request; otherwise one GET to the service's address.
pub fn begin_fetch(days: u8) -> (r: FetchStep)
    ensures
        days == 0 <==> r == FetchStep::Reject(FetchError::NonZeroDays),
        days != 0 <==> (r is Get && r->Get_0@ == url_for(days)),
{
    if days == 0 {
        FetchStep::Reject(FetchError::NonZeroDays)
    } else {
        FetchStep::Get(forecast_url(days))
    }
}

/// The outcome of a fetch once its response is in: the daily maxima of a
/// decoded forecast, `Request` for a transport failure and `Json` for a body
/// that could not be decoded.
pub fn settle(response: Response) -> (r: Result<Vec<Celsius>, FetchError>)
    ensures
        result_model(r) == settled(response),
{
    match response {
        Response::Unreachable => Err(FetchError::Request),
        Response::Malformed => Err(FetchError::Json),
        Response::Forecast(f) => Ok(f.daily.temperature_2m_max),
    }
}

} // verus!
