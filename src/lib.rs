//! Daily temperature forecast for a fixed location, and the reactive
//! fetch state machine behind a widget that tells whether the day is hot.

pub mod boundary;
pub mod forecast;
pub mod resource;
pub mod temperature;
pub mod widget;

pub use boundary::{error_message, ErrorBoundary, ErrorEntry};
pub use forecast::{begin_fetch, forecast_url, settle, Daily, FetchError, FetchStep, Response, WeatherForecast};
pub use resource::{FetchOutcome, FetchRequest, ResourceCell, Ticket};
pub use temperature::{project, Celsius, DisplayFact};
pub use widget::{Screen, WeatherWidget};
