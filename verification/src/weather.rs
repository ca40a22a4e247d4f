//! Weather-cache command handler.
//!
//! The cache itself is read by the front end through the SQL plugin;
//! this handler is a reserved entry point that answers a fixed placeholder
//! condition stamped with the current time. The clock read is total: when
//! the system clock is unreadable or out of the calendar's range, the
//! handler stamps the report with the epoch instead of failing.

use vstd::prelude::*;

use vstd::string::StringExecFns;

verus! {

/// A cached weather report as the UI layer exchanges it.
#[derive(Debug, Clone)]
pub struct WeatherCache {
    pub condition: String,
    pub updated_at: String,
    pub description: String,
}

/// Relies on std's `SystemTime::now` and `duration_since` to read the
/// clock, and on chrono's `DateTime::from_timestamp` and
/// `DateTime::to_rfc3339` to format it. Returns `None` when the clock
/// reads before the Unix epoch or outside the calendar's range, instead
/// of panicking as chrono's own `Utc::now` would. A returned stamp is a
/// full RFC 3339 date-and-time such as `1996-12-19T16:39:57+00:00`:
/// date, `T`, time and offset are always written, so it has at least 25
/// characters. The value depends on the clock, so nothing more is stated.
#[verifier::external_body]
fn now_rfc3339() -> (r: Option<String>)
    ensures
        r is Some ==> r->0@.len() >= 25,
{
    let since_epoch = match std::time::SystemTime::now().duration_since(std::time::UNIX_EPOCH) {
        Ok(d) => d,
        Err(_) => return None,
    };
    let secs = match i64::try_from(since_epoch.as_secs()) {
        Ok(s) => s,
        Err(_) => return None,
    };
    match chrono::DateTime::from_timestamp(secs, since_epoch.subsec_nanos()) {
        Some(stamp) => Some(stamp.to_rfc3339()),
        None => None,
    }
}

/// The placeholder report stamped with the given time: condition
/// `cloudy`, its display description, and the timestamp unchanged.
pub fn weather_cache_at(updated_at: String) -> (w: WeatherCache)
    ensures
        w.condition@ == "cloudy"@,
        w.description@ == "多云"@,
        w.updated_at == updated_at,
{
    WeatherCache {
        condition: String::from_str("cloudy"),
        updated_at,
        description: String::from_str("多云"),
    }
}

/// Read the cached weather. No backend store exists in this core, so the
/// handler answers the fixed placeholder report stamped with the current
/// time — or with the epoch when the clock cannot be read — and never
/// reports an error. The stamp is always a full RFC 3339 date-and-time,
/// at least 25 characters.
pub fn get_weather_cache() -> (r: Result<WeatherCache, String>)
    ensures
        r is Ok,
        r->Ok_0.condition@ == "cloudy"@,
        r->Ok_0.description@ == "多云"@,
        r->Ok_0.updated_at@.len() >= 25,
{
    let stamp = match now_rfc3339() {
        Some(s) => s,
        None => {
            proof {
                reveal_strlit("1970-01-01T00:00:00+00:00");
            }
            String::from_str("1970-01-01T00:00:00+00:00")
        },
    };
    Ok(weather_cache_at(stamp))
}

} // verus!
