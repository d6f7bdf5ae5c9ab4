//! The time services: which request each one needs for a timezone, and how
//! its reply is read into an hour and a minute.
use vstd::prelude::*;
use crate::json::{
    extract_json_int, extract_json_int_flexible, extract_json_string, json_int_flexible_spec,
    json_int_spec, json_string_spec,
};
use crate::text::{
    before_first, before_first_exec, chars_of, contains, contains_seq, parse_u8, parse_u8_spec,
    push_str, second_field, second_field_exec,
};

verus! {

/// The result type of the clock's operations: an error is a message.
pub type ClockResult<T> = Result<T, String>;

/// A result with its error message taken as characters.
pub open spec fn result_view<T>(r: ClockResult<T>) -> Result<T, Seq<char>> {
    match r {
        Ok(t) => Ok(t),
        Err(e) => Err(e@),
    }
}

/// An hour and a minute of the day, as a time service reports them.
#[derive(Clone, Copy, Debug, PartialEq, Eq)]
pub struct TimeInfo {
    pub hour: u8,
    pub minute: u8,
}

/// A time service that the chain can ask.
#[derive(Clone, Debug)]
pub enum ProviderKind {
    WorldTimeApi,
    TimeApiIo,
    TimezoneDb { api_key: String },
}

/// A GET request over HTTPS.
#[derive(Clone, Debug)]
pub struct HttpRequest {
    pub host: String,
    pub port: u16,
    pub path: String,
}

/// The host, port and path of a request.
pub open spec fn request_view(r: HttpRequest) -> (Seq<char>, u16, Seq<char>) {
    (r.host@, r.port, r.path@)
}

/// The display name of a service.
pub open spec fn provider_name_spec(k: ProviderKind) -> Seq<char> {
    match k {
        ProviderKind::WorldTimeApi => "WorldTimeAPI"@,
        ProviderKind::TimeApiIo => "TimeAPI.io"@,
        ProviderKind::TimezoneDb { .. } => "TimezoneDB"@,
    }
}

/// The request that asks service `k` for the time in `tz`, or the error that
/// stops it from being sent (TimezoneDB without an API key).
pub open spec fn request_spec(k: ProviderKind, tz: Seq<char>) -> Result<(Seq<char>, u16, Seq<char>), Seq<char>> {
    match k {
        ProviderKind::WorldTimeApi => Ok(("worldtimeapi.org"@, 443u16, "/api/timezone/"@ + tz)),
        ProviderKind::TimeApiIo => Ok(
            ("timeapi.io"@, 443u16, "/api/time/current/zone?timeZone="@ + tz),
        ),
        ProviderKind::TimezoneDb { api_key, .. } => if api_key@.len() == 0 {
            Err("API key not configured"@)
        } else {
            Ok(
                (
                    "api.timezonedb.com"@,
                    443u16,
                    "/v2.1/get-time-zone?key="@ + api_key@ + "&format=json&by=zone&zone="@ + tz,
                ),
            )
        },
    }
}

/// Reading `"hh:mm..."`: the first two `:`-separated fields as `u8` numbers.
pub open spec fn parse_time_spec(t: Seq<char>) -> Result<TimeInfo, Seq<char>> {
    match second_field(t, ':') {
        None => Err("Invalid time format"@),
        Some(minute_text) => match parse_u8_spec(before_first(t, ':')) {
            None => Err("Invalid hour"@),
            Some(h) => match parse_u8_spec(minute_text) {
                None => Err("Invalid minute"@),
                Some(m) => Ok(TimeInfo { hour: h, minute: m }),
            },
        },
    }
}

/// WorldTimeAPI's reply: the time part of its `datetime` field, cut at
/// the UTC offset's sign.
pub open spec fn world_time_api_spec(json: Seq<char>) -> Result<TimeInfo, Seq<char>> {
    match json_string_spec(json, "\"datetime\":\""@) {
        None => Err("datetime field not found"@),
        Some(datetime) => match second_field(datetime, 'T') {
            None => Err("Invalid datetime format"@),
            Some(after_t) => parse_time_spec(before_first(before_first(after_t, '+'), '-')),
        },
    }
}

/// TimeAPI.io's reply: its `hour` and `minute` fields, truncated to `u8`.
pub open spec fn time_api_io_spec(json: Seq<char>) -> Result<TimeInfo, Seq<char>> {
    match json_int_spec(json, "\"hour\":"@) {
        None => Err("hour not found"@),
        Some(h) => match json_int_spec(json, "\"minute\":"@) {
            None => Err("minute not found"@),
            Some(m) => Ok(TimeInfo { hour: h as u8, minute: m as u8 }),
        },
    }
}

/// The first of two string fields that is present.
pub open spec fn either_string(json: Seq<char>, k1: Seq<char>, k2: Seq<char>) -> Option<Seq<char>> {
    match json_string_spec(json, k1) {
        Some(v) => Some(v),
        None => json_string_spec(json, k2),
    }
}

/// The hour and minute of a Unix timestamp shifted by a UTC offset in seconds.
pub open spec fn time_of_day(timestamp: int, gmt_offset: int) -> TimeInfo {
    let local_seconds = (timestamp + gmt_offset) % 86400;
    TimeInfo { hour: ((local_seconds / 3600) % 24) as u8, minute: ((local_seconds % 3600) / 60) as u8 }
}

/// Shifted timestamps always give a time of day: an hour below 24 and a
/// minute below 60, whatever the timestamp and the offset.
pub proof fn lemma_time_of_day_in_range(timestamp: int, gmt_offset: int)
    ensures
        time_of_day(timestamp, gmt_offset).hour < 24,
        time_of_day(timestamp, gmt_offset).minute < 60,
{
    let l = (timestamp + gmt_offset) % 86400;
    assert(0 <= l < 86400);
    assert(0 <= (l / 3600) % 24 < 24);
    assert(0 <= (l % 3600) / 60 < 60);
}

/// TimezoneDB's reply: a failure status gives its message; otherwise the
/// time part of `formatted`, or else `timestamp` shifted by `gmtOffset`.
pub open spec fn timezone_db_spec(json: Seq<char>) -> Result<TimeInfo, Seq<char>> {
    if contains_seq(json, "\"status\":\"FAILED\""@) || contains_seq(json, "\"status\": \"FAILED\""@) {
        let message = match either_string(json, "\"message\":\""@, "\"message\": \""@) {
            Some(m) => m,
            None => "Unknown error"@,
        };
        Err("API error: "@ + message)
    } else {
        match either_string(json, "\"formatted\":\""@, "\"formatted\": \""@) {
            Some(formatted) => match second_field(formatted, ' ') {
                None => Err("Invalid formatted time"@),
                Some(t) => parse_time_spec(t),
            },
            None => match json_int_flexible_spec(json, "gmtOffset"@) {
                None => Err("gmtOffset not found"@),
                Some(g) => match json_int_flexible_spec(json, "timestamp"@) {
                    None => Err("timestamp not found"@),
                    Some(t) => Ok(time_of_day(t as int, g as int)),
                },
            },
        }
    }
}

/// A reply without a failure status that holds a `formatted` field is read
/// from that field alone: its part after the first space, as `hh:mm`,
/// whatever `gmtOffset` and `timestamp` hold.
pub proof fn lemma_formatted_field_comes_first(json: Seq<char>, formatted: Seq<char>)
    requires
        !contains_seq(json, "\"status\":\"FAILED\""@),
        !contains_seq(json, "\"status\": \"FAILED\""@),
        json_string_spec(json, "\"formatted\":\""@) == Some(formatted) || (json_string_spec(
            json,
            "\"formatted\":\""@,
        ) is None && json_string_spec(json, "\"formatted\": \""@) == Some(formatted)),
    ensures
        timezone_db_spec(json) == match second_field(formatted, ' ') {
            None => Err("Invalid formatted time"@),
            Some(t) => parse_time_spec(t),
        },
{
}

/// Every request a service hands out is an HTTPS request to port 443 of that
/// service's host, with the timezone at the end of its path; the only
/// request that cannot be made is TimezoneDB's without an API key.
pub proof fn lemma_requests_go_to_port_443(k: ProviderKind, tz: Seq<char>)
    ensures
        request_spec(k, tz) matches Ok(req) ==> {
            &&& req.1 == 443
            &&& req.0 == match k {
                ProviderKind::WorldTimeApi => "worldtimeapi.org"@,
                ProviderKind::TimeApiIo => "timeapi.io"@,
                ProviderKind::TimezoneDb { .. } => "api.timezonedb.com"@,
            }
            &&& req.2.len() >= tz.len()
            &&& req.2.subrange(req.2.len() - tz.len(), req.2.len() as int) == tz
        },
        request_spec(k, tz) is Err <==> (k matches ProviderKind::TimezoneDb { api_key } && api_key@.len() == 0),
{
    match request_spec(k, tz) {
        Ok(req) => {
            let p = req.2;
            assert(p.subrange(p.len() - tz.len(), p.len() as int) =~= tz);
        },
        Err(_) => {},
    }
}

/// How service `k` reads the body of its reply.
pub open spec fn response_spec(k: ProviderKind, body: Seq<char>) -> Result<TimeInfo, Seq<char>> {
    match k {
        ProviderKind::WorldTimeApi => world_time_api_spec(body),
        ProviderKind::TimeApiIo => time_api_io_spec(body),
        ProviderKind::TimezoneDb { .. } => timezone_db_spec(body),
    }
}

/// What asking service `k` for `tz` gives, when the transport answers `http`
/// (a body, or a transport error): the request's own error, the transport's
/// error, or the reading of the body.
pub open spec fn provider_outcome(
    k: ProviderKind,
    tz: Seq<char>,
    http: Result<Seq<char>, Seq<char>>,
) -> Result<TimeInfo, Seq<char>> {
    match request_spec(k, tz) {
        Err(e) => Err(e),
        Ok(_) => match http {
            Err(e) => Err(e),
            Ok(body) => response_spec(k, body),
        },
    }
}

impl ProviderKind {
    /// The display name of the service.
    pub fn name(&self) -> (r: String)
        ensures
            r@ == provider_name_spec(*self),
    {
        match self {
            ProviderKind::WorldTimeApi => "WorldTimeAPI".to_owned(),
            ProviderKind::TimeApiIo => "TimeAPI.io".to_owned(),
            ProviderKind::TimezoneDb { .. } => "TimezoneDB".to_owned(),
        }
    }

    /// The request for the time in `timezone`, or why none can be sent.
    pub fn request(&self, timezone: &str) -> (r: ClockResult<HttpRequest>)
        ensures
            match r {
                Ok(req) => request_spec(*self, timezone@) == Ok::<_, Seq<char>>(request_view(req)),
                Err(e) => request_spec(*self, timezone@) == Err::<(Seq<char>, u16, Seq<char>), _>(e@),
            },
    {
        match self {
            ProviderKind::WorldTimeApi => {
                let mut path = "/api/timezone/".to_owned();
                push_str(&mut path, timezone);
                Ok(HttpRequest { host: "worldtimeapi.org".to_owned(), port: 443, path })
            },
            ProviderKind::TimeApiIo => {
                let mut path = "/api/time/current/zone?timeZone=".to_owned();
                push_str(&mut path, timezone);
                Ok(HttpRequest { host: "timeapi.io".to_owned(), port: 443, path })
            },
            ProviderKind::TimezoneDb { api_key, .. } => {
                if api_key.as_str().is_empty() {
                    return Err("API key not configured".to_owned());
                }
                let mut path = "/v2.1/get-time-zone?key=".to_owned();
                push_str(&mut path, api_key.as_str());
                push_str(&mut path, "&format=json&by=zone&zone=");
                push_str(&mut path, timezone);
                Ok(HttpRequest { host: "api.timezonedb.com".to_owned(), port: 443, path })
            },
        }
    }

    /// Reads the body of the service's reply.
    pub fn parse_response(&self, body: &str) -> (r: ClockResult<TimeInfo>)
        ensures
            result_view(r) == response_spec(*self, body@),
    {
        match self {
            ProviderKind::WorldTimeApi => parse_world_time_api(body),
            ProviderKind::TimeApiIo => parse_time_api_io(body),
            ProviderKind::TimezoneDb { .. } => parse_timezone_db(body),
        }
    }

    /// What asking this service for `timezone` gives, once the transport has
    /// answered `http`.
    pub fn outcome(&self, timezone: &str, http: &ClockResult<String>) -> (r: ClockResult<TimeInfo>)
        ensures
            result_view(r) == provider_outcome(
                *self,
                timezone@,
                match http {
                    Ok(b) => Ok(b@),
                    Err(e) => Err(e@),
                },
            ),
    {
        match self.request(timezone) {
            Err(e) => Err(e),
            Ok(_) => match http {
                Err(e) => Err(e.clone()),
                Ok(body) => self.parse_response(body.as_str()),
            },
        }
    }
}

/// Reads `"hh:mm[:...]"` into an hour and a minute.
pub fn parse_time_string(time: &str) -> (r: ClockResult<TimeInfo>)
    ensures
        result_view(r) == parse_time_spec(time@),
{
    let t = chars_of(time);
    parse_time_chars(t.as_slice())
}

fn parse_time_chars(t: &[char]) -> (r: ClockResult<TimeInfo>)
    ensures
        result_view(r) == parse_time_spec(t@),
{
    match second_field_exec(t, ':') {
        None => Err("Invalid time format".to_owned()),
        Some(minute_text) => {
            let hour_text = before_first_exec(t, ':');
            match parse_u8(hour_text.as_slice()) {
                None => Err("Invalid hour".to_owned()),
                Some(hour) => match parse_u8(minute_text.as_slice()) {
                    None => Err("Invalid minute".to_owned()),
                    Some(minute) => Ok(TimeInfo { hour, minute }),
                },
            }
        },
    }
}

/// Reads WorldTimeAPI's reply.
pub fn parse_world_time_api(json: &str) -> (r: ClockResult<TimeInfo>)
    ensures
        result_view(r) == world_time_api_spec(json@),
{
    let datetime = match extract_json_string(json, "\"datetime\":\"") {
        Some(d) => d,
        None => return Err("datetime field not found".to_owned()),
    };
    let d = chars_of(datetime.as_str());
    match second_field_exec(d.as_slice(), 'T') {
        None => Err("Invalid datetime format".to_owned()),
        Some(after_t) => {
            let no_plus = before_first_exec(after_t.as_slice(), '+');
            let time_part = before_first_exec(no_plus.as_slice(), '-');
            parse_time_chars(time_part.as_slice())
        },
    }
}

/// Reads TimeAPI.io's reply.
pub fn parse_time_api_io(json: &str) -> (r: ClockResult<TimeInfo>)
    ensures
        result_view(r) == time_api_io_spec(json@),
{
    let hour = match extract_json_int(json, "\"hour\":") {
        Some(h) => h,
        None => return Err("hour not found".to_owned()),
    };
    let minute = match extract_json_int(json, "\"minute\":") {
        Some(m) => m,
        None => return Err("minute not found".to_owned()),
    };
    Ok(TimeInfo { hour: hour as u8, minute: minute as u8 })
}

/// The first of two string fields that is present.
fn either_string_exec(json: &str, k1: &str, k2: &str) -> (r: Option<String>)
    ensures
        r matches Some(v) ==> either_string(json@, k1@, k2@) == Some(v@),
        r is None ==> either_string(json@, k1@, k2@) is None,
{
    match extract_json_string(json, k1) {
        Some(v) => Some(v),
        None => extract_json_string(json, k2),
    }
}

/// The hour and minute of `timestamp + gmt_offset` seconds.
pub fn time_of_day_exec(timestamp: i32, gmt_offset: i32) -> (r: TimeInfo)
    ensures
        r == time_of_day(timestamp as int, gmt_offset as int),
        r.hour < 24 && r.minute < 60,
{
    let sum: i64 = timestamp as i64 + gmt_offset as i64;
    let local_seconds: i64 = if sum % 86400 < 0 {
        sum % 86400 + 86400
    } else {
        sum % 86400
    };
    assert(local_seconds == (timestamp as int + gmt_offset as int) % 86400);
    assert(0 <= local_seconds < 86400);
    let hour = ((local_seconds / 3600) % 24) as u8;
    let minute = ((local_seconds % 3600) / 60) as u8;
    TimeInfo { hour, minute }
}

/// Reads TimezoneDB's reply.
pub fn parse_timezone_db(json: &str) -> (r: ClockResult<TimeInfo>)
    ensures
        result_view(r) == timezone_db_spec(json@),
{
    let j = chars_of(json);
    let failed1 = chars_of("\"status\":\"FAILED\"");
    let failed2 = chars_of("\"status\": \"FAILED\"");
    if contains(j.as_slice(), failed1.as_slice()) || contains(j.as_slice(), failed2.as_slice()) {
        let message = match either_string_exec(json, "\"message\":\"", "\"message\": \"") {
            Some(m) => m,
            None => "Unknown error".to_owned(),
        };
        let mut e = "API error: ".to_owned();
        push_str(&mut e, message.as_str());
        return Err(e);
    }
    match either_string_exec(json, "\"formatted\":\"", "\"formatted\": \"") {
        Some(formatted) => {
            let f = chars_of(formatted.as_str());
            match second_field_exec(f.as_slice(), ' ') {
                None => Err("Invalid formatted time".to_owned()),
                Some(t) => parse_time_chars(t.as_slice()),
            }
        },
        None => {
            let gmt_offset = match extract_json_int_flexible(json, "gmtOffset") {
                Some(g) => g,
                None => return Err("gmtOffset not found".to_owned()),
            };
            let timestamp = match extract_json_int_flexible(json, "timestamp") {
                Some(t) => t,
                None => return Err("timestamp not found".to_owned()),
            };
            Ok(time_of_day_exec(timestamp, gmt_offset))
        },
    }
}

} // verus!
