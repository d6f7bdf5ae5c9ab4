use minimal_clock_core::json::{extract_json_int, extract_json_int_flexible, extract_json_string};
use minimal_clock_core::providers::{
    parse_time_api_io, parse_time_string, parse_timezone_db, parse_world_time_api, time_of_day_exec,
    ProviderKind, TimeInfo,
};

fn t(hour: u8, minute: u8) -> TimeInfo {
    TimeInfo { hour, minute }
}

#[test]
fn time_string_reads_hour_and_minute() {
    assert_eq!(parse_time_string("23:42:54.352147"), Ok(t(23, 42)));
    assert_eq!(parse_time_string("05:07"), Ok(t(5, 7)));
    assert_eq!(parse_time_string("+5:07"), Ok(t(5, 7)));
}

#[test]
fn time_string_errors() {
    assert_eq!(parse_time_string("1234"), Err("Invalid time format".to_string()));
    assert_eq!(parse_time_string("ab:10"), Err("Invalid hour".to_string()));
    assert_eq!(parse_time_string("300:10"), Err("Invalid hour".to_string()));
    assert_eq!(parse_time_string("-1:10"), Err("Invalid hour".to_string()));
    assert_eq!(parse_time_string("10:xx"), Err("Invalid minute".to_string()));
    assert_eq!(parse_time_string("10:"), Err("Invalid minute".to_string()));
}

#[test]
fn json_string_field() {
    let json = r#"{"abbreviation":"+07","datetime":"2026-01-12T23:42:54.352147+07:00","x":1}"#;
    assert_eq!(
        extract_json_string(json, "\"datetime\":\""),
        Some("2026-01-12T23:42:54.352147+07:00".to_string())
    );
    assert_eq!(extract_json_string(json, "\"missing\":\""), None);
    assert_eq!(extract_json_string("\"key\":\"unterminated", "\"key\":\""), None);
    assert_eq!(extract_json_string("\"k\":\"\"", "\"k\":\""), Some(String::new()));
}

#[test]
fn json_int_field() {
    let json = r#"{"year":2026,"hour":23,"minute":7,"offset":-300}"#;
    assert_eq!(extract_json_int(json, "\"hour\":"), Some(23));
    assert_eq!(extract_json_int(json, "\"minute\":"), Some(7));
    assert_eq!(extract_json_int(json, "\"offset\":"), Some(-300));
    assert_eq!(extract_json_int(json, "\"second\":"), None);
    assert_eq!(extract_json_int("\"hour\": 23", "\"hour\":"), None);
    assert_eq!(extract_json_int("\"hour\":-", "\"hour\":"), None);
    assert_eq!(extract_json_int("\"hour\":1-2", "\"hour\":"), None);
    assert_eq!(extract_json_int("\"hour\":99999999999", "\"hour\":"), None);
    assert_eq!(extract_json_int("\"hour\":-2147483648", "\"hour\":"), Some(i32::MIN));
}

#[test]
fn json_int_flexible_spacing() {
    assert_eq!(extract_json_int_flexible(r#"{"gmtOffset":25200}"#, "gmtOffset"), Some(25200));
    assert_eq!(extract_json_int_flexible(r#"{"gmtOffset": 25200}"#, "gmtOffset"), Some(25200));
    assert_eq!(extract_json_int_flexible("{\"gmtOffset\":\n   -3600}", "gmtOffset"), Some(-3600));
    assert_eq!(extract_json_int_flexible("{\"gmtOffset\"\r\n: 60}", "gmtOffset"), Some(60));
    assert_eq!(extract_json_int_flexible(r#"{"gmtOffset":"x"}"#, "gmtOffset"), None);
    assert_eq!(extract_json_int_flexible(r#"{"other":1}"#, "gmtOffset"), None);
    assert_eq!(extract_json_int_flexible(r#"{"gmtOffset" : 3600}"#, "gmtOffset"), Some(3600));
    let spaced = r#"{"status":"OK","gmtOffset" : 3600,"timestamp" : 0}"#;
    assert_eq!(parse_timezone_db(spaced), Ok(t(1, 0)));
}

#[test]
fn world_time_api_reply() {
    let json = r#"{"datetime":"2026-01-12T23:42:54.352147+07:00"}"#;
    assert_eq!(parse_world_time_api(json), Ok(t(23, 42)));
    let west = r#"{"datetime":"2026-01-12T05:07:00.1-05:00"}"#;
    assert_eq!(parse_world_time_api(west), Ok(t(5, 7)));
    assert_eq!(parse_world_time_api("{}"), Err("datetime field not found".to_string()));
    assert_eq!(
        parse_world_time_api(r#"{"datetime":"2026-01-12"}"#),
        Err("Invalid datetime format".to_string())
    );
}

#[test]
fn time_api_io_reply() {
    let json = r#"{"year":2026,"hour":19,"minute":30,"seconds":2}"#;
    assert_eq!(parse_time_api_io(json), Ok(t(19, 30)));
    assert_eq!(parse_time_api_io(r#"{"minute":30}"#), Err("hour not found".to_string()));
    assert_eq!(parse_time_api_io(r#"{"hour":19}"#), Err("minute not found".to_string()));
    assert_eq!(parse_time_api_io(r#"{"hour":300,"minute":-1}"#), Ok(t(44, 255)));
}

#[test]
fn timezone_db_reply() {
    let failed = r#"{"status":"FAILED","message":"Invalid API key."}"#;
    assert_eq!(parse_timezone_db(failed), Err("API error: Invalid API key.".to_string()));
    let failed_spaced = r#"{"status": "FAILED"}"#;
    assert_eq!(parse_timezone_db(failed_spaced), Err("API error: Unknown error".to_string()));
    let formatted = r#"{"status":"OK","formatted":"2026-01-12 23:42:54"}"#;
    assert_eq!(parse_timezone_db(formatted), Ok(t(23, 42)));
    let bad_formatted = r#"{"status":"OK","formatted":"2026-01-12"}"#;
    assert_eq!(parse_timezone_db(bad_formatted), Err("Invalid formatted time".to_string()));
    let numbers = r#"{"status":"OK","gmtOffset": 25200,"timestamp":1700000000}"#;
    assert_eq!(parse_timezone_db(numbers), Ok(t(5, 13)));
    assert_eq!(parse_timezone_db(r#"{"timestamp":1}"#), Err("gmtOffset not found".to_string()));
    assert_eq!(parse_timezone_db(r#"{"gmtOffset":1}"#), Err("timestamp not found".to_string()));
}

#[test]
fn time_of_day_wraps_below_zero() {
    assert_eq!(time_of_day_exec(0, -3600), t(23, 0));
    assert_eq!(time_of_day_exec(86399, 0), t(23, 59));
    assert_eq!(time_of_day_exec(i32::MAX, i32::MAX), time_of_day_from_i64(2 * i32::MAX as i64));
}

fn time_of_day_from_i64(seconds: i64) -> TimeInfo {
    let local = seconds.rem_euclid(86400);
    t(((local / 3600) % 24) as u8, ((local % 3600) / 60) as u8)
}

#[test]
fn requests_for_each_service() {
    let r = ProviderKind::WorldTimeApi.request("Asia/Tokyo").unwrap();
    assert_eq!((r.host.as_str(), r.port, r.path.as_str()), ("worldtimeapi.org", 443, "/api/timezone/Asia/Tokyo"));
    let r = ProviderKind::TimeApiIo.request("Asia/Tokyo").unwrap();
    assert_eq!(r.path, "/api/time/current/zone?timeZone=Asia/Tokyo");
    assert_eq!(r.host, "timeapi.io");
    let no_key = ProviderKind::TimezoneDb { api_key: String::new() };
    assert_eq!(no_key.request("UTC").unwrap_err(), "API key not configured");
    let keyed = ProviderKind::TimezoneDb { api_key: "K1".to_string() };
    let r = keyed.request("UTC").unwrap();
    assert_eq!(r.host, "api.timezonedb.com");
    assert_eq!(r.path, "/v2.1/get-time-zone?key=K1&format=json&by=zone&zone=UTC");
}

#[test]
fn outcome_combines_request_transport_and_reply() {
    let no_key = ProviderKind::TimezoneDb { api_key: String::new() };
    assert_eq!(no_key.outcome("UTC", &Ok("{}".to_string())), Err("API key not configured".to_string()));
    assert_eq!(
        ProviderKind::TimeApiIo.outcome("UTC", &Err("Send failed: 0x00002EE7".to_string())),
        Err("Send failed: 0x00002EE7".to_string())
    );
    assert_eq!(
        ProviderKind::TimeApiIo.outcome("UTC", &Ok(r#"{"hour":1,"minute":2}"#.to_string())),
        Ok(t(1, 2))
    );
    assert_eq!(ProviderKind::TimezoneDb { api_key: "k".into() }.name(), "TimezoneDB");
}

#[test]
fn negative_local_seconds_give_a_time_of_day() {
    let negative = r#"{"status":"OK","gmtOffset":-7200,"timestamp":3600}"#;
    assert_eq!(parse_timezone_db(negative), Ok(t(23, 0)));
    assert_eq!(time_of_day_exec(0, -90), t(23, 58));
    assert_eq!(time_of_day_exec(i32::MIN, i32::MIN), time_of_day_from_i64(2 * i32::MIN as i64));
}
