use minimal_clock_core::clock::{
    offset_minutes, timezone_label, ClockCore, ClockOutcome, ClockReading, ClockSnapshot, ClockSource,
    ClockStep, DEFAULT_NETWORK_REFRESH_INTERVAL_NS,
};
use minimal_clock_core::config::ClockCoreConfig;
use minimal_clock_core::providers::TimeInfo;

fn reading(now_ns: u64, hour: u16, minute: u16, second: u16) -> ClockReading {
    ClockReading { now_ns, hour, minute, second }
}

fn snapshot(step: ClockStep) -> ClockSnapshot {
    match step {
        ClockStep::Done(ClockOutcome::Snapshot(s)) => s,
        other => panic!("expected a snapshot, got {:?}", other),
    }
}

fn request_host(step: &ClockStep) -> String {
    match step {
        ClockStep::Fetch(r) => r.host.clone(),
        other => panic!("expected a request, got {:?}", other),
    }
}

const TOKYO_REPLY: &str = r#"{"datetime":"2026-01-12T19:30:05.1+09:00"}"#;

#[test]
fn local_tick() {
    let mut core = ClockCore::new(ClockCoreConfig::default(), 0);
    let s = snapshot(core.tick(reading(5, 9, 5, 7)));
    assert!(s.ok);
    assert_eq!(s.label, "Local");
    assert_eq!(s.text, "Local 09:05:07");
    assert_eq!(s.tooltip, "Local system time");
    assert_eq!(s.source, "local");
    assert_eq!(s.timezone, None);
    let s = core.switch_to_local(reading(6, 23, 59, 0));
    assert_eq!(s.text, "Local 23:59:00");
}

#[test]
fn switch_to_timezone_fetches_and_remembers() {
    let mut core = ClockCore::new(ClockCoreConfig::default(), 0);
    let step = core.switch_to_timezone("Asia/Tokyo".to_string(), reading(10, 10, 0, 0));
    assert_eq!(request_host(&step), "worldtimeapi.org");
    assert!(core.is_awaiting_response());
    let step = core.resume(Ok(TOKYO_REPLY.to_string()), reading(20, 10, 0, 3));
    assert!(matches!(step, ClockStep::Tick));
    let step = core.tick(reading(21, 10, 0, 3));
    match step {
        ClockStep::Done(ClockOutcome::Switched(Ok(s))) => {
            assert_eq!(s.text, "Tokyo 19:30:03");
            assert_eq!(s.label, "Tokyo");
            assert_eq!(s.tooltip, "Asia/Tokyo via WorldTimeAPI");
            assert_eq!(s.source, "network");
            assert_eq!(s.timezone.as_deref(), Some("Asia/Tokyo"));
            assert_eq!(s.provider.as_deref(), Some("WorldTimeAPI"));
        }
        other => panic!("unexpected {:?}", other),
    }
    assert!(!core.is_awaiting_response());
    assert_eq!(core.config().last_selected_timezone.as_deref(), Some("Asia/Tokyo"));
    match core.source() {
        ClockSource::Network { timezone, offset_min } => {
            assert_eq!(timezone, "Asia/Tokyo");
            assert_eq!(*offset_min, 570);
        }
        ClockSource::Local => panic!("still local"),
    }
    let s = snapshot(core.tick(reading(30, 11, 15, 42)));
    assert_eq!(s.text, "Tokyo 20:45:42");
}

#[test]
fn stale_offset_is_fetched_again_on_tick() {
    let mut core = ClockCore::new(ClockCoreConfig::default(), 0);
    let _ = core.switch_to_timezone("Asia/Tokyo".to_string(), reading(10, 10, 0, 0));
    let _ = core.resume(Ok(TOKYO_REPLY.to_string()), reading(10, 10, 0, 0));
    let _ = core.tick(reading(10, 10, 0, 0));
    let later = 10 + DEFAULT_NETWORK_REFRESH_INTERVAL_NS + 1;
    let step = core.tick(reading(later, 11, 0, 0));
    assert_eq!(request_host(&step), "worldtimeapi.org");
    let step = core.resume(Err("Send failed".to_string()), reading(later, 11, 0, 1));
    assert_eq!(request_host(&step), "timeapi.io");
    let s = snapshot(core.resume(Err("Receive failed".to_string()), reading(later, 11, 0, 2)));
    assert!(!s.ok);
    assert_eq!(s.text, "Clock error");
    assert_eq!(s.label, "Clock");
    assert_eq!(s.source, "error");
    assert_eq!(
        s.error.as_deref(),
        Some("All providers failed:\nWorldTimeAPI: Send failed\nTimeAPI.io: Receive failed")
    );
    match core.source() {
        ClockSource::Network { offset_min, .. } => assert_eq!(*offset_min, 570),
        ClockSource::Local => panic!("source changed"),
    }
}

#[test]
fn refresh_interval_can_be_changed() {
    let mut core = ClockCore::new(ClockCoreConfig::default(), 0);
    core.set_network_refresh_interval(100);
    let _ = core.switch_to_timezone("UTC".to_string(), reading(0, 0, 0, 0));
    let _ = core.resume(Ok(r#"{"datetime":"2026-01-12T00:00:00+00:00"}"#.to_string()), reading(0, 0, 0, 0));
    assert!(matches!(core.tick(reading(100, 0, 0, 0)), ClockStep::Done(_)));
    assert!(matches!(core.tick(reading(101, 0, 0, 0)), ClockStep::Fetch(_)));
}

#[test]
fn switch_to_last_timezone_without_one() {
    let mut core = ClockCore::new(ClockCoreConfig::default(), 0);
    match core.switch_to_last_timezone(reading(0, 0, 0, 0)) {
        ClockStep::Done(ClockOutcome::Switched(Err(e))) => assert_eq!(e, "No saved timezone"),
        other => panic!("unexpected {:?}", other),
    }
    match core.refresh_offset(reading(0, 0, 0, 0)) {
        ClockStep::Done(ClockOutcome::Refreshed(Ok(()))) => {}
        other => panic!("unexpected {:?}", other),
    }
}

#[test]
fn failed_switch_changes_nothing() {
    let mut config = ClockCoreConfig::default();
    config.providers = vec![];
    let mut core = ClockCore::new(config, 0);
    assert_eq!(core.provider_names().len(), 3);
    core.config_mut().providers.clear();
    match core.switch_to_timezone("Asia/Tokyo".to_string(), reading(0, 0, 0, 0)) {
        ClockStep::Fetch(_) => {}
        other => panic!("unexpected {:?}", other),
    }
    core.set_active_provider_index(2);
    assert_eq!(core.active_provider_index(), 2);
    let mut core2 = ClockCore::new(ClockCoreConfig::default(), 0);
    core2.set_active_provider_index(1);
    let _ = core2.switch_to_timezone("Asia/Tokyo".to_string(), reading(0, 0, 0, 0));
    match core2.resume(Err("timeout".to_string()), reading(0, 0, 0, 0)) {
        ClockStep::Done(ClockOutcome::Switched(Err(e))) => assert_eq!(e, "WorldTimeAPI: timeout"),
        other => panic!("unexpected {:?}", other),
    }
    assert!(matches!(core2.source(), ClockSource::Local));
    assert_eq!(core2.config().last_selected_timezone, None);
}

#[test]
fn switch_to_last_timezone_and_refresh() {
    let mut config = ClockCoreConfig::default();
    config.last_selected_timezone = Some("America/New_York".to_string());
    let mut core = ClockCore::new(config, 0);
    let step = core.switch_to_last_timezone(reading(0, 12, 0, 0));
    assert_eq!(request_host(&step), "worldtimeapi.org");
    let reply = r#"{"datetime":"2026-01-12T07:00:00-05:00"}"#;
    assert!(matches!(core.resume(Ok(reply.to_string()), reading(0, 12, 0, 9)), ClockStep::Tick));
    match core.tick(reading(0, 12, 0, 9)) {
        ClockStep::Done(ClockOutcome::Switched(Ok(s))) => {
            assert_eq!(s.label, "New York");
            assert_eq!(s.text, "New York 07:00:09");
        }
        other => panic!("unexpected {:?}", other),
    }
    let step = core.refresh_offset(reading(5, 12, 30, 0));
    assert_eq!(request_host(&step), "worldtimeapi.org");
    match core.resume(Ok(r#"{"datetime":"2026-01-12T07:29:00-05:00"}"#.to_string()), reading(6, 12, 30, 0)) {
        ClockStep::Done(ClockOutcome::Refreshed(Ok(()))) => {}
        other => panic!("unexpected {:?}", other),
    }
    match core.source() {
        ClockSource::Network { offset_min, .. } => assert_eq!(*offset_min, -301),
        ClockSource::Local => panic!("local"),
    }
}

#[test]
fn offsets_stay_within_half_a_day() {
    assert_eq!(offset_minutes(TimeInfo { hour: 0, minute: 10 }, 23, 50), 20);
    assert_eq!(offset_minutes(TimeInfo { hour: 23, minute: 50 }, 0, 10), -20);
    assert_eq!(offset_minutes(TimeInfo { hour: 12, minute: 0 }, 0, 0), 720);
    assert_eq!(offset_minutes(TimeInfo { hour: 0, minute: 0 }, 12, 0), -720);
    assert_eq!(offset_minutes(TimeInfo { hour: 19, minute: 30 }, 10, 0), 570);
}

#[test]
fn labels_and_errors() {
    assert_eq!(timezone_label("America/Argentina/Buenos_Aires"), "Buenos Aires");
    assert_eq!(timezone_label("UTC"), "UTC");
    assert_eq!(timezone_label("Europe/"), "");
    let e = ClockSnapshot::error("boom".to_string());
    assert!(!e.ok);
    assert_eq!(e.tooltip, "boom");
    assert_eq!(e.error.as_deref(), Some("boom"));
    assert_eq!(e.provider, None);
}

#[test]
fn add_timezone_through_the_clock() {
    let mut core = ClockCore::new(ClockCoreConfig::default(), 0);
    assert_eq!(core.add_timezone("sydney"), Ok("Australia/Sydney".to_string()));
    assert_eq!(core.config().timezones.len(), 7);
    assert!(core.add_timezone("sydney").is_err());
}

#[test]
fn switch_falls_back_to_the_next_service() {
    let mut core = ClockCore::new(ClockCoreConfig::default(), 0);
    let step = core.switch_to_timezone("Asia/Tokyo".to_string(), reading(10, 10, 0, 0));
    assert_eq!(request_host(&step), "worldtimeapi.org");
    let step = core.resume(Err("Send failed: 0x80072EE7".to_string()), reading(11, 10, 0, 1));
    assert_eq!(request_host(&step), "timeapi.io");
    let step = core.resume(Ok(r#"{"hour":19,"minute":45}"#.to_string()), reading(12, 10, 0, 2));
    assert!(matches!(step, ClockStep::Tick));
    match core.tick(reading(13, 10, 0, 2)) {
        ClockStep::Done(ClockOutcome::Switched(Ok(s))) => {
            assert_eq!(s.text, "Tokyo 19:45:02");
            assert_eq!(s.provider.as_deref(), Some("TimeAPI.io"));
            assert_eq!(s.tooltip, "Asia/Tokyo via TimeAPI.io");
        }
        other => panic!("unexpected {:?}", other),
    }
}

#[test]
fn switch_reports_every_failure_when_all_fail() {
    let mut core = ClockCore::new(ClockCoreConfig::default(), 0);
    let _ = core.switch_to_timezone("Asia/Tokyo".to_string(), reading(10, 10, 0, 0));
    let _ = core.resume(Ok("{}".to_string()), reading(11, 10, 0, 1));
    match core.resume(Err("Receive failed: 0x00002EE2".to_string()), reading(12, 10, 0, 2)) {
        ClockStep::Done(ClockOutcome::Switched(Err(e))) => assert_eq!(
            e,
            "All providers failed:\nWorldTimeAPI: datetime field not found\nTimeAPI.io: Receive failed: 0x00002EE2"
        ),
        other => panic!("unexpected {:?}", other),
    }
    assert!(matches!(core.source(), ClockSource::Local));
    assert_eq!(core.config().last_selected_timezone, None);
}

#[test]
fn switch_ends_with_a_tick_that_may_fetch_again() {
    let mut core = ClockCore::new(ClockCoreConfig::default(), 0);
    core.set_network_refresh_interval(0);
    let _ = core.switch_to_timezone("Asia/Tokyo".to_string(), reading(5, 10, 0, 0));
    assert!(matches!(core.resume(Ok(TOKYO_REPLY.to_string()), reading(5, 10, 0, 0)), ClockStep::Tick));
    assert_eq!(core.config().last_selected_timezone.as_deref(), Some("Asia/Tokyo"));
    let step = core.tick(reading(6, 10, 0, 1));
    assert_eq!(request_host(&step), "worldtimeapi.org");
    let step = core.resume(Err("Send failed".to_string()), reading(7, 10, 0, 1));
    assert_eq!(request_host(&step), "timeapi.io");
    match core.resume(Err("Receive failed".to_string()), reading(8, 10, 0, 2)) {
        ClockStep::Done(ClockOutcome::Switched(Ok(s))) => {
            assert!(!s.ok);
            assert_eq!(s.text, "Clock error");
            assert_eq!(
                s.error.as_deref(),
                Some("All providers failed:\nWorldTimeAPI: Send failed\nTimeAPI.io: Receive failed")
            );
        }
        other => panic!("unexpected {:?}", other),
    }
    assert_eq!(core.config().last_selected_timezone.as_deref(), Some("Asia/Tokyo"));
    assert!(matches!(core.tick(reading(8, 10, 0, 2)), ClockStep::Fetch(_)));
    core.set_network_refresh_interval(10);
    let s = snapshot(core.tick(reading(9, 10, 0, 2)));
    assert_eq!(s.text, "Tokyo 19:30:02");
}
