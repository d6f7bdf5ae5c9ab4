use minimal_clock_core::chain::ProviderChain;
use minimal_clock_core::clock::{ClockReading, ClockSource};
use minimal_clock_core::desktop::{
    click_action, conclude_switch, font_size, selection_index, ClickAction, Clock, Config, DesktopStep, WindowConfig,
};

fn reading(now_ns: u64, hour: u16, minute: u16, second: u16) -> ClockReading {
    ClockReading { now_ns, hour, minute, second }
}

#[test]
fn window_defaults_and_font() {
    let w = WindowConfig::default();
    assert_eq!((w.width, w.height, w.x, w.y, w.font_size), (800, 200, Some(500), Some(500), Some(100)));
    assert_eq!(w.font_name, "Consolas");
    assert_eq!(font_size(&w, 10, 10), 100);
    let auto = WindowConfig { font_size: None, ..w };
    assert_eq!(font_size(&auto, 800, 200), 40);
    assert_eq!(font_size(&auto, 100, 300), 24);
    assert_eq!(font_size(&auto, 5000, 4000), 200);
    assert_eq!(font_size(&auto, -5, 100), 24);
}

#[test]
fn desktop_config_add_and_find() {
    let mut c = Config::default();
    assert_eq!(c.window.width, 800);
    assert_eq!(c.add_timezone("  Paris ".to_string()), Ok(()));
    assert_eq!(c.timezones.last().map(|s| s.as_str()), Some("Europe/Paris"));
    assert_eq!(c.add_timezone("paris".to_string()), Err("Timezone 'Europe/Paris' already exists".to_string()));
    assert_eq!(
        c.add_timezone(" Atlantis ".to_string()),
        Err("Timezone 'Atlantis' not found. Use IANA format (e.g., America/Detroit)".to_string())
    );
    assert_eq!(c.find_timezone("").as_deref(), Some("Africa/Cairo"));
    assert_eq!(c.find_timezone("Detroit").as_deref(), Some("America/Detroit"));
}

#[test]
fn desktop_config_migration() {
    let mut c = Config::default();
    assert!(!c.migrate_iana_timezones());
    c.iana_timezones.truncate(3);
    assert!(c.migrate_iana_timezones());
    assert_eq!(c.iana_timezones.len(), 62);
    c.set_last_timezone(Some("UTC".to_string()));
    assert_eq!(c.last_selected_timezone.as_deref(), Some("UTC"));
}

#[test]
fn combo_selection() {
    let zones = vec!["Europe/Moscow".to_string(), "Asia/Tokyo".to_string()];
    assert_eq!(selection_index(&zones, Some("Asia/Tokyo")), 1);
    assert_eq!(selection_index(&zones, Some("UTC")), 0);
    assert_eq!(selection_index(&zones, None), 0);
}

#[test]
fn click_toggles() {
    let last = Some("Asia/Tokyo".to_string());
    assert!(matches!(click_action(&ClockSource::Local, &last), ClickAction::ToTimezone(ref t) if t == "Asia/Tokyo"));
    assert!(matches!(click_action(&ClockSource::Local, &None), ClickAction::Nothing));
    let net = ClockSource::Network { timezone: "UTC".to_string(), offset_min: 0 };
    assert!(matches!(click_action(&net, &None), ClickAction::ToLocal));
}

#[test]
fn window_clock_lines() {
    let providers = ProviderChain::from_config(&Config::default_providers());
    let mut clock = Clock::new(0);
    assert_eq!(clock.display(), "00:00:00");
    assert!(matches!(clock.tick(&providers, reading(1, 9, 5, 7)), DesktopStep::Done(Ok(()))));
    assert_eq!(clock.display(), "Local: 09:05:07");
    match clock.switch_to_network(&providers, "America/New_York".to_string(), reading(2, 12, 0, 0)) {
        DesktopStep::Fetch(r) => assert_eq!(r.path, "/api/timezone/America/New_York"),
        other => panic!("unexpected {:?}", other),
    }
    let reply = r#"{"datetime":"2026-01-12T07:00:00-05:00"}"#.to_string();
    assert!(matches!(clock.resume(&providers, Ok(reply), reading(3, 12, 0, 0)), DesktopStep::Done(Ok(()))));
    assert!(clock.is_showing("America/New_York"));
    clock.set_display("Loading...".to_string());
    assert_eq!(clock.display(), "Loading...");
    let _ = clock.tick(&providers, reading(4, 12, 30, 15));
    assert_eq!(clock.display(), "New_York: 07:30:15");
    clock.switch_to_local();
    assert!(!clock.is_showing("America/New_York"));
}

#[test]
fn window_clock_keeps_old_offset_when_refresh_fails() {
    let providers = ProviderChain::from_config(&Config::default_providers());
    let mut clock = Clock::new(0);
    let _ = clock.switch_to_network(&providers, "Asia/Tokyo".to_string(), reading(0, 10, 0, 0));
    let reply = r#"{"datetime":"2026-01-12T19:30:00+09:00"}"#.to_string();
    let _ = clock.resume(&providers, Ok(reply), reading(0, 10, 0, 0));
    let later = 3_600_000_000_001;
    assert!(matches!(clock.tick(&providers, reading(later, 11, 0, 5)), DesktopStep::Fetch(_)));
    assert!(matches!(clock.resume(&providers, Err("e1".to_string()), reading(later, 11, 0, 6)), DesktopStep::Fetch(_)));
    assert!(matches!(clock.resume(&providers, Err("e2".to_string()), reading(later, 11, 0, 7)), DesktopStep::Done(Ok(()))));
    assert_eq!(clock.display(), "Tokyo: 20:30:05");
}

#[test]
fn window_clock_switch_failure_is_reported() {
    let mut providers = ProviderChain::from_config(&Config::default_providers());
    providers.select_provider(2);
    let mut clock = Clock::new(0);
    let _ = clock.switch_to_network(&providers, "Asia/Tokyo".to_string(), reading(0, 10, 0, 0));
    match clock.resume(&providers, Ok("{}".to_string()), reading(0, 10, 0, 0)) {
        DesktopStep::Done(Err(e)) => assert_eq!(e, "TimeAPI.io: hour not found"),
        other => panic!("unexpected {:?}", other),
    }
    assert!(matches!(clock.source(), ClockSource::Local));
}

#[test]
fn window_clock_switch_falls_back() {
    let providers = ProviderChain::from_config(&Config::default_providers());
    let mut clock = Clock::new(0);
    match clock.switch_to_network(&providers, "Europe/London".to_string(), reading(0, 12, 0, 0)) {
        DesktopStep::Fetch(r) => assert_eq!(r.path, "/api/timezone/Europe/London"),
        other => panic!("unexpected {:?}", other),
    }
    match clock.resume(&providers, Err("WinHttpConnect failed".to_string()), reading(1, 12, 0, 0)) {
        DesktopStep::Fetch(r) => assert_eq!(r.path, "/api/time/current/zone?timeZone=Europe/London"),
        other => panic!("unexpected {:?}", other),
    }
    let reply = r#"{"year":2026,"hour":11,"minute":0}"#.to_string();
    assert!(matches!(clock.resume(&providers, Ok(reply), reading(2, 12, 0, 0)), DesktopStep::Done(Ok(()))));
    assert!(clock.is_showing("Europe/London"));
    assert!(matches!(clock.tick(&providers, reading(3, 12, 30, 9)), DesktopStep::Done(Ok(()))));
    assert_eq!(clock.display(), "London: 11:30:09");
}

#[test]
fn concluding_a_switch() {
    let mut config = Config::default();
    let mut clock = Clock::new(0);
    conclude_switch(&mut config, &mut clock, "Asia/Tokyo".to_string(), true, Ok(()));
    assert_eq!(config.last_selected_timezone.as_deref(), Some("Asia/Tokyo"));
    assert_eq!(clock.display(), "00:00:00");
    conclude_switch(&mut config, &mut clock, "UTC".to_string(), false, Ok(()));
    assert_eq!(config.last_selected_timezone.as_deref(), Some("Asia/Tokyo"));
    conclude_switch(&mut config, &mut clock, "UTC".to_string(), true, Err("TimeAPI.io: hour not found".to_string()));
    assert_eq!(clock.display(), "Error: TimeAPI.io: hour not found");
    assert_eq!(config.last_selected_timezone.as_deref(), Some("Asia/Tokyo"));
}
