use minimal_clock_core::chain::{FetchStep, ProviderChain};
use minimal_clock_core::config::{lower_zones, match_lowered, suggestions_lowered, ClockCoreConfig, ProviderConfig};
use minimal_clock_core::providers::TimeInfo;

fn provider(kind: &str, priority: u32, enabled: bool, key: &str) -> ProviderConfig {
    ProviderConfig { provider_type: kind.to_string(), priority, enabled, api_key: key.to_string() }
}

fn empty_config() -> ClockCoreConfig {
    ClockCoreConfig { timezones: vec![], providers: vec![], iana_timezones: vec![], last_selected_timezone: None }
}

#[test]
fn defaults() {
    let c = ClockCoreConfig::default();
    assert_eq!(c.timezones.len(), 6);
    assert_eq!(c.timezones[0], "Europe/Moscow");
    assert_eq!(c.iana_timezones.len(), 62);
    assert_eq!(c.iana_timezones[61], "UTC");
    assert_eq!(c.providers.len(), 3);
    assert_eq!(c.providers[2].provider_type, "timezonedb");
    assert!(!c.providers[2].enabled);
    assert_eq!(c.last_selected_timezone, None);
    assert_eq!(ClockCoreConfig::default_iana_timezones()[5], "America/Argentina/Buenos_Aires");
}

#[test]
fn normalize_fills_what_is_missing() {
    let mut c = empty_config();
    c.last_selected_timezone = Some("Asia/Tokyo".to_string());
    c.normalize();
    assert_eq!(c.timezones, ClockCoreConfig::default_timezones());
    assert_eq!(c.providers.len(), 3);
    assert_eq!(c.iana_timezones.len(), 62);
    assert_eq!(c.last_selected_timezone.as_deref(), Some("Asia/Tokyo"));
    let mut kept = ClockCoreConfig::default();
    kept.timezones = vec!["UTC".to_string()];
    kept.normalize();
    assert_eq!(kept.timezones, vec!["UTC".to_string()]);
    let before = c.clone();
    c.normalize();
    assert_eq!(c.timezones, before.timezones);
    assert_eq!(c.iana_timezones, before.iana_timezones);
}

#[test]
fn find_timezone_passes() {
    let c = ClockCoreConfig::default();
    assert_eq!(c.find_timezone("europe/london").as_deref(), Some("Europe/London"));
    assert_eq!(c.find_timezone("  Tokyo  ").as_deref(), Some("Asia/Tokyo"));
    assert_eq!(c.find_timezone("new_york").as_deref(), Some("America/New_York"));
    assert_eq!(c.find_timezone("lon").as_deref(), Some("Europe/London"));
    assert_eq!(c.find_timezone("asia/").as_deref(), Some("Asia/Bangkok"));
    assert_eq!(c.find_timezone("new york"), None);
    assert_eq!(c.find_timezone("   "), None);
    assert_eq!(c.find_timezone("utc").as_deref(), Some("UTC"));
}

#[test]
fn add_timezone_adds_once() {
    let mut c = ClockCoreConfig::default();
    assert_eq!(c.add_timezone("paris"), Ok("Europe/Paris".to_string()));
    assert_eq!(c.timezones.len(), 7);
    assert_eq!(c.timezones[6], "Europe/Paris");
    assert_eq!(c.add_timezone("Paris"), Err("Timezone 'Europe/Paris' already exists".to_string()));
    assert_eq!(c.timezones.len(), 7);
    assert_eq!(c.add_timezone("tokyo"), Err("Timezone 'Asia/Tokyo' already exists".to_string()));
}

#[test]
fn add_timezone_not_found_messages() {
    let mut c = ClockCoreConfig::default();
    assert_eq!(
        c.add_timezone("Atlantis"),
        Err("Timezone 'Atlantis' not found. Use IANA format.".to_string())
    );
    assert_eq!(
        c.add_timezone(""),
        Err("Timezone '' not found. Did you mean:\nAfrica/Cairo\nAfrica/Johannesburg\nAfrica/Lagos\nAfrica/Nairobi\nAmerica/Anchorage".to_string())
    );
    assert_eq!(c.timezones.len(), 6);
}

#[test]
fn chain_order_and_names() {
    let configs = vec![
        provider("timezonedb", 3, true, "key"),
        provider("timeapi_io", 1, true, ""),
        provider("unknown", 0, true, ""),
        provider("worldtimeapi", 2, false, ""),
        provider("worldtimeapi", 1, true, ""),
    ];
    let chain = ProviderChain::from_config(&configs);
    assert_eq!(chain.provider_names(), vec!["Auto (fallback)", "TimeAPI.io", "WorldTimeAPI", "TimezoneDB"]);
    assert_eq!(chain.active_index(), 0);
    let default_chain = ProviderChain::from_config(&ClockCoreConfig::default_providers());
    assert_eq!(default_chain.provider_names(), vec!["Auto (fallback)", "WorldTimeAPI", "TimeAPI.io"]);
}

#[test]
fn selection_by_position() {
    let mut chain = ProviderChain::from_config(&ClockCoreConfig::default_providers());
    chain.set_active_provider(2);
    assert_eq!(chain.active_index(), 2);
    chain.set_active_provider(3);
    assert_eq!(chain.active_index(), 0);
    chain.set_active_provider(1);
    chain.set_active_provider(0);
    assert_eq!(chain.active_index(), 0);
    chain.select_provider(2);
    chain.select_provider(7);
    assert_eq!(chain.active_index(), 2);
    chain.select_provider(0);
    assert_eq!(chain.active_index(), 0);
}

fn expect_ask(step: FetchStep, host: &str) -> minimal_clock_core::chain::FetchProgress {
    match step {
        FetchStep::Ask { progress, request } => {
            assert_eq!(request.host, host);
            progress
        }
        FetchStep::Done(r) => panic!("expected a request, got {:?}", r),
    }
}

#[test]
fn automatic_fallback_takes_first_success() {
    let chain = ProviderChain::from_config(&ClockCoreConfig::default_providers());
    let p = expect_ask(chain.start_fetch("Asia/Tokyo"), "worldtimeapi.org");
    let p = expect_ask(chain.answer("Asia/Tokyo", p, &Err("Send failed".to_string())), "timeapi.io");
    match chain.answer("Asia/Tokyo", p, &Ok(r#"{"hour":19,"minute":30}"#.to_string())) {
        FetchStep::Done(Ok(t)) => {
            assert_eq!(t.provider_name, "TimeAPI.io");
            assert_eq!(t.info, TimeInfo { hour: 19, minute: 30 });
        }
        other => panic!("unexpected {:?}", other),
    }
}

#[test]
fn automatic_fallback_reports_every_failure() {
    let configs = vec![
        provider("worldtimeapi", 1, true, ""),
        provider("timezonedb", 2, true, ""),
        provider("timeapi_io", 3, true, ""),
    ];
    let chain = ProviderChain::from_config(&configs);
    let p = expect_ask(chain.start_fetch("UTC"), "worldtimeapi.org");
    let p = expect_ask(chain.answer("UTC", p, &Ok("{}".to_string())), "timeapi.io");
    match chain.answer("UTC", p, &Err("Receive failed: 0x00002EFD".to_string())) {
        FetchStep::Done(Err(e)) => assert_eq!(
            e,
            "All providers failed:\nWorldTimeAPI: datetime field not found\nTimezoneDB: API key not configured\nTimeAPI.io: Receive failed: 0x00002EFD"
        ),
        other => panic!("unexpected {:?}", other),
    }
    let none = ProviderChain::from_config(&vec![]);
    match none.start_fetch("UTC") {
        FetchStep::Done(Err(e)) => assert_eq!(e, "All providers failed:\n"),
        other => panic!("unexpected {:?}", other),
    }
}

#[test]
fn selected_service_has_no_fallback() {
    let mut chain = ProviderChain::from_config(&ClockCoreConfig::default_providers());
    chain.set_active_provider(1);
    let p = expect_ask(chain.start_fetch("UTC"), "worldtimeapi.org");
    match chain.answer("UTC", p, &Err("Send failed".to_string())) {
        FetchStep::Done(Err(e)) => assert_eq!(e, "WorldTimeAPI: Send failed"),
        other => panic!("unexpected {:?}", other),
    }
    let configs = vec![provider("timezonedb", 1, true, "")];
    let mut db = ProviderChain::from_config(&configs);
    db.set_active_provider(1);
    match db.start_fetch("UTC") {
        FetchStep::Done(Err(e)) => assert_eq!(e, "TimezoneDB: API key not configured"),
        other => panic!("unexpected {:?}", other),
    }
}

#[test]
fn search_over_lowered_names_and_cities() {
    let zones: Vec<String> = vec!["America/New_York".into(), "Europe/London".into(), "Asia/Tokyo".into()];
    let names: Vec<String> = vec!["america/new_york".into(), "europe/london".into(), "asia/tokyo".into()];
    let cities: Vec<String> = vec!["new_york".into(), "london".into(), "tokyo".into()];
    let q: Vec<char> = "york".chars().collect();
    assert_eq!(match_lowered(&zones, &names, &cities, &q).as_deref(), Some("America/New_York"));
    let q: Vec<char> = "london".chars().collect();
    assert_eq!(match_lowered(&zones, &names, &cities, &q).as_deref(), Some("Europe/London"));
    let q: Vec<char> = "asia/".chars().collect();
    assert_eq!(match_lowered(&zones, &names, &cities, &q).as_deref(), Some("Asia/Tokyo"));
    let q: Vec<char> = "o".chars().collect();
    assert_eq!(suggestions_lowered(&zones, &names, &cities, &q), zones);
    let q: Vec<char> = "zz".chars().collect();
    assert_eq!(match_lowered(&zones, &names, &cities, &q), None);
    assert!(suggestions_lowered(&zones, &names, &cities, &q).is_empty());
    let (n, c) = lower_zones(&zones);
    assert_eq!(n, names);
    assert_eq!(c, cities);
}
