use nwsd::daemon::Config;
use nwsd::feed::{
    extract_weather_features, generate_test_alert, AlertProperties, FeedRecord,
};
use nwsd::notify::build_notification;
use nwsd::weather::{Event, Severity, Timeout, Urgency};

fn record(id: &str, severity: &str, event: &str) -> FeedRecord {
    FeedRecord {
        id: id.to_string(),
        headline: format!("headline of {}", id),
        description: format!("description of {}", id),
        severity: severity.to_string(),
        event: event.to_string(),
    }
}

fn alert(id: &str, severity: Severity, event: Event) -> AlertProperties {
    AlertProperties {
        headline: "Short".to_string(),
        description: "Long".to_string(),
        severity,
        id: id.to_string(),
        event,
    }
}

#[test]
fn records_are_read_in_order() {
    let records = vec![
        record("a", "Extreme", "Tornado Warning"),
        record("b", "Minor", "Frost Advisory"),
    ];
    let feed = extract_weather_features(&records);
    assert_eq!(feed.features.len(), 2);
    let first = &feed.features[0].properties;
    assert_eq!(first.id, "a");
    assert_eq!(first.headline, "headline of a");
    assert_eq!(first.description, "description of a");
    assert_eq!(first.severity, Severity::Extreme);
    assert_eq!(first.event, Event::TornadoWarning);
    let second = &feed.features[1].properties;
    assert_eq!(second.id, "b");
    assert_eq!(second.severity, Severity::Minor);
    assert_eq!(second.event, Event::FrostAdvisory);
    let alerts = feed.alerts();
    assert_eq!(alerts.len(), 2);
    assert_eq!(alerts[1].id, "b");
}

#[test]
fn unknown_vocabulary_in_record_is_not_an_error() {
    let feed = extract_weather_features(&vec![record("x", "Apocalyptic", "Meteor Shower Warning")]);
    assert_eq!(feed.features.len(), 1);
    assert_eq!(feed.features[0].properties.event, Event::Unknown);
    assert_eq!(feed.features[0].properties.severity, Severity::Unknown);
}

#[test]
fn empty_feed() {
    let feed = extract_weather_features(&Vec::new());
    assert!(feed.features.is_empty());
}

#[test]
fn console_label_names_event() {
    let feed = extract_weather_features(&vec![record("a", "Severe", "Flood Warning")]);
    assert_eq!(feed.features[0].console_label(), "Flood Warning:");
}

#[test]
fn test_alert_is_fixed() {
    let a = generate_test_alert(&Severity::Severe);
    assert_eq!(a.event, Event::Test);
    assert_eq!(a.severity, Severity::Severe);
    assert_eq!(
        a.id,
        "urn:oid:2.49.0.1.840.0.4b440460568820c3135c6fa9bb92f30c621509d8.003.1"
    );
    assert!(a.headline.starts_with("Test Alert issued January 23"));
    assert!(a.description.starts_with("* THIS IS A TEST WHAT...Snow expected."));
}

#[test]
fn notification_uses_headline_by_default() {
    let config = Config::default();
    let n = build_notification(&alert("a", Severity::Extreme, Event::TornadoWarning), &config);
    assert_eq!(n.summary, "Extreme Weather Alert");
    assert_eq!(n.body, "Short");
    assert_eq!(
        n.icon_path,
        "/usr/share/icons/Papirus-Dark/symbolic/status/weather-tornado-symbolic.svg"
    );
    assert_eq!(n.app_name, "National Weather Service Daemon");
    assert_eq!(n.urgency, Urgency::Critical);
    assert_eq!(n.timeout, Timeout::Never);
}

#[test]
fn notification_detailed_and_icon_override() {
    let mut config = Config::default();
    config.detailed_notification = true;
    config.notification_icon_path = Some("/tmp/icon.svg".to_string());
    let n = build_notification(&alert("a", Severity::Minor, Event::HeatAdvisory), &config);
    assert_eq!(n.summary, "Minor Weather Alert");
    assert_eq!(n.body, "Long");
    assert_eq!(n.icon_path, "/tmp/icon.svg");
    assert_eq!(n.urgency, Urgency::Low);
    assert_eq!(n.timeout, Timeout::Milliseconds(120000));
}

#[test]
fn self_test_minor_detailed() {
    let mut config = Config::default();
    config.detailed_notification = true;
    let a = generate_test_alert(&Severity::Minor);
    let n = build_notification(&a, &config);
    assert_eq!(a.event, Event::Test);
    assert_eq!(n.urgency, Urgency::Low);
    assert_eq!(n.timeout, Timeout::Milliseconds(120000));
    assert_eq!(n.body, a.description);
    assert_eq!(
        n.icon_path,
        "/usr/share/icons/Papirus-Dark/symbolic/status/weather-severe-alert-symbolic.svg"
    );
}

#[test]
fn default_config() {
    let c = Config::default();
    assert_eq!(c.update_interval, 300);
    assert!(!c.detailed_notification);
    assert!(c.notification_icon_path.is_none());
    assert_eq!(c.user_agent, "nwsd notification app (https://github.com/Camerooooon/nwsd)");
    assert_eq!(
        c.alerts_url(),
        "https://api.weather.gov/alerts/active?point=36.974117,-122.030792"
    );
}
