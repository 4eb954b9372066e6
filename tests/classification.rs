use nwsd::text::text_eq;
use nwsd::weather::{
    get_color_for_severity, get_icon_for_event, get_notification_urgency_for_severity,
    get_timeout_for_severity, ConsoleColor, Event, Severity, Timeout, Urgency,
};

#[test]
fn urgency_follows_severity() {
    assert_eq!(get_notification_urgency_for_severity(&Severity::Extreme), Urgency::Critical);
    assert_eq!(get_notification_urgency_for_severity(&Severity::Severe), Urgency::Critical);
    assert_eq!(get_notification_urgency_for_severity(&Severity::Moderate), Urgency::Normal);
    assert_eq!(get_notification_urgency_for_severity(&Severity::Unknown), Urgency::Normal);
    assert_eq!(get_notification_urgency_for_severity(&Severity::Minor), Urgency::Low);
}

#[test]
fn timeout_follows_severity() {
    assert_eq!(get_timeout_for_severity(&Severity::Extreme), Timeout::Never);
    assert_eq!(get_timeout_for_severity(&Severity::Severe), Timeout::Never);
    assert_eq!(get_timeout_for_severity(&Severity::Moderate), Timeout::Never);
    assert_eq!(get_timeout_for_severity(&Severity::Unknown), Timeout::Never);
    assert_eq!(get_timeout_for_severity(&Severity::Minor), Timeout::Milliseconds(120000));
}

#[test]
fn classification_is_total_and_repeatable() {
    let all = [
        Severity::Extreme,
        Severity::Severe,
        Severity::Moderate,
        Severity::Minor,
        Severity::Unknown,
    ];
    for s in all.iter() {
        assert_eq!(
            get_notification_urgency_for_severity(s),
            get_notification_urgency_for_severity(s)
        );
        assert_eq!(get_timeout_for_severity(s), get_timeout_for_severity(s));
    }
}

#[test]
fn console_colors() {
    assert_eq!(get_color_for_severity(&Severity::Extreme), ConsoleColor::Purple);
    assert_eq!(get_color_for_severity(&Severity::Severe), ConsoleColor::Red);
    assert_eq!(get_color_for_severity(&Severity::Moderate), ConsoleColor::Yellow);
    assert_eq!(get_color_for_severity(&Severity::Minor), ConsoleColor::Green);
    assert_eq!(get_color_for_severity(&Severity::Unknown), ConsoleColor::LightGray);
}

#[test]
fn icons_by_hazard_family() {
    assert_eq!(get_icon_for_event(&Event::TornadoWarning), "weather-tornado-symbolic.svg");
    assert_eq!(get_icon_for_event(&Event::ExtremeWindWarning), "weather-tornado-symbolic.svg");
    assert_eq!(get_icon_for_event(&Event::BlizzardWarning), "weather-snow-symbolic.svg");
    assert_eq!(get_icon_for_event(&Event::FrostAdvisory), "weather-snow-symbolic.svg");
    assert_eq!(get_icon_for_event(&Event::RedFlagWarning), "weather-windy-symbolic.svg");
    assert_eq!(get_icon_for_event(&Event::GaleWarning), "weather-windy-symbolic.svg");
    assert_eq!(get_icon_for_event(&Event::DenseFogAdvisory), "weather-fog-symbolic.svg");
    assert_eq!(
        get_icon_for_event(&Event::SevereThunderstormWarning),
        "weather-storm-symbolic.svg"
    );
    assert_eq!(get_icon_for_event(&Event::SpecialMarineWarning), "weather-storm-symbolic.svg");
    assert_eq!(get_icon_for_event(&Event::HurricaneWarning), "weather-storm-symbolic.svg");
    assert_eq!(get_icon_for_event(&Event::FlashFloodWarning), "weather-showers-symbolic.svg");
    assert_eq!(get_icon_for_event(&Event::HeatAdvisory), "weather-clear-symbolic.svg");
    assert_eq!(get_icon_for_event(&Event::Unknown), "weather-severe-alert-symbolic.svg");
    assert_eq!(
        get_icon_for_event(&Event::HazardousWeatherOutlook),
        "weather-severe-alert-symbolic.svg"
    );
    assert_eq!(get_icon_for_event(&Event::Test), "weather-severe-alert-symbolic.svg");
}

#[test]
fn display_names() {
    assert_eq!(Event::TornadoWarning.display_name(), "Tornado Warning");
    assert_eq!(Event::HurricaneForceWindWarning.display_name(), "Hurricane Force Wind Warning");
    assert_eq!(Event::Unknown.display_name(), "Unknown");
    assert_eq!(Event::Test.display_name(), "Test");
    assert_eq!(Severity::Moderate.display_name(), "Moderate");
}

#[test]
fn feed_event_names() {
    assert_eq!(Event::from_feed_name("Tornado Warning"), Event::TornadoWarning);
    assert_eq!(Event::from_feed_name("Hazardous Weather Outlook"), Event::HazardousWeatherOutlook);
    assert_eq!(Event::from_feed_name("Hurricane Warning"), Event::HurricaneWarning);
    assert_eq!(Event::from_feed_name("River Flood Watch"), Event::RiverFloodWatch);
}

#[test]
fn unknown_event_name_reads_as_unknown() {
    assert_eq!(Event::from_feed_name("Volcano Warning"), Event::Unknown);
    assert_eq!(Event::from_feed_name(""), Event::Unknown);
    assert_eq!(Event::from_feed_name("tornado warning"), Event::Unknown);
}

#[test]
fn test_event_never_comes_from_feed() {
    assert_eq!(Event::from_feed_name("Test"), Event::Unknown);
}

#[test]
fn feed_severity_names() {
    assert_eq!(Severity::from_feed_name("Extreme"), Severity::Extreme);
    assert_eq!(Severity::from_feed_name("Severe"), Severity::Severe);
    assert_eq!(Severity::from_feed_name("Moderate"), Severity::Moderate);
    assert_eq!(Severity::from_feed_name("Minor"), Severity::Minor);
    assert_eq!(Severity::from_feed_name("Unknown"), Severity::Unknown);
    assert_eq!(Severity::from_feed_name("Catastrophic"), Severity::Unknown);
}

#[test]
fn severity_parse_ignores_case() {
    assert_eq!(Severity::parse("EXTREME"), Ok(Severity::Extreme));
    assert_eq!(Severity::parse("Severe"), Ok(Severity::Severe));
    assert_eq!(Severity::parse("moderate"), Ok(Severity::Moderate));
    assert_eq!(Severity::parse("MiNoR"), Ok(Severity::Minor));
    assert_eq!(Severity::parse("whatever"), Ok(Severity::Unknown));
    assert_eq!("Minor".parse::<Severity>(), Ok(Severity::Minor));
}

#[test]
fn severity_from_lowercase_words() {
    assert_eq!(Severity::from_lowercase("extreme"), Severity::Extreme);
    assert_eq!(Severity::from_lowercase("Extreme"), Severity::Unknown);
}

#[test]
fn text_equality() {
    assert!(text_eq("Gale Warning", "Gale Warning"));
    assert!(!text_eq("Gale Warning", "Gale Warnin"));
    assert!(!text_eq("Gale", "Gala"));
    assert!(text_eq("", ""));
}
