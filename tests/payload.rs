use nwsd::daemon::{init_daemon, Config, CycleAction, FetchedResponse};
use nwsd::feed::{FeedRecord, MalformedPayload};
use nwsd::notify::NotificationRequest;
use nwsd::weather::{Timeout, Urgency};

fn field(props: &serde_json::Value, key: &str) -> Result<String, MalformedPayload> {
    props[key].as_str().map(|s| s.to_string()).ok_or(MalformedPayload)
}

fn decode(body: &str) -> Result<Vec<FeedRecord>, MalformedPayload> {
    let v: serde_json::Value = serde_json::from_str(body).map_err(|_| MalformedPayload)?;
    let features = v["features"].as_array().ok_or(MalformedPayload)?;
    let mut out = Vec::new();
    for f in features {
        let p = &f["properties"];
        out.push(FeedRecord {
            id: field(p, "id")?,
            headline: field(p, "headline")?,
            description: field(p, "description")?,
            severity: field(p, "severity")?,
            event: field(p, "event")?,
        });
    }
    Ok(out)
}

fn payload(id: &str, severity: &str, event: &str) -> String {
    format!(
        "{{\"type\":\"FeatureCollection\",\"features\":[{{\"properties\":{{\"id\":\"{}\",\"headline\":\"H\",\"description\":\"D\",\"severity\":\"{}\",\"event\":\"{}\"}}}}]}}",
        id, severity, event
    )
}

/// Runs one poll cycle on the given response body and returns what was shown.
fn cycle(d: &mut nwsd::daemon::Daemon, body: &str) -> Vec<NotificationRequest> {
    let mut shown = Vec::new();
    let mut action = d.on_interval_elapsed();
    loop {
        action = match action {
            CycleAction::Fetch { .. } => {
                d.on_fetched(Ok(FetchedResponse { status: 200, body: body.to_string() }))
            }
            CycleAction::Decode(b) => d.on_decoded(decode(&b)),
            CycleAction::Notify(req) => {
                shown.push(req);
                d.on_notified(Ok(()))
            }
            CycleAction::Sleep(secs) => {
                assert_eq!(secs, 300);
                return shown;
            }
        }
    }
}

#[test]
fn payload_tornado_warning_end_to_end() {
    let mut d = init_daemon(Config::default(), false);
    let shown = cycle(&mut d, &payload("urn:1", "Extreme", "Tornado Warning"));
    assert_eq!(shown.len(), 1);
    assert_eq!(shown[0].urgency, Urgency::Critical);
    assert_eq!(shown[0].timeout, Timeout::Never);
    assert!(shown[0].icon_path.ends_with("weather-tornado-symbolic.svg"));
}

#[test]
fn payload_same_identity_two_cycles() {
    let mut d = init_daemon(Config::default(), false);
    let body = payload("urn:2", "Severe", "Flood Warning");
    let total = cycle(&mut d, &body).len() + cycle(&mut d, &body).len();
    assert_eq!(total, 1);
}

#[test]
fn payload_that_does_not_decode() {
    let mut d = init_daemon(Config::default(), false);
    cycle(&mut d, &payload("urn:3", "Minor", "Frost Advisory"));
    let before = d.acknowledged_alerts.len();
    let shown = cycle(&mut d, "{\"features\": [ not json");
    assert!(shown.is_empty());
    assert_eq!(d.acknowledged_alerts.len(), before);
    assert!(matches!(d.on_interval_elapsed(), CycleAction::Fetch { .. }));
}

#[test]
fn payload_with_unknown_vocabulary() {
    let mut d = init_daemon(Config::default(), false);
    let shown = cycle(&mut d, &payload("urn:4", "Weird", "Space Weather Alert"));
    assert_eq!(shown.len(), 1);
    assert_eq!(shown[0].summary, "Unknown Weather Alert");
    assert_eq!(shown[0].urgency, Urgency::Normal);
    assert!(shown[0].icon_path.ends_with("weather-severe-alert-symbolic.svg"));
}
