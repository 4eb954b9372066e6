use vstd::prelude::*;
use vstd::string::StringExecFns;

use crate::weather::{
    event_from_feed_name, severity_from_feed_name, Event, Severity,
};

verus! {

/// One alert as the feed writes it, before its severity and event kind are
/// read: every field is the feed's text.
#[derive(Debug, Clone)]
pub struct FeedRecord {
    pub id: String,
    pub headline: String,
    pub description: String,
    pub severity: String,
    pub event: String,
}

/// One reported hazard occurrence. `id` is its identity: two alerts with the
/// same `id` are the same occurrence.
#[derive(Debug, Clone)]
pub struct AlertProperties {
    pub headline: String,
    pub description: String,
    pub severity: Severity,
    pub id: String,
    pub event: Event,
}

/// One entry of the feed.
#[derive(Debug, Clone)]
pub struct Feature {
    pub properties: AlertProperties,
}

/// The feed: its entries in the order it lists them.
#[derive(Debug, Clone)]
pub struct GeoJson {
    pub features: Vec<Feature>,
}

/// The error of a payload that does not decode as a feed.
#[derive(Debug, Clone, Copy, PartialEq, Eq, Structural)]
pub struct MalformedPayload;

impl AlertProperties {
    /// This alert is what the feed's record says, with unknown severity and
    /// event strings read as `Unknown`.
    pub open spec fn reads(self, rec: FeedRecord) -> bool {
        &&& self.id@ == rec.id@
        &&& self.headline@ == rec.headline@
        &&& self.description@ == rec.description@
        &&& self.severity == severity_from_feed_name(rec.severity@)
        &&& self.event == event_from_feed_name(rec.event@)
    }

    /// Reads an alert from the feed's record of it. This never fails.
    pub fn from_record(rec: &FeedRecord) -> (r: AlertProperties)
        ensures
            r.reads(*rec),
    {
        AlertProperties {
            headline: rec.headline.clone(),
            description: rec.description.clone(),
            severity: Severity::from_feed_name(rec.severity.as_str()),
            id: rec.id.clone(),
            event: Event::from_feed_name(rec.event.as_str()),
        }
    }
}

/// The identities of a batch of alerts, in order.
pub open spec fn alert_ids(alerts: Seq<AlertProperties>) -> Seq<Seq<char>> {
    alerts.map_values(|a: AlertProperties| a.id@)
}

/// The identities of a batch of records, in order.
pub open spec fn record_ids(records: Seq<FeedRecord>) -> Seq<Seq<char>> {
    records.map_values(|r: FeedRecord| r.id@)
}

/// The feed read from its decoded records: one entry per record, in order.
pub fn extract_weather_features(records: &Vec<FeedRecord>) -> (r: GeoJson)
    ensures
        r.features@.len() == records@.len(),
        forall|i: int|
            0 <= i < records@.len() ==> (#[trigger] r.features@[i]).properties.reads(records@[i]),
{
    let mut features: Vec<Feature> = Vec::new();
    let mut i: usize = 0;
    while i < records.len()
        invariant
            i <= records@.len(),
            features@.len() == i,
            forall|j: int| 0 <= j < i ==> (#[trigger] features@[j]).properties.reads(records@[j]),
        decreases records@.len() - i,
    {
        features.push(Feature { properties: AlertProperties::from_record(&records[i]) });
        i = i + 1;
    }
    GeoJson { features }
}

impl GeoJson {
    /// The alerts of the feed, in order.
    pub fn alerts(&self) -> (r: Vec<AlertProperties>)
        ensures
            r@.len() == self.features@.len(),
            forall|i: int| 0 <= i < r@.len() ==> #[trigger] r@[i] == self.features@[i].properties,
    {
        let mut out: Vec<AlertProperties> = Vec::new();
        let mut i: usize = 0;
        while i < self.features.len()
            invariant
                i <= self.features@.len(),
                out@.len() == i,
                forall|j: int| 0 <= j < i ==> #[trigger] out@[j] == self.features@[j].properties,
            decreases self.features@.len() - i,
        {
            let p = &self.features[i].properties;
            out.push(
                AlertProperties {
                    headline: p.headline.clone(),
                    description: p.description.clone(),
                    severity: p.severity,
                    id: p.id.clone(),
                    event: p.event,
                },
            );
            i = i + 1;
        }
        out
    }
}

impl Feature {
    /// The label written before an alert's headline on the console: the event
    /// kind's name and a colon.
    pub fn console_label(&self) -> (r: String)
        ensures
            r@ == self.properties.event.name() + ":"@,
    {
        let name = String::from_str(self.properties.event.display_name());
        name.concat(":")
    }
}

pub open spec fn test_headline() -> Seq<char> {
    "Test Alert issued January 23 at 12:25PM MST until January 24 at 5:00PM MST by NWS Missoula MT"@
}

pub open spec fn test_description() -> Seq<char> {
    "* THIS IS A TEST WHAT...Snow expected. Likelihood of minor impacts from snow is up\\nto 80 percent. Total snow accumulations between 1 and 3 inches.\\n\\n* WHERE...Bitterroot Valley and Missoula.\\n\\n* WHEN...From 2 AM to 5 PM MST Friday.\\n\\n* IMPACTS...For MINOR impacts from snow, expect a few inconveniences\\nto normal activities. Use caution while driving. The hazardous\\nconditions could impact the Friday morning and evening commutes,\\nespecially over higher passes."@
}

pub open spec fn test_id() -> Seq<char> {
    "urn:oid:2.49.0.1.840.0.4b440460568820c3135c6fa9bb92f30c621509d8.003.1"@
}

/// The fixed self-test alert, carrying the given severity. It is the only
/// alert whose event kind is `Test`.
pub fn generate_test_alert(severity: &Severity) -> (r: AlertProperties)
    ensures
        r.headline@ == test_headline(),
        r.description@ == test_description(),
        r.severity == *severity,
        r.id@ == test_id(),
        r.event == Event::Test,
{
    AlertProperties {
        headline: String::from_str(
            "Test Alert issued January 23 at 12:25PM MST until January 24 at 5:00PM MST by NWS Missoula MT",
        ),
        description: String::from_str(
            "* THIS IS A TEST WHAT...Snow expected. Likelihood of minor impacts from snow is up\\nto 80 percent. Total snow accumulations between 1 and 3 inches.\\n\\n* WHERE...Bitterroot Valley and Missoula.\\n\\n* WHEN...From 2 AM to 5 PM MST Friday.\\n\\n* IMPACTS...For MINOR impacts from snow, expect a few inconveniences\\nto normal activities. Use caution while driving. The hazardous\\nconditions could impact the Friday morning and evening commutes,\\nespecially over higher passes.",
        ),
        severity: *severity,
        id: String::from_str(
            "urn:oid:2.49.0.1.840.0.4b440460568820c3135c6fa9bb92f30c621509d8.003.1",
        ),
        event: Event::Test,
    }
}

} // verus!
