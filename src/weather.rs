use vstd::prelude::*;

use crate::text::text_eq;

verus! {

/// How serious an alert is, from most to least; `Unknown` is the fallback
/// for any value that is not recognised.
#[derive(Debug, Clone, Copy, PartialEq, Eq, Structural)]
pub enum Severity {
    Extreme,
    Severe,
    Moderate,
    Minor,
    Unknown,
}

/// Priority tier of a desktop notification.
#[derive(Debug, Clone, Copy, PartialEq, Eq, Structural)]
pub enum Urgency {
    Low,
    Normal,
    Critical,
}

/// How long a notification stays on screen.
#[derive(Debug, Clone, Copy, PartialEq, Eq, Structural)]
pub enum Timeout {
    Never,
    Milliseconds(u32),
}

/// Colour in which an alert is written to the console.
#[derive(Debug, Clone, Copy, PartialEq, Eq, Structural)]
pub enum ConsoleColor {
    Purple,
    Red,
    Yellow,
    Green,
    LightGray,
}

/// A minor alert stays on screen for two minutes; timeouts are counted in
/// milliseconds.
pub const MINOR_TIMEOUT_MS: u32 = 120000;

/// Extreme and severe alerts are critical, minor ones low, the rest normal.
pub open spec fn urgency_for(severity: Severity) -> Urgency {
    match severity {
        Severity::Extreme | Severity::Severe => Urgency::Critical,
        Severity::Moderate | Severity::Unknown => Urgency::Normal,
        Severity::Minor => Urgency::Low,
    }
}

/// Only minor alerts expire; all others stay until dismissed.
pub open spec fn timeout_for(severity: Severity) -> Timeout {
    match severity {
        Severity::Minor => Timeout::Milliseconds(MINOR_TIMEOUT_MS),
        _ => Timeout::Never,
    }
}

/// Console colour by severity.
pub open spec fn color_for(severity: Severity) -> ConsoleColor {
    match severity {
        Severity::Extreme => ConsoleColor::Purple,
        Severity::Severe => ConsoleColor::Red,
        Severity::Moderate => ConsoleColor::Yellow,
        Severity::Minor => ConsoleColor::Green,
        Severity::Unknown => ConsoleColor::LightGray,
    }
}

/// The event kinds that the feed may report: all but the fallback and the
/// self-test kind.
pub open spec fn in_feed_vocabulary(e: Event) -> bool {
    e != Event::Unknown && e != Event::Test
}

/// What `str::to_lowercase` returns for the given characters.
pub uninterp spec fn lower_of(s: Seq<char>) -> Seq<char>;

/// Relies on `str::to_lowercase`: the lowercase form of a string depends on
/// its characters alone.
#[verifier::external_body]
fn lowercase(s: &str) -> (r: String)
    ensures
        r@ == lower_of(s@),
{
    s.to_lowercase()
}

/// Severity named by a string of the feed; any other string is `Unknown`.
pub open spec fn severity_from_feed_name(s: Seq<char>) -> Severity {
    if s == "Extreme"@ {
        Severity::Extreme
    } else if s == "Severe"@ {
        Severity::Severe
    } else if s == "Moderate"@ {
        Severity::Moderate
    } else if s == "Minor"@ {
        Severity::Minor
    } else {
        Severity::Unknown
    }
}

/// Severity named by an already lowercased word; any other word is `Unknown`.
pub open spec fn severity_from_lowercase(t: Seq<char>) -> Severity {
    if t == "extreme"@ {
        Severity::Extreme
    } else if t == "severe"@ {
        Severity::Severe
    } else if t == "moderate"@ {
        Severity::Moderate
    } else if t == "minor"@ {
        Severity::Minor
    } else {
        Severity::Unknown
    }
}

impl Severity {
    /// The variant's name, as the feed writes it.
    pub open spec fn name(self) -> Seq<char> {
        match self {
            Severity::Extreme => "Extreme"@,
            Severity::Severe => "Severe"@,
            Severity::Moderate => "Moderate"@,
            Severity::Minor => "Minor"@,
            Severity::Unknown => "Unknown"@,
        }
    }

    /// The variant's name.
    pub fn display_name(&self) -> (r: &'static str)
        ensures
            r@ == self.name(),
    {
        match self {
            Severity::Extreme => "Extreme",
            Severity::Severe => "Severe",
            Severity::Moderate => "Moderate",
            Severity::Minor => "Minor",
            Severity::Unknown => "Unknown",
        }
    }

    /// Reads a severity as the feed writes it; any other value is `Unknown`.
    pub fn from_feed_name(s: &str) -> (r: Severity)
        ensures
            r == severity_from_feed_name(s@),
    {
        if text_eq(s, "Extreme") {
            Severity::Extreme
        } else if text_eq(s, "Severe") {
            Severity::Severe
        } else if text_eq(s, "Moderate") {
            Severity::Moderate
        } else if text_eq(s, "Minor") {
            Severity::Minor
        } else {
            Severity::Unknown
        }
    }

    /// Reads a severity from an already lowercased word.
    pub fn from_lowercase(t: &str) -> (r: Severity)
        ensures
            r == severity_from_lowercase(t@),
    {
        if text_eq(t, "extreme") {
            Severity::Extreme
        } else if text_eq(t, "severe") {
            Severity::Severe
        } else if text_eq(t, "moderate") {
            Severity::Moderate
        } else if text_eq(t, "minor") {
            Severity::Minor
        } else {
            Severity::Unknown
        }
    }

    /// Reads a severity written in any case; an unrecognised word is
    /// `Unknown`, never an error.
    pub fn parse(s: &str) -> (r: Result<Severity, String>)
        ensures
            r == Ok::<Severity, String>(severity_from_lowercase(lower_of(s@))),
    {
        let t = lowercase(s);
        Ok(Severity::from_lowercase(t.as_str()))
    }
}

impl std::str::FromStr for Severity {
    type Err = String;

    fn from_str(s: &str) -> Result<Severity, String> {
        Severity::parse(s)
    }
}

/// Urgency of the notification raised for an alert of the given severity.
pub fn get_notification_urgency_for_severity(severity: &Severity) -> (r: Urgency)
    ensures
        r == urgency_for(*severity),
{
    match severity {
        Severity::Extreme | Severity::Severe => Urgency::Critical,
        Severity::Moderate | Severity::Unknown => Urgency::Normal,
        Severity::Minor => Urgency::Low,
    }
}

/// How long the notification for an alert of the given severity stays shown.
pub fn get_timeout_for_severity(severity: &Severity) -> (r: Timeout)
    ensures
        r == timeout_for(*severity),
{
    match severity {
        Severity::Minor => Timeout::Milliseconds(MINOR_TIMEOUT_MS),
        _ => Timeout::Never,
    }
}

/// Console colour of an alert of the given severity.
pub fn get_color_for_severity(severity: &Severity) -> (r: ConsoleColor)
    ensures
        r == color_for(*severity),
{
    match severity {
        Severity::Extreme => ConsoleColor::Purple,
        Severity::Severe => ConsoleColor::Red,
        Severity::Moderate => ConsoleColor::Yellow,
        Severity::Minor => ConsoleColor::Green,
        Severity::Unknown => ConsoleColor::LightGray,
    }
}

/// Every severity has an urgency and a timeout, and the same severity always
/// gets the same pair.
pub proof fn lemma_classification_total(s: Severity, t: Severity)
    ensures
        urgency_for(s) == Urgency::Critical || urgency_for(s) == Urgency::Normal
            || urgency_for(s) == Urgency::Low,
        timeout_for(s) == Timeout::Never || timeout_for(s) == Timeout::Milliseconds(
            MINOR_TIMEOUT_MS,
        ),
        s == t ==> urgency_for(s) == urgency_for(t) && timeout_for(s) == timeout_for(t),
{
}

/// Kind of hazard that an alert reports. `Unknown` stands for any kind that
/// is not recognised; `Test` is used only by the self-test alert.
#[derive(Debug, Clone, Copy, PartialEq, Eq, Structural)]
pub enum Event {
    HazardousWeatherOutlook,
    Test,
    WinterStormWatch,
    BlizzardWarning,
    WinterStormWarning,
    IceStormWarning,
    WinterWeatherAdvisory,
    FreezeWatch,
    FreezeWarning,
    FrostAdvisory,
    ColdWeatherAdvisory,
    ExtremeColdWarning,
    FireWeatherWatch,
    RedFlagWarning,
    DenseFogAdvisory,
    HighWindWatch,
    HighWindWarning,
    WindAdvisory,
    SevereThunderstormWatch,
    SevereThunderstormWarning,
    TornadoWatch,
    TornadoWarning,
    ExtremeWindWarning,
    SmallCraftAdvisory,
    GaleWarning,
    StormWarning,
    HurricaneForceWindWarning,
    SpecialMarineWarning,
    CoastalFloodWatch,
    CoastalFloodWarning,
    CoastalFloodAdvisory,
    FloodWatch,
    FlashFloodWarning,
    FloodWarning,
    RiverFloodWatch,
    RiverFloodWarning,
    ExcessiveHeatWatch,
    ExcessiveHeatWarning,
    HeatAdvisory,
    TropicalStormWatch,
    TropicalStormWarning,
    HurricaneWatch,
    HurricaneWarning,
    Unknown,
}

impl Event {
    /// Human-readable label of the event kind.
    pub open spec fn name(self) -> Seq<char> {
        match self {
            Event::HazardousWeatherOutlook => "Hazardous Weather Outlook"@,
            Event::Test => "Test"@,
            Event::WinterStormWatch => "Winter Storm Watch"@,
            Event::BlizzardWarning => "Blizzard Warning"@,
            Event::WinterStormWarning => "Winter Storm Warning"@,
            Event::IceStormWarning => "Ice Storm Warning"@,
            Event::WinterWeatherAdvisory => "Winter Weather Advisory"@,
            Event::FreezeWatch => "Freeze Watch"@,
            Event::FreezeWarning => "Freeze Warning"@,
            Event::FrostAdvisory => "Frost Advisory"@,
            Event::ColdWeatherAdvisory => "Cold Weather Advisory"@,
            Event::ExtremeColdWarning => "Extreme Cold Warning"@,
            Event::FireWeatherWatch => "Fire Weather Watch"@,
            Event::RedFlagWarning => "Red Flag Warning"@,
            Event::DenseFogAdvisory => "Dense Fog Advisory"@,
            Event::HighWindWatch => "High Wind Watch"@,
            Event::HighWindWarning => "High Wind Warning"@,
            Event::WindAdvisory => "Wind Advisory"@,
            Event::SevereThunderstormWatch => "Severe Thunderstorm Watch"@,
            Event::SevereThunderstormWarning => "Severe Thunderstorm Warning"@,
            Event::TornadoWatch => "Tornado Watch"@,
            Event::TornadoWarning => "Tornado Warning"@,
            Event::ExtremeWindWarning => "Extreme Wind Warning"@,
            Event::SmallCraftAdvisory => "Small Craft Advisory"@,
            Event::GaleWarning => "Gale Warning"@,
            Event::StormWarning => "Storm Warning"@,
            Event::HurricaneForceWindWarning => "Hurricane Force Wind Warning"@,
            Event::SpecialMarineWarning => "Special Marine Warning"@,
            Event::CoastalFloodWatch => "Coastal Flood Watch"@,
            Event::CoastalFloodWarning => "Coastal Flood Warning"@,
            Event::CoastalFloodAdvisory => "Coastal Flood Advisory"@,
            Event::FloodWatch => "Flood Watch"@,
            Event::FlashFloodWarning => "Flash Flood Warning"@,
            Event::FloodWarning => "Flood Warning"@,
            Event::RiverFloodWatch => "River Flood Watch"@,
            Event::RiverFloodWarning => "River Flood Warning"@,
            Event::ExcessiveHeatWatch => "Excessive Heat Watch"@,
            Event::ExcessiveHeatWarning => "Excessive Heat Warning"@,
            Event::HeatAdvisory => "Heat Advisory"@,
            Event::TropicalStormWatch => "Tropical Storm Watch"@,
            Event::TropicalStormWarning => "Tropical Storm Warning"@,
            Event::HurricaneWatch => "Hurricane Watch"@,
            Event::HurricaneWarning => "Hurricane Warning"@,
            Event::Unknown => "Unknown"@,
        }
    }

    /// Icon file shown for the event kind, by hazard family.
    pub open spec fn icon(self) -> Seq<char> {
        match self {
            Event::HazardousWeatherOutlook
            | Event::Test
            | Event::Unknown => "weather-severe-alert-symbolic.svg"@,
            Event::WinterStormWatch
            | Event::BlizzardWarning
            | Event::WinterStormWarning
            | Event::IceStormWarning
            | Event::WinterWeatherAdvisory
            | Event::FreezeWatch
            | Event::FreezeWarning
            | Event::FrostAdvisory
            | Event::ColdWeatherAdvisory
            | Event::ExtremeColdWarning => "weather-snow-symbolic.svg"@,
            Event::FireWeatherWatch
            | Event::RedFlagWarning
            | Event::HighWindWatch
            | Event::HighWindWarning
            | Event::WindAdvisory
            | Event::SmallCraftAdvisory
            | Event::GaleWarning
            | Event::StormWarning
            | Event::HurricaneForceWindWarning => "weather-windy-symbolic.svg"@,
            Event::DenseFogAdvisory => "weather-fog-symbolic.svg"@,
            Event::SevereThunderstormWatch
            | Event::SevereThunderstormWarning
            | Event::SpecialMarineWarning
            | Event::TropicalStormWatch
            | Event::TropicalStormWarning
            | Event::HurricaneWatch
            | Event::HurricaneWarning => "weather-storm-symbolic.svg"@,
            Event::TornadoWatch
            | Event::TornadoWarning
            | Event::ExtremeWindWarning => "weather-tornado-symbolic.svg"@,
            Event::CoastalFloodWatch
            | Event::CoastalFloodWarning
            | Event::CoastalFloodAdvisory
            | Event::FloodWatch
            | Event::FlashFloodWarning
            | Event::FloodWarning
            | Event::RiverFloodWatch
            | Event::RiverFloodWarning => "weather-showers-symbolic.svg"@,
            Event::ExcessiveHeatWatch
            | Event::ExcessiveHeatWarning
            | Event::HeatAdvisory => "weather-clear-symbolic.svg"@,
        }
    }

    /// The label of the event kind, as shown on the console.
    pub fn display_name(&self) -> (r: &'static str)
        ensures
            r@ == self.name(),
    {
        match self {
            Event::HazardousWeatherOutlook => "Hazardous Weather Outlook",
            Event::Test => "Test",
            Event::WinterStormWatch => "Winter Storm Watch",
            Event::BlizzardWarning => "Blizzard Warning",
            Event::WinterStormWarning => "Winter Storm Warning",
            Event::IceStormWarning => "Ice Storm Warning",
            Event::WinterWeatherAdvisory => "Winter Weather Advisory",
            Event::FreezeWatch => "Freeze Watch",
            Event::FreezeWarning => "Freeze Warning",
            Event::FrostAdvisory => "Frost Advisory",
            Event::ColdWeatherAdvisory => "Cold Weather Advisory",
            Event::ExtremeColdWarning => "Extreme Cold Warning",
            Event::FireWeatherWatch => "Fire Weather Watch",
            Event::RedFlagWarning => "Red Flag Warning",
            Event::DenseFogAdvisory => "Dense Fog Advisory",
            Event::HighWindWatch => "High Wind Watch",
            Event::HighWindWarning => "High Wind Warning",
            Event::WindAdvisory => "Wind Advisory",
            Event::SevereThunderstormWatch => "Severe Thunderstorm Watch",
            Event::SevereThunderstormWarning => "Severe Thunderstorm Warning",
            Event::TornadoWatch => "Tornado Watch",
            Event::TornadoWarning => "Tornado Warning",
            Event::ExtremeWindWarning => "Extreme Wind Warning",
            Event::SmallCraftAdvisory => "Small Craft Advisory",
            Event::GaleWarning => "Gale Warning",
            Event::StormWarning => "Storm Warning",
            Event::HurricaneForceWindWarning => "Hurricane Force Wind Warning",
            Event::SpecialMarineWarning => "Special Marine Warning",
            Event::CoastalFloodWatch => "Coastal Flood Watch",
            Event::CoastalFloodWarning => "Coastal Flood Warning",
            Event::CoastalFloodAdvisory => "Coastal Flood Advisory",
            Event::FloodWatch => "Flood Watch",
            Event::FlashFloodWarning => "Flash Flood Warning",
            Event::FloodWarning => "Flood Warning",
            Event::RiverFloodWatch => "River Flood Watch",
            Event::RiverFloodWarning => "River Flood Warning",
            Event::ExcessiveHeatWatch => "Excessive Heat Watch",
            Event::ExcessiveHeatWarning => "Excessive Heat Warning",
            Event::HeatAdvisory => "Heat Advisory",
            Event::TropicalStormWatch => "Tropical Storm Watch",
            Event::TropicalStormWarning => "Tropical Storm Warning",
            Event::HurricaneWatch => "Hurricane Watch",
            Event::HurricaneWarning => "Hurricane Warning",
            Event::Unknown => "Unknown",
        }
    }

    /// Reads an event kind as the feed writes it. A kind outside the feed's
    /// vocabulary, `Test` included, is read as `Unknown`.
    pub fn from_feed_name(s: &str) -> (r: Event)
        ensures
            r == event_from_feed_name(s@),
    {
        if text_eq(s, "Hazardous Weather Outlook") {
            Event::HazardousWeatherOutlook
        } else if text_eq(s, "Winter Storm Watch") {
            Event::WinterStormWatch
        } else if text_eq(s, "Blizzard Warning") {
            Event::BlizzardWarning
        } else if text_eq(s, "Winter Storm Warning") {
            Event::WinterStormWarning
        } else if text_eq(s, "Ice Storm Warning") {
            Event::IceStormWarning
        } else if text_eq(s, "Winter Weather Advisory") {
            Event::WinterWeatherAdvisory
        } else if text_eq(s, "Freeze Watch") {
            Event::FreezeWatch
        } else if text_eq(s, "Freeze Warning") {
            Event::FreezeWarning
        } else if text_eq(s, "Frost Advisory") {
            Event::FrostAdvisory
        } else if text_eq(s, "Cold Weather Advisory") {
            Event::ColdWeatherAdvisory
        } else if text_eq(s, "Extreme Cold Warning") {
            Event::ExtremeColdWarning
        } else if text_eq(s, "Fire Weather Watch") {
            Event::FireWeatherWatch
        } else if text_eq(s, "Red Flag Warning") {
            Event::RedFlagWarning
        } else if text_eq(s, "Dense Fog Advisory") {
            Event::DenseFogAdvisory
        } else if text_eq(s, "High Wind Watch") {
            Event::HighWindWatch
        } else if text_eq(s, "High Wind Warning") {
            Event::HighWindWarning
        } else if text_eq(s, "Wind Advisory") {
            Event::WindAdvisory
        } else if text_eq(s, "Severe Thunderstorm Watch") {
            Event::SevereThunderstormWatch
        } else if text_eq(s, "Severe Thunderstorm Warning") {
            Event::SevereThunderstormWarning
        } else if text_eq(s, "Tornado Watch") {
            Event::TornadoWatch
        } else if text_eq(s, "Tornado Warning") {
            Event::TornadoWarning
        } else if text_eq(s, "Extreme Wind Warning") {
            Event::ExtremeWindWarning
        } else if text_eq(s, "Small Craft Advisory") {
            Event::SmallCraftAdvisory
        } else if text_eq(s, "Gale Warning") {
            Event::GaleWarning
        } else if text_eq(s, "Storm Warning") {
            Event::StormWarning
        } else if text_eq(s, "Hurricane Force Wind Warning") {
            Event::HurricaneForceWindWarning
        } else if text_eq(s, "Special Marine Warning") {
            Event::SpecialMarineWarning
        } else if text_eq(s, "Coastal Flood Watch") {
            Event::CoastalFloodWatch
        } else if text_eq(s, "Coastal Flood Warning") {
            Event::CoastalFloodWarning
        } else if text_eq(s, "Coastal Flood Advisory") {
            Event::CoastalFloodAdvisory
        } else if text_eq(s, "Flood Watch") {
            Event::FloodWatch
        } else if text_eq(s, "Flash Flood Warning") {
            Event::FlashFloodWarning
        } else if text_eq(s, "Flood Warning") {
            Event::FloodWarning
        } else if text_eq(s, "River Flood Watch") {
            Event::RiverFloodWatch
        } else if text_eq(s, "River Flood Warning") {
            Event::RiverFloodWarning
        } else if text_eq(s, "Excessive Heat Watch") {
            Event::ExcessiveHeatWatch
        } else if text_eq(s, "Excessive Heat Warning") {
            Event::ExcessiveHeatWarning
        } else if text_eq(s, "Heat Advisory") {
            Event::HeatAdvisory
        } else if text_eq(s, "Tropical Storm Watch") {
            Event::TropicalStormWatch
        } else if text_eq(s, "Tropical Storm Warning") {
            Event::TropicalStormWarning
        } else if text_eq(s, "Hurricane Watch") {
            Event::HurricaneWatch
        } else if text_eq(s, "Hurricane Warning") {
            Event::HurricaneWarning
        } else {
            Event::Unknown
        }
    }
}

/// Icon file shown for alerts of the given event kind.
pub fn get_icon_for_event(event: &Event) -> (r: &'static str)
    ensures
        r@ == event.icon(),
{
    match event {
        Event::HazardousWeatherOutlook
        | Event::Test
        | Event::Unknown => "weather-severe-alert-symbolic.svg",
        Event::WinterStormWatch
        | Event::BlizzardWarning
        | Event::WinterStormWarning
        | Event::IceStormWarning
        | Event::WinterWeatherAdvisory
        | Event::FreezeWatch
        | Event::FreezeWarning
        | Event::FrostAdvisory
        | Event::ColdWeatherAdvisory
        | Event::ExtremeColdWarning => "weather-snow-symbolic.svg",
        Event::FireWeatherWatch
        | Event::RedFlagWarning
        | Event::HighWindWatch
        | Event::HighWindWarning
        | Event::WindAdvisory
        | Event::SmallCraftAdvisory
        | Event::GaleWarning
        | Event::StormWarning
        | Event::HurricaneForceWindWarning => "weather-windy-symbolic.svg",
        Event::DenseFogAdvisory => "weather-fog-symbolic.svg",
        Event::SevereThunderstormWatch
        | Event::SevereThunderstormWarning
        | Event::SpecialMarineWarning
        | Event::TropicalStormWatch
        | Event::TropicalStormWarning
        | Event::HurricaneWatch
        | Event::HurricaneWarning => "weather-storm-symbolic.svg",
        Event::TornadoWatch
        | Event::TornadoWarning
        | Event::ExtremeWindWarning => "weather-tornado-symbolic.svg",
        Event::CoastalFloodWatch
        | Event::CoastalFloodWarning
        | Event::CoastalFloodAdvisory
        | Event::FloodWatch
        | Event::FlashFloodWarning
        | Event::FloodWarning
        | Event::RiverFloodWatch
        | Event::RiverFloodWarning => "weather-showers-symbolic.svg",
        Event::ExcessiveHeatWatch
        | Event::ExcessiveHeatWarning
        | Event::HeatAdvisory => "weather-clear-symbolic.svg",
    }
}

/// Event kind named by a string of the feed; any string outside the feed's
/// vocabulary is `Unknown`.
pub open spec fn event_from_feed_name(s: Seq<char>) -> Event {
    if s == "Hazardous Weather Outlook"@ {
        Event::HazardousWeatherOutlook
    } else if s == "Winter Storm Watch"@ {
        Event::WinterStormWatch
    } else if s == "Blizzard Warning"@ {
        Event::BlizzardWarning
    } else if s == "Winter Storm Warning"@ {
        Event::WinterStormWarning
    } else if s == "Ice Storm Warning"@ {
        Event::IceStormWarning
    } else if s == "Winter Weather Advisory"@ {
        Event::WinterWeatherAdvisory
    } else if s == "Freeze Watch"@ {
        Event::FreezeWatch
    } else if s == "Freeze Warning"@ {
        Event::FreezeWarning
    } else if s == "Frost Advisory"@ {
        Event::FrostAdvisory
    } else if s == "Cold Weather Advisory"@ {
        Event::ColdWeatherAdvisory
    } else if s == "Extreme Cold Warning"@ {
        Event::ExtremeColdWarning
    } else if s == "Fire Weather Watch"@ {
        Event::FireWeatherWatch
    } else if s == "Red Flag Warning"@ {
        Event::RedFlagWarning
    } else if s == "Dense Fog Advisory"@ {
        Event::DenseFogAdvisory
    } else if s == "High Wind Watch"@ {
        Event::HighWindWatch
    } else if s == "High Wind Warning"@ {
        Event::HighWindWarning
    } else if s == "Wind Advisory"@ {
        Event::WindAdvisory
    } else if s == "Severe Thunderstorm Watch"@ {
        Event::SevereThunderstormWatch
    } else if s == "Severe Thunderstorm Warning"@ {
        Event::SevereThunderstormWarning
    } else if s == "Tornado Watch"@ {
        Event::TornadoWatch
    } else if s == "Tornado Warning"@ {
        Event::TornadoWarning
    } else if s == "Extreme Wind Warning"@ {
        Event::ExtremeWindWarning
    } else if s == "Small Craft Advisory"@ {
        Event::SmallCraftAdvisory
    } else if s == "Gale Warning"@ {
        Event::GaleWarning
    } else if s == "Storm Warning"@ {
        Event::StormWarning
    } else if s == "Hurricane Force Wind Warning"@ {
        Event::HurricaneForceWindWarning
    } else if s == "Special Marine Warning"@ {
        Event::SpecialMarineWarning
    } else if s == "Coastal Flood Watch"@ {
        Event::CoastalFloodWatch
    } else if s == "Coastal Flood Warning"@ {
        Event::CoastalFloodWarning
    } else if s == "Coastal Flood Advisory"@ {
        Event::CoastalFloodAdvisory
    } else if s == "Flood Watch"@ {
        Event::FloodWatch
    } else if s == "Flash Flood Warning"@ {
        Event::FlashFloodWarning
    } else if s == "Flood Warning"@ {
        Event::FloodWarning
    } else if s == "River Flood Watch"@ {
        Event::RiverFloodWatch
    } else if s == "River Flood Warning"@ {
        Event::RiverFloodWarning
    } else if s == "Excessive Heat Watch"@ {
        Event::ExcessiveHeatWatch
    } else if s == "Excessive Heat Warning"@ {
        Event::ExcessiveHeatWarning
    } else if s == "Heat Advisory"@ {
        Event::HeatAdvisory
    } else if s == "Tropical Storm Watch"@ {
        Event::TropicalStormWatch
    } else if s == "Tropical Storm Warning"@ {
        Event::TropicalStormWarning
    } else if s == "Hurricane Watch"@ {
        Event::HurricaneWatch
    } else if s == "Hurricane Warning"@ {
        Event::HurricaneWarning
    } else {
        Event::Unknown
    }
}

/// A string that names no event kind of the feed's vocabulary is read as
/// `Unknown`, and the self-test kind never comes from the feed.
pub proof fn lemma_unrecognised_event_is_unknown(s: Seq<char>)
    ensures
        (forall|e: Event| in_feed_vocabulary(e) ==> e.name() != s) ==> event_from_feed_name(s)
            == Event::Unknown,
        event_from_feed_name(s) != Event::Test,
{
    if forall|e: Event| in_feed_vocabulary(e) ==> e.name() != s {
        assert(Event::HazardousWeatherOutlook.name() != s);
        assert(Event::WinterStormWatch.name() != s);
        assert(Event::BlizzardWarning.name() != s);
        assert(Event::WinterStormWarning.name() != s);
        assert(Event::IceStormWarning.name() != s);
        assert(Event::WinterWeatherAdvisory.name() != s);
        assert(Event::FreezeWatch.name() != s);
        assert(Event::FreezeWarning.name() != s);
        assert(Event::FrostAdvisory.name() != s);
        assert(Event::ColdWeatherAdvisory.name() != s);
        assert(Event::ExtremeColdWarning.name() != s);
        assert(Event::FireWeatherWatch.name() != s);
        assert(Event::RedFlagWarning.name() != s);
        assert(Event::DenseFogAdvisory.name() != s);
        assert(Event::HighWindWatch.name() != s);
        assert(Event::HighWindWarning.name() != s);
        assert(Event::WindAdvisory.name() != s);
        assert(Event::SevereThunderstormWatch.name() != s);
        assert(Event::SevereThunderstormWarning.name() != s);
        assert(Event::TornadoWatch.name() != s);
        assert(Event::TornadoWarning.name() != s);
        assert(Event::ExtremeWindWarning.name() != s);
        assert(Event::SmallCraftAdvisory.name() != s);
        assert(Event::GaleWarning.name() != s);
        assert(Event::StormWarning.name() != s);
        assert(Event::HurricaneForceWindWarning.name() != s);
        assert(Event::SpecialMarineWarning.name() != s);
        assert(Event::CoastalFloodWatch.name() != s);
        assert(Event::CoastalFloodWarning.name() != s);
        assert(Event::CoastalFloodAdvisory.name() != s);
        assert(Event::FloodWatch.name() != s);
        assert(Event::FlashFloodWarning.name() != s);
        assert(Event::FloodWarning.name() != s);
        assert(Event::RiverFloodWatch.name() != s);
        assert(Event::RiverFloodWarning.name() != s);
        assert(Event::ExcessiveHeatWatch.name() != s);
        assert(Event::ExcessiveHeatWarning.name() != s);
        assert(Event::HeatAdvisory.name() != s);
        assert(Event::TropicalStormWatch.name() != s);
        assert(Event::TropicalStormWarning.name() != s);
        assert(Event::HurricaneWatch.name() != s);
        assert(Event::HurricaneWarning.name() != s);
    }
}

} // verus!
