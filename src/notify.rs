use vstd::prelude::*;
use vstd::string::StringExecFns;

use crate::daemon::Config;
use crate::feed::{AlertProperties, FeedRecord};
use crate::weather::{
    event_from_feed_name, get_icon_for_event, get_notification_urgency_for_severity,
    get_timeout_for_severity, severity_from_feed_name, timeout_for, urgency_for, Event, Severity,
    Timeout, Urgency,
};

verus! {

/// A desktop notification, ready to be handed to the notifier.
#[derive(Debug, Clone)]
pub struct NotificationRequest {
    pub summary: String,
    pub body: String,
    pub icon_path: String,
    pub app_name: String,
    pub urgency: Urgency,
    pub timeout: Timeout,
}

/// The error of a notifier that could not show a notification.
#[derive(Debug, Clone, Copy, PartialEq, Eq, Structural)]
pub struct NotifyFailure;

pub open spec fn icon_dir() -> Seq<char> {
    "/usr/share/icons/Papirus-Dark/symbolic/status/"@
}

pub open spec fn app_name() -> Seq<char> {
    "National Weather Service Daemon"@
}

impl NotificationRequest {
    /// This is the notification for an alert with the given parts, under the
    /// given configuration: the summary names the severity, the body is the
    /// description in detailed mode and the headline otherwise, the icon is
    /// the configured one or the event kind's icon in the icon theme, and
    /// urgency and timeout follow the severity.
    pub open spec fn renders_parts(
        self,
        headline: Seq<char>,
        description: Seq<char>,
        severity: Severity,
        event: Event,
        config: Config,
    ) -> bool {
        &&& self.summary@ == severity.name() + " Weather Alert"@
        &&& self.body@ == (if config.detailed_notification {
            description
        } else {
            headline
        })
        &&& self.icon_path@ == match config.notification_icon_path {
            Some(p) => p@,
            None => icon_dir() + event.icon(),
        }
        &&& self.app_name@ == app_name()
        &&& self.urgency == urgency_for(severity)
        &&& self.timeout == timeout_for(severity)
    }

    /// This is the notification for the alert under the configuration.
    pub open spec fn renders(self, alert: AlertProperties, config: Config) -> bool {
        self.renders_parts(alert.headline@, alert.description@, alert.severity, alert.event, config)
    }

    /// This is the notification for the alert that the feed's record reads as.
    pub open spec fn renders_record(self, rec: FeedRecord, config: Config) -> bool {
        self.renders_parts(
            rec.headline@,
            rec.description@,
            severity_from_feed_name(rec.severity@),
            event_from_feed_name(rec.event@),
            config,
        )
    }
}

/// The notification to show for an alert.
pub fn build_notification(alert: &AlertProperties, config: &Config) -> (r: NotificationRequest)
    ensures
        r.renders(*alert, *config),
{
    let icon_path = match &config.notification_icon_path {
        Some(p) => p.clone(),
        None => String::from_str("/usr/share/icons/Papirus-Dark/symbolic/status/").concat(
            get_icon_for_event(&alert.event),
        ),
    };
    let body = if config.detailed_notification {
        alert.description.clone()
    } else {
        alert.headline.clone()
    };
    NotificationRequest {
        summary: String::from_str(alert.severity.display_name()).concat(" Weather Alert"),
        body,
        icon_path,
        app_name: String::from_str("National Weather Service Daemon"),
        urgency: get_notification_urgency_for_severity(&alert.severity),
        timeout: get_timeout_for_severity(&alert.severity),
    }
}

} // verus!
