use vstd::prelude::*;
use vstd::string::StringExecFns;

use crate::feed::{
    alert_ids, extract_weather_features, record_ids, AlertProperties, FeedRecord, MalformedPayload,
};
use crate::notify::{build_notification, NotificationRequest, NotifyFailure};

verus! {

/// What the daemon is configured with.
#[derive(Debug, Clone)]
pub struct Config {
    /// Seconds to wait between two polls of the feed.
    pub update_interval: u64,
    /// Latitude of the watched point, as decimal text.
    pub lat: String,
    /// Longitude of the watched point, as decimal text.
    pub lon: String,
    /// Show an alert's description rather than its headline.
    pub detailed_notification: bool,
    /// Icon shown for every alert in place of the event kind's icon.
    pub notification_icon_path: Option<String>,
    /// Identification sent with each request to the feed.
    pub user_agent: String,
}

impl Default for Config {
    fn default() -> (r: Config)
        ensures
            r.update_interval == 300,
            r.lat@ == "36.974117"@,
            r.lon@ == "-122.030792"@,
            !r.detailed_notification,
            r.notification_icon_path is None,
            r.user_agent@ == "nwsd notification app (https://github.com/Camerooooon/nwsd)"@,
    {
        Config {
            update_interval: 300,
            lat: String::from_str("36.974117"),
            lon: String::from_str("-122.030792"),
            detailed_notification: false,
            notification_icon_path: None,
            user_agent: String::from_str(
                "nwsd notification app (https://github.com/Camerooooon/nwsd)",
            ),
        }
    }
}

/// Address of the feed of alerts active at the configured point.
pub open spec fn alerts_url(config: Config) -> Seq<char> {
    "https://api.weather.gov/alerts/active?point="@ + config.lat@ + ","@ + config.lon@
}

impl Config {
    /// Address of the feed of alerts active at the configured point.
    pub fn alerts_url(&self) -> (r: String)
        ensures
            r@ == alerts_url(*self),
    {
        let url = String::from_str("https://api.weather.gov/alerts/active?point=");
        let url = url.concat(self.lat.as_str());
        let url = url.concat(",");
        url.concat(self.lon.as_str())
    }
}

/// Whether the identity at index `i` of a batch is to be acted upon: it is
/// not acknowledged, and no earlier alert of the batch has it.
pub open spec fn first_novel(acked: Set<Seq<char>>, ids: Seq<Seq<char>>, i: int) -> bool {
    &&& 0 <= i < ids.len()
    &&& !acked.contains(ids[i])
    &&& forall|j: int| 0 <= j < i ==> ids[j] != ids[i]
}

/// The indices of a batch that are acted upon, in feed order.
pub open spec fn novel_indices(acked: Set<Seq<char>>, ids: Seq<Seq<char>>) -> Seq<int>
    decreases ids.len(),
{
    if ids.len() == 0 {
        Seq::empty()
    } else {
        let prev = novel_indices(acked, ids.drop_last());
        if first_novel(acked, ids, ids.len() - 1) {
            prev.push(ids.len() - 1)
        } else {
            prev
        }
    }
}

/// The identities that occur in a batch.
pub open spec fn batch_set(ids: Seq<Seq<char>>) -> Set<Seq<char>> {
    Set::new(|id: Seq<char>| ids.contains(id))
}

/// A running daemon: its configuration, and the identities of the alerts it
/// has acted upon since it started.
#[derive(Debug)]
pub struct Daemon {
    pub config: Config,
    pub debug: bool,
    pub acknowledged_alerts: Vec<String>,
    /// Notifications of the current poll cycle still to be shown, in order.
    pub pending: Vec<NotificationRequest>,
}

/// A response of the feed's server.
#[derive(Debug, Clone)]
pub struct FetchedResponse {
    pub status: u16,
    pub body: String,
}

/// The error of a request to the feed that got no response.
#[derive(Debug, Clone, Copy, PartialEq, Eq, Structural)]
pub struct TransportError;

/// What the poll loop asks its driver to do next. Each action names the
/// state the loop is in: waiting out the interval, fetching the feed,
/// decoding it, or showing one notification.
#[derive(Debug, Clone)]
pub enum CycleAction {
    /// Wait this many seconds, then report that the interval elapsed.
    Sleep(u64),
    /// Fetch the feed from `url`, identified as `user_agent`, and report
    /// the response.
    Fetch { url: String, user_agent: String },
    /// Decode this payload into the feed's records and report the outcome.
    Decode(String),
    /// Show this notification and report the outcome.
    Notify(NotificationRequest),
}

/// Whether an HTTP status reports success.
pub open spec fn is_success(status: u16) -> bool {
    200 <= status <= 299
}

/// Whether an HTTP status reports success.
pub fn is_success_status(status: u16) -> (r: bool)
    ensures
        r == is_success(status),
{
    200 <= status && status <= 299
}

/// The notifications still to come after an action: the one it shows, if
/// it shows one, then those pending.
pub open spec fn queue_after(action: CycleAction, pending: Seq<NotificationRequest>) -> Seq<
    NotificationRequest,
> {
    match action {
        CycleAction::Notify(req) => seq![req] + pending,
        _ => pending,
    }
}

/// `queue` holds, in feed order, one notification for each record of the
/// batch that is acted upon.
pub open spec fn announces(
    acked: Set<Seq<char>>,
    records: Seq<FeedRecord>,
    config: Config,
    queue: Seq<NotificationRequest>,
) -> bool {
    let picked = novel_indices(acked, record_ids(records));
    &&& queue.len() == picked.len()
    &&& forall|k: int|
        0 <= k < queue.len() ==> #[trigger] queue[k].renders_record(records[picked[k]], config)
}

/// The indices that the filter picks are valid, in increasing order, and each
/// is acted upon; every index acted upon is picked.
pub proof fn lemma_novel_indices(acked: Set<Seq<char>>, ids: Seq<Seq<char>>)
    ensures
        forall|k: int|
            0 <= k < novel_indices(acked, ids).len() ==> first_novel(
                acked,
                ids,
                #[trigger] novel_indices(acked, ids)[k],
            ),
        forall|a: int, b: int|
            0 <= a < b < novel_indices(acked, ids).len() ==> novel_indices(acked, ids)[a]
                < novel_indices(acked, ids)[b],
        forall|i: int|
            first_novel(acked, ids, i) ==> novel_indices(acked, ids).contains(i),
    decreases ids.len(),
{
    if ids.len() > 0 {
        let init = ids.drop_last();
        lemma_novel_indices(acked, init);
        let prev = novel_indices(acked, init);
        assert forall|k: int| 0 <= k < prev.len() implies first_novel(acked, ids, prev[k]) by {
            assert(first_novel(acked, init, prev[k]));
            assert forall|j: int| 0 <= j <= prev[k] implies init[j] == ids[j] by {}
        }
        assert forall|i: int| first_novel(acked, ids, i) implies novel_indices(
            acked,
            ids,
        ).contains(i) by {
            if i < ids.len() - 1 {
                assert forall|j: int| 0 <= j <= i implies init[j] == ids[j] by {}
                assert(first_novel(acked, init, i));
                let k = choose|k: int| 0 <= k < prev.len() && prev[k] == i;
                if first_novel(acked, ids, ids.len() - 1) {
                    assert(prev.push(ids.len() - 1)[k] == i);
                }
            } else {
                assert(prev.push(ids.len() - 1)[prev.len() as int] == i);
            }
        }
    }
}

/// A daemon that has acted upon no alert yet.
pub fn init_daemon(config: Config, debug: bool) -> (r: Daemon)
    ensures
        r.config == config,
        r.debug == debug,
        r.acknowledged() == Set::<Seq<char>>::empty(),
        r.pending@.len() == 0,
{
    let r = Daemon { config, debug, acknowledged_alerts: Vec::new(), pending: Vec::new() };
    assert(r.acknowledged() =~= Set::<Seq<char>>::empty());
    r
}

impl Daemon {
    /// The identities acted upon so far.
    pub open spec fn acknowledged(&self) -> Set<Seq<char>> {
        Set::new(
            |id: Seq<char>|
                exists|i: int|
                    0 <= i < self.acknowledged_alerts@.len() && #[trigger] self.acknowledged_alerts@[i]@
                        == id,
        )
    }

    /// The two daemons agree on all but the pending notifications.
    pub open spec fn unchanged_but_pending(&self, other: &Daemon) -> bool {
        &&& self.config == other.config
        &&& self.debug == other.debug
        &&& self.acknowledged() == other.acknowledged()
    }

    /// Whether an alert with this identity is still to be acted upon.
    pub open spec fn novel(&self, id: Seq<char>) -> bool {
        !self.acknowledged().contains(id)
    }

    /// Whether the alert is still to be acted upon: its identity has not been
    /// recorded.
    pub fn is_novel(&self, alert: &AlertProperties) -> (r: bool)
        ensures
            r == self.novel(alert.id@),
    {
        let mut i: usize = 0;
        while i < self.acknowledged_alerts.len()
            invariant
                i <= self.acknowledged_alerts@.len(),
                forall|j: int| 0 <= j < i ==> self.acknowledged_alerts@[j]@ != alert.id@,
            decreases self.acknowledged_alerts@.len() - i,
        {
            if self.acknowledged_alerts[i] == alert.id {
                return false;
            }
            i = i + 1;
        }
        true
    }

    /// Records the alert's identity as acted upon; recording it again changes
    /// nothing.
    pub fn record(&mut self, alert: &AlertProperties)
        ensures
            final(self).acknowledged() == old(self).acknowledged().insert(alert.id@),
            final(self).config == old(self).config,
            final(self).debug == old(self).debug,
            final(self).pending == old(self).pending,
    {
        let ghost before = self.acknowledged_alerts@;
        if self.is_novel(alert) {
            self.acknowledged_alerts.push(alert.id.clone());
            let ghost after = self.acknowledged_alerts@;
            assert(after[before.len() as int]@ == alert.id@);
            assert forall|x: Seq<char>| #[trigger]
                old(self).acknowledged().insert(alert.id@).contains(x) implies self.acknowledged().contains(
                x,
            ) by {
                if x != alert.id@ {
                    let j = choose|j: int| 0 <= j < before.len() && before[j]@ == x;
                    assert(after[j] == before[j]);
                }
            }
            assert forall|x: Seq<char>| #[trigger]
                self.acknowledged().contains(x) implies old(self).acknowledged().insert(
                alert.id@,
            ).contains(x) by {
                let j = choose|j: int| 0 <= j < after.len() && after[j]@ == x;
                if j < before.len() {
                    assert(after[j] == before[j]);
                }
            }
        }
        assert(self.acknowledged() =~= old(self).acknowledged().insert(alert.id@));
    }

    /// Picks from a batch, in feed order, the alerts to act upon and records
    /// each as it is picked, so that an identity seen earlier in the batch or
    /// in an earlier batch is skipped. Returns the picked indices.
    pub fn filter_novel(&mut self, alerts: &Vec<AlertProperties>) -> (r: Vec<usize>)
        ensures
            r@.map_values(|i: usize| i as int) == novel_indices(
                old(self).acknowledged(),
                alert_ids(alerts@),
            ),
            final(self).acknowledged() == old(self).acknowledged().union(
                batch_set(alert_ids(alerts@)),
            ),
            final(self).config == old(self).config,
            final(self).debug == old(self).debug,
            final(self).pending == old(self).pending,
    {
        let ghost acked0 = self.acknowledged();
        let ghost ids = alert_ids(alerts@);
        let mut picked: Vec<usize> = Vec::new();
        let mut i: usize = 0;
        assert(ids.take(0) =~= Seq::<Seq<char>>::empty());
        assert(self.acknowledged() =~= acked0.union(batch_set(ids.take(0))));
        assert(picked@.map_values(|k: usize| k as int) =~= Seq::<int>::empty());
        while i < alerts.len()
            invariant
                i <= alerts@.len(),
                ids == alert_ids(alerts@),
                self.config == old(self).config,
                self.debug == old(self).debug,
                self.pending == old(self).pending,
                self.acknowledged() == acked0.union(batch_set(ids.take(i as int))),
                picked@.map_values(|k: usize| k as int) == novel_indices(acked0, ids.take(i as int)),
            decreases alerts@.len() - i,
        {
            let ghost before = picked@;
            let ghost pre = ids.take(i as int);
            let ghost next = ids.take(i as int + 1);
            assert(next.drop_last() =~= pre);
            assert(ids[i as int] == alerts@[i as int].id@);
            assert forall|j: int| 0 <= j <= i implies next[j] == ids[j] by {}
            assert(first_novel(acked0, next, i as int) == first_novel(acked0, ids, i as int));
            assert(self.novel(ids[i as int]) == first_novel(acked0, ids, i as int)) by {
                if !self.novel(ids[i as int]) && !acked0.contains(ids[i as int]) {
                    assert(pre.contains(ids[i as int]));
                    let j = choose|j: int| 0 <= j < pre.len() && pre[j] == ids[i as int];
                    assert(ids[j] == ids[i as int]);
                }
                if self.novel(ids[i as int]) {
                    assert forall|j: int| 0 <= j < i implies ids[j] != ids[i as int] by {
                        assert(pre[j] == ids[j]);
                    }
                }
            }
            if self.is_novel(&alerts[i]) {
                picked.push(i);
                assert(picked@.map_values(|k: usize| k as int) =~= before.map_values(
                    |k: usize| k as int,
                ).push(i as int));
            }
            self.record(&alerts[i]);
            assert(batch_set(next) =~= batch_set(pre).insert(ids[i as int])) by {
                assert forall|id: Seq<char>| batch_set(next).contains(id) implies batch_set(
                    pre,
                ).insert(ids[i as int]).contains(id) by {
                    let j = choose|j: int| 0 <= j < next.len() && next[j] == id;
                    if j < i {
                        assert(pre[j] == id);
                    }
                }
                assert forall|id: Seq<char>| batch_set(pre).insert(ids[i as int]).contains(
                    id,
                ) implies batch_set(next).contains(id) by {
                    if id == ids[i as int] {
                        assert(next[i as int] == id);
                    } else {
                        let j = choose|j: int| 0 <= j < pre.len() && pre[j] == id;
                        assert(next[j] == id);
                    }
                }
            }
            assert(self.acknowledged() =~= acked0.union(batch_set(next)));
            i = i + 1;
        }
        assert(ids.take(alerts@.len() as int) =~= ids);
        picked
    }

    /// The interval has elapsed: fetch the feed of the configured point.
    pub fn on_interval_elapsed(&self) -> (r: CycleAction)
        ensures
            match r {
                CycleAction::Fetch { url, user_agent } => url@ == alerts_url(self.config)
                    && user_agent@ == self.config.user_agent@,
                _ => false,
            },
    {
        CycleAction::Fetch { url: self.config.alerts_url(), user_agent: self.config.user_agent.clone() }
    }

    /// The fetch has ended: decode the payload of a successful response;
    /// after a transport error or any other status, skip the cycle.
    pub fn on_fetched(&self, response: Result<FetchedResponse, TransportError>) -> (r: CycleAction)
        ensures
            r == match response {
                Ok(resp) => if is_success(resp.status) {
                    CycleAction::Decode(resp.body)
                } else {
                    CycleAction::Sleep(self.config.update_interval)
                },
                Err(_) => CycleAction::Sleep(self.config.update_interval),
            },
    {
        match response {
            Ok(resp) => if is_success_status(resp.status) {
                CycleAction::Decode(resp.body)
            } else {
                CycleAction::Sleep(self.config.update_interval)
            },
            Err(_) => CycleAction::Sleep(self.config.update_interval),
        }
    }

    /// Shows the next pending notification, or waits for the next cycle when
    /// none is left.
    fn next_notification(&mut self) -> (r: CycleAction)
        ensures
            queue_after(r, final(self).pending@) == old(self).pending@,
            r is Notify || r == CycleAction::Sleep(old(self).config.update_interval),
            r is Sleep ==> final(self).pending@.len() == 0,
            final(self).unchanged_but_pending(old(self)),
    {
        if self.pending.len() == 0 {
            CycleAction::Sleep(self.config.update_interval)
        } else {
            let req = self.pending.remove(0);
            assert(seq![req] + self.pending@ =~= old(self).pending@);
            CycleAction::Notify(req)
        }
    }

    /// The payload has been decoded, or has failed to decode. A payload that
    /// does not decode skips the cycle and changes nothing. Otherwise the
    /// alerts to act upon are picked and recorded, and their notifications are
    /// shown one by one in feed order.
    pub fn on_decoded(&mut self, decoded: Result<Vec<FeedRecord>, MalformedPayload>) -> (r:
        CycleAction)
        ensures
            final(self).config == old(self).config,
            final(self).debug == old(self).debug,
            match decoded {
                Ok(records) => {
                    &&& final(self).acknowledged() == old(self).acknowledged().union(
                        batch_set(record_ids(records@)),
                    )
                    &&& announces(
                        old(self).acknowledged(),
                        records@,
                        old(self).config,
                        queue_after(r, final(self).pending@),
                    )
                    &&& r is Notify || r == CycleAction::Sleep(old(self).config.update_interval)
                    &&& r is Sleep ==> final(self).pending@.len() == 0
                },
                Err(_) => {
                    &&& r == CycleAction::Sleep(old(self).config.update_interval)
                    &&& final(self).acknowledged() == old(self).acknowledged()
                    &&& final(self).pending == old(self).pending
                },
            },
    {
        match decoded {
            Ok(records) => {
                let ghost acked0 = self.acknowledged();
                let feed = extract_weather_features(&records);
                let alerts = feed.alerts();
                assert(alert_ids(alerts@) =~= record_ids(records@));
                let picked = self.filter_novel(&alerts);
                let ghost ni = novel_indices(acked0, record_ids(records@));
                proof {
                    lemma_novel_indices(acked0, record_ids(records@));
                    assert(picked@.len() == ni.len()) by {
                        assert(picked@.map_values(|i: usize| i as int).len() == ni.len());
                    }
                    assert forall|k: int| 0 <= k < picked@.len() implies picked@[k] as int
                        == ni[k] by {
                        assert(picked@.map_values(|i: usize| i as int)[k] == ni[k]);
                    }
                }
                let mut queue: Vec<NotificationRequest> = Vec::new();
                let mut k: usize = 0;
                while k < picked.len()
                    invariant
                        k <= picked@.len(),
                        picked@.len() == ni.len(),
                        forall|m: int| 0 <= m < picked@.len() ==> picked@[m] as int == ni[m],
                        forall|m: int|
                            0 <= m < ni.len() ==> 0 <= #[trigger] ni[m] < records@.len(),
                        alerts@.len() == records@.len(),
                        forall|i: int|
                            0 <= i < alerts@.len() ==> (#[trigger] alerts@[i]).reads(records@[i]),
                        queue@.len() == k,
                        forall|m: int|
                            0 <= m < k ==> #[trigger] queue@[m].renders_record(
                                records@[ni[m]],
                                self.config,
                            ),
                    decreases picked@.len() - k,
                {
                    let idx = picked[k];
                    assert(ni[k as int] == idx);
                    assert(alerts@[idx as int].reads(records@[idx as int]));
                    queue.push(build_notification(&alerts[idx], &self.config));
                    k = k + 1;
                }
                assert forall|i: int| 0 <= i < alerts@.len() implies #[trigger] alerts@[i]
                    == feed.features@[i].properties by {}
                self.pending = queue;
                self.next_notification()
            },
            Err(_) => CycleAction::Sleep(self.config.update_interval),
        }
    }

    /// A notification has been shown, or has failed to show: either way it
    /// is not retried, and the next pending one follows.
    pub fn on_notified(&mut self, outcome: Result<(), NotifyFailure>) -> (r: CycleAction)
        ensures
            queue_after(r, final(self).pending@) == old(self).pending@,
            r is Notify || r == CycleAction::Sleep(old(self).config.update_interval),
            r is Sleep ==> final(self).pending@.len() == 0,
            final(self).unchanged_but_pending(old(self)),
    {
        self.next_notification()
    }
}

/// Once an alert has been recorded, an alert with the same identity is no
/// longer novel, whatever its other fields hold.
pub proof fn lemma_recorded_identity_not_novel(
    before: Daemon,
    after: Daemon,
    a: AlertProperties,
    b: AlertProperties,
)
    requires
        after.acknowledged() == before.acknowledged().insert(a.id@),
        a.id@ == b.id@,
    ensures
        !after.novel(b.id@),
{
}

/// Feeding the same batch through the filter twice acts upon each identity
/// at most once across both passes: the first pass picks no identity twice,
/// and the second pass, which starts from what the first recorded, picks
/// nothing.
pub proof fn lemma_filter_twice(acked: Set<Seq<char>>, ids: Seq<Seq<char>>)
    ensures
        forall|a: int, b: int|
            0 <= a < b < novel_indices(acked, ids).len() ==> ids[novel_indices(acked, ids)[a]]
                != ids[novel_indices(acked, ids)[b]],
        novel_indices(acked.union(batch_set(ids)), ids).len() == 0,
{
    let first = novel_indices(acked, ids);
    lemma_novel_indices(acked, ids);
    assert forall|a: int, b: int| 0 <= a < b < first.len() implies ids[first[a]]
        != ids[first[b]] by {
        assert(first_novel(acked, ids, first[a]));
        assert(first_novel(acked, ids, first[b]));
        assert(first[a] < first[b]);
    }
    let later = acked.union(batch_set(ids));
    lemma_novel_indices(later, ids);
    if novel_indices(later, ids).len() > 0 {
        let i = novel_indices(later, ids)[0];
        assert(first_novel(later, ids, i));
        assert(ids.contains(ids[i]));
        assert(batch_set(ids).contains(ids[i]));
    }
}

} // verus!
