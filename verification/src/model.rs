//! The tray app's view of the service: what it last polled, whether to show or
//! hide its window, and the text it shows.
use vstd::prelude::*;

use crate::notification::{same_notifications, views, Notification, NotificationView};
use crate::origin::{clone_opt_string, opt_string_eq, opt_view};
use crate::text::{chars_of, str_eq};

verus! {

/// What the tray app last learnt from the service.
#[derive(Debug, PartialEq, Eq)]
pub struct Snapshot {
    pub notifications: Vec<Notification>,
    pub connected: bool,
    pub error: Option<String>,
}

/// A `Snapshot` with its alerts and error taken by their characters.
pub struct SnapshotView {
    pub notifications: Seq<NotificationView>,
    pub connected: bool,
    pub error: Option<Seq<char>>,
}

impl View for Snapshot {
    type V = SnapshotView;

    open spec fn view(&self) -> SnapshotView {
        SnapshotView {
            notifications: views(self.notifications@),
            connected: self.connected,
            error: opt_view(self.error),
        }
    }
}

/// A copy of a list of alerts.
pub fn clone_notifications(v: &Vec<Notification>) -> (r: Vec<Notification>)
    ensures
        r@ == v@,
{
    let mut out: Vec<Notification> = Vec::new();
    let mut i: usize = 0;
    while i < v.len()
        invariant
            i <= v.len(),
            out@ == v@.take(i as int),
        decreases v.len() - i,
    {
        out.push(v[i].clone());
        assert(v@.take(i + 1) =~= v@.take(i as int).push(v@[i as int]));
        i = i + 1;
    }
    assert(v@.take(v.len() as int) =~= v@);
    out
}

impl Clone for Snapshot {
    fn clone(&self) -> (r: Self)
        ensures
            r.notifications@ == self.notifications@,
            r.connected == self.connected,
            r.error == self.error,
    {
        Snapshot {
            notifications: clone_notifications(&self.notifications),
            connected: self.connected,
            error: clone_opt_string(&self.error),
        }
    }
}

impl Default for Snapshot {
    fn default() -> (r: Self)
        ensures
            r.notifications@.len() == 0,
            !r.connected,
            r.error is None,
    {
        Snapshot { notifications: Vec::new(), connected: false, error: None }
    }
}

/// What the window does after a poll.
#[derive(Debug, Clone, Copy, PartialEq, Eq)]
pub enum VisibilityChange {
    Show,
    Hide,
    Keep,
}

pub open spec fn strs_view(s: Seq<&str>) -> Seq<Seq<char>> {
    s.map_values(|x: &str| x@)
}

/// A new or replaced alert opens the window; the last one cleared hides it;
/// anything else leaves it as it is.
pub open spec fn visibility(previous: Seq<Seq<char>>, next: Seq<Seq<char>>) -> VisibilityChange {
    if exists|i: int| 0 <= i < next.len() && !previous.contains(#[trigger] next[i]) {
        VisibilityChange::Show
    } else if previous.len() > 0 && next.len() == 0 {
        VisibilityChange::Hide
    } else {
        VisibilityChange::Keep
    }
}

/// Whether `id` is among `ids`.
fn contains_id(ids: &[&str], id: &str) -> (r: bool)
    ensures
        r == strs_view(ids@).contains(id@),
{
    let mut i: usize = 0;
    while i < ids.len()
        invariant
            i <= ids.len(),
            forall|j: int| 0 <= j < i ==> ids@[j]@ != id@,
        decreases ids.len() - i,
    {
        if str_eq(ids[i], id) {
            assert(strs_view(ids@)[i as int] == id@);
            return true;
        }
        i = i + 1;
    }
    assert forall|j: int| 0 <= j < strs_view(ids@).len() implies strs_view(ids@)[j] != id@ by {
        assert(strs_view(ids@)[j] == ids@[j]@);
    }
    false
}

/// New/replaced alerts open the window; clearing one row cannot hide the others.
pub fn visibility_change(previous: &[&str], next: &[&str]) -> (r: VisibilityChange)
    ensures
        r == visibility(strs_view(previous@), strs_view(next@)),
{
    let mut i: usize = 0;
    while i < next.len()
        invariant
            i <= next.len(),
            forall|j: int|
                0 <= j < i ==> strs_view(previous@).contains(#[trigger] strs_view(next@)[j]),
        decreases next.len() - i,
    {
        if !contains_id(previous, next[i]) {
            assert(!strs_view(previous@).contains(strs_view(next@)[i as int]));
            return VisibilityChange::Show;
        }
        i = i + 1;
    }
    if previous.len() > 0 && next.len() == 0 {
        VisibilityChange::Hide
    } else {
        VisibilityChange::Keep
    }
}

/// The ids of a list of alerts.
pub open spec fn ids_view(s: Seq<NotificationView>) -> Seq<Seq<char>> {
    s.map_values(|n: NotificationView| n.id)
}

/// What one poll of the service leads to.
#[derive(Debug)]
pub struct PollOutcome {
    /// What the app now knows.
    pub snapshot: Snapshot,
    /// What the window does, once the page is ready.
    pub change: VisibilityChange,
    /// Whether the page and the tray must be told.
    pub changed: bool,
    /// Whether to send a presentation report to the service.
    pub report: bool,
}

pub open spec fn waiting_message() -> Seq<char> {
    "Waiting for the notification service…"@
}

/// The snapshot after a poll that returned `fetched` (`None`: the service did
/// not answer, so the last alerts stay on screen).
pub open spec fn next_snapshot(previous: SnapshotView, fetched: Option<Seq<NotificationView>>) -> SnapshotView {
    match fetched {
        Some(list) => SnapshotView { notifications: list, connected: true, error: None },
        None => SnapshotView {
            notifications: previous.notifications,
            connected: false,
            error: Some(waiting_message()),
        },
    }
}

pub open spec fn opt_views(o: Option<Vec<Notification>>) -> Option<Seq<NotificationView>> {
    match o {
        Some(v) => Some(views(v@)),
        None => None,
    }
}

/// Every tenth poll reports, and every poll that changed something.
pub open spec fn reports(changed: bool, tick: u32) -> bool {
    changed || tick % 10 == 0
}

/// The ids of the alerts, as the window compares them.
fn alert_ids(v: &Vec<Notification>) -> (r: Vec<&str>)
    ensures
        strs_view(r@) == ids_view(views(v@)),
{
    let mut out: Vec<&str> = Vec::new();
    let mut i: usize = 0;
    while i < v.len()
        invariant
            i <= v.len(),
            out@.len() == i,
            strs_view(out@) == ids_view(views(v@)).take(i as int),
        decreases v.len() - i,
    {
        let ghost before = out@;
        out.push(v[i].id.as_str());
        proof {
            assert(out@.len() == before.len() + 1);
            assert(out@[i as int]@ == v@[i as int].id@);
            assert(views(v@)[i as int] == v@[i as int]@);
            assert forall|j: int| 0 <= j <= i implies strs_view(out@)[j] == ids_view(views(v@))[j] by {
                if j < i {
                    assert(strs_view(out@)[j] == strs_view(before)[j]);
                    assert(strs_view(before)[j] == ids_view(views(v@)).take(i as int)[j]);
                }
            }
            assert(strs_view(out@) =~= ids_view(views(v@)).take(i + 1));
        }
        i = i + 1;
    }
    assert(ids_view(views(v@)).take(v.len() as int) =~= ids_view(views(v@)));
    out
}

/// Decides what one poll changes: the new snapshot, the window's move,
/// whether anything changed, and whether to report.
pub fn poll_step(previous: &Snapshot, fetched: Option<Vec<Notification>>, tick: u32) -> (r:
    PollOutcome)
    ensures
        r.snapshot@ == next_snapshot(previous@, opt_views(fetched)),
        r.change == visibility(
            ids_view(previous@.notifications),
            ids_view(r.snapshot@.notifications),
        ),
        r.changed == (previous@ != r.snapshot@),
        r.report == reports(r.changed, tick),
{
    let next = match fetched {
        Some(list) => Snapshot { notifications: list, connected: true, error: None },
        None => Snapshot {
            notifications: clone_notifications(&previous.notifications),
            connected: false,
            error: Some(String::from_str("Waiting for the notification service…")),
        },
    };
    let change = {
        let before = alert_ids(&previous.notifications);
        let after = alert_ids(&next.notifications);
        visibility_change(before.as_slice(), after.as_slice())
    };
    let same = same_notifications(&previous.notifications, &next.notifications)
        && previous.connected == next.connected && opt_string_eq(&previous.error, &next.error);
    let changed = !same;
    let report = changed || tick % 10 == 0;
    PollOutcome { snapshot: next, change, changed, report }
}

/// The counter of polls, wrapping round.
pub fn next_tick(tick: u32) -> (r: u32)
    ensures
        r == (if tick == u32::MAX {
            0
        } else {
            tick + 1
        }),
{
    if tick == u32::MAX {
        0
    } else {
        tick + 1
    }
}

/// The time between two polls of the service, in milliseconds.
pub open spec fn poll_interval_millis() -> nat {
    400
}

/// The time between two polls of the service, in milliseconds.
pub fn poll_interval() -> (r: u64)
    ensures
        r == poll_interval_millis(),
{
    400
}

/// Whether the window opens when the page has loaded: only with an alert to show.
pub fn show_when_ready(snapshot: &Snapshot) -> (r: bool)
    ensures
        r == (snapshot.notifications@.len() > 0),
{
    snapshot.notifications.len() > 0
}

pub open spec fn tooltip_view(s: SnapshotView) -> Seq<char> {
    if s.notifications.len() > 0 {
        "Desktop Notify — "@ + s.notifications[0].title
    } else {
        "Desktop Notify — All caught up"@
    }
}

/// The tray icon's tooltip: the most recent alert's title, or that all is clear.
pub fn tray_tooltip(snapshot: &Snapshot) -> (r: String)
    ensures
        r@ == tooltip_view(snapshot@),
{
    if snapshot.notifications.len() > 0 {
        let mut t = String::from_str("Desktop Notify — ");
        t.append(snapshot.notifications[0].title.as_str());
        t
    } else {
        String::from_str("Desktop Notify — All caught up")
    }
}

/// A server-generated alert id: 32 hexadecimal digits.
pub open spec fn alert_id_ok(id: Seq<char>) -> bool {
    &&& id.len() == 32
    &&& forall|i: int|
        0 <= i < id.len() ==> ('0' <= #[trigger] id[i] <= '9' || 'a' <= id[i] <= 'f' || 'A'
            <= id[i] <= 'F')
}

pub open spec fn invalid_id_message() -> Seq<char> {
    "Invalid notification ID"@
}

/// The address that dismisses alert `id`; ids that are not 32 hexadecimal
/// digits never reach a URL.
pub fn dismiss_url(service: &str, id: &str) -> (r: Result<String, &'static str>)
    ensures
        alert_id_ok(id@) ==> (r matches Ok(u) && u@ == service@ + "/dismiss/"@ + id@),
        !alert_id_ok(id@) ==> (r matches Err(m) && m@ == invalid_id_message()),
{
    let v = chars_of(id);
    let mut ok = v.len() == 32;
    let mut i: usize = 0;
    while i < v.len()
        invariant
            i <= v.len(),
            v@ == id@,
            ok == (v.len() == 32 && forall|j: int|
                0 <= j < i ==> ('0' <= #[trigger] v@[j] <= '9' || 'a' <= v@[j] <= 'f' || 'A'
                    <= v@[j] <= 'F')),
        decreases v.len() - i,
    {
        let c = v[i];
        if !(('0' <= c && c <= '9') || ('a' <= c && c <= 'f') || ('A' <= c && c <= 'F')) {
            ok = false;
        }
        i = i + 1;
    }
    if !ok {
        return Err("Invalid notification ID");
    }
    let mut u = String::from_str(service);
    u.append("/dismiss/");
    u.append(id);
    Ok(u)
}

/// Why asking the service to dismiss an alert failed.
#[derive(Debug, PartialEq, Eq)]
pub enum DismissFailure {
    /// No reply came.
    Unreachable,
    /// The service answered with this error status.
    Status(u16),
}

/// What the user is told when the service gave no reply.
pub fn unreachable_message() -> (m: &'static str)
    ensures
        m@ == "Cannot reach the notification service. Please try again."@,
{
    "Cannot reach the notification service. Please try again."
}

/// A client or server error status.
pub open spec fn error_status(status: u16) -> bool {
    400 <= status <= 599
}

/// How the service's reply to a dismissal reads: `None` when no reply came, else
/// its status. Only a client or server error status is a failure.
pub fn dismissal_reply(status: Option<u16>) -> (r: Result<(), DismissFailure>)
    ensures
        status is None ==> r == Err::<(), DismissFailure>(DismissFailure::Unreachable),
        status matches Some(s) ==> (error_status(s) ==> r == Err::<(), DismissFailure>(
            DismissFailure::Status(s),
        )) && (!error_status(s) ==> r is Ok),
{
    match status {
        None => Err(DismissFailure::Unreachable),
        Some(s) => if 400 <= s && s <= 599 {
            Err(DismissFailure::Status(s))
        } else {
            Ok(())
        },
    }
}

/// `url::Url::parse` (which `reqwest::Url` is), read as the URL's scheme and
/// host; `None` where the text is not a URL.
pub uninterp spec fn url_parts(s: Seq<char>) -> Option<(Seq<char>, Option<Seq<char>>)>;

pub open spec fn parts_view(p: Option<(String, Option<String>)>) -> Option<(Seq<char>, Option<Seq<char>>)> {
    match p {
        Some((scheme, host)) => Some((scheme@, opt_view(host))),
        None => None,
    }
}

/// `url::Url::parse`, then the URL's `scheme` and `host_str`. The contract only
/// names the result: the URL grammar is the url crate's.
#[verifier::external_body]
fn parse_url_parts(s: &str) -> (r: Option<(String, Option<String>)>)
    ensures
        parts_view(r) == url_parts(s@),
{
    match url::Url::parse(s) {
        Ok(u) => Some((u.scheme().to_string(), u.host_str().map(|h| h.to_string()))),
        Err(_) => None,
    }
}

/// The hosts that the service may be reached at.
pub open spec fn local_host(h: Seq<char>) -> bool {
    h == "127.0.0.1"@ || h == "localhost"@ || h == "[::1]"@
}

pub open spec fn local_service(scheme: Seq<char>, host: Option<Seq<char>>) -> bool {
    &&& scheme == "http"@
    &&& host matches Some(h) && local_host(h)
}

/// Whether a URL with this scheme and host is the service on this machine,
/// reached over plain HTTP.
pub fn service_is_local(scheme: &str, host: Option<&str>) -> (r: bool)
    ensures
        r == local_service(scheme@, match host {
            Some(h) => Some(h@),
            None => None,
        }),
{
    if !str_eq(scheme, "http") {
        return false;
    }
    match host {
        Some(h) => str_eq(h, "127.0.0.1") || str_eq(h, "localhost") || str_eq(h, "[::1]"),
        None => false,
    }
}

/// Why the service address was refused.
#[derive(Debug, PartialEq, Eq)]
pub enum ServiceError {
    /// It is not a URL.
    Invalid,
    /// It is not the local service over HTTP.
    NotLocal,
}

impl ServiceError {
    pub fn message(&self) -> (m: &'static str)
        ensures
            *self is Invalid ==> m@ == "valid notification service URL"@,
            *self is NotLocal ==> m@ == "notification service must use local HTTP"@,
    {
        match self {
            ServiceError::Invalid => "valid notification service URL",
            ServiceError::NotLocal => "notification service must use local HTTP",
        }
    }
}

/// Accepts the service address only as a URL of the local service over HTTP:
/// the app never sends alerts' actions elsewhere.
pub fn check_service(service: &str) -> (r: Result<(), ServiceError>)
    ensures
        url_parts(service@) is None ==> r == Err::<(), ServiceError>(ServiceError::Invalid),
        url_parts(service@) matches Some((scheme, host)) ==> (local_service(scheme, host) ==> r is Ok)
            && (!local_service(scheme, host) ==> r == Err::<(), ServiceError>(
            ServiceError::NotLocal,
        )),
{
    match parse_url_parts(service) {
        None => Err(ServiceError::Invalid),
        Some((scheme, host)) => {
            let local = match &host {
                Some(h) => service_is_local(scheme.as_str(), Some(h.as_str())),
                None => service_is_local(scheme.as_str(), None),
            };
            if local {
                Ok(())
            } else {
                Err(ServiceError::NotLocal)
            }
        },
    }
}

/// The service address given on the command line: the value after the first
/// `--server-url`, else the default.
pub open spec fn chosen_view(args: Seq<Seq<char>>) -> Seq<char> {
    if exists|i: int| 0 <= i && i + 1 < args.len() && #[trigger] args[i] == "--server-url"@ {
        args[(choose|i: int|
            0 <= i && i + 1 < args.len() && #[trigger] args[i] == "--server-url"@ && forall|j: int|
                0 <= j < i ==> args[j] != "--server-url"@) + 1]
    } else {
        "http://127.0.0.1:43110"@
    }
}

/// The service address: the value after `--server-url`, else the default,
/// without trailing slashes.
pub open spec fn service_view(args: Seq<Seq<char>>) -> Seq<char> {
    without_trailing_slashes(chosen_view(args))
}

/// `s` without the slashes at its end (`trim_end_matches('/')`).
pub open spec fn without_trailing_slashes(s: Seq<char>) -> Seq<char>
    decreases s.len(),
{
    if s.len() > 0 && s.last() == '/' {
        without_trailing_slashes(s.drop_last())
    } else {
        s
    }
}

fn strip_trailing_slashes(s: &str) -> (r: String)
    ensures
        r@ == without_trailing_slashes(s@),
{
    let v = chars_of(s);
    let mut k: usize = v.len();
    assert(v@.take(k as int) =~= v@);
    while k > 0 && v[k - 1] == '/'
        invariant
            k <= v.len(),
            v@ == s@,
            without_trailing_slashes(s@) == without_trailing_slashes(v@.take(k as int)),
        decreases k,
    {
        assert(v@.take(k as int).drop_last() =~= v@.take(k - 1));
        k = k - 1;
    }
    let sub = s.substring_char(0, k);
    assert(sub@ =~= v@.take(k as int));
    String::from_str(sub)
}

/// The service address given on the command line, as given.
pub fn chosen_service(args: &Vec<String>) -> (r: String)
    ensures
        r@ == chosen_view(crate::text::strings_view(args@)),
{
    let ghost a = crate::text::strings_view(args@);
    let mut i: usize = 0;
    while args.len() > 0 && i < args.len() - 1
        invariant
            a == crate::text::strings_view(args@),
            forall|j: int| 0 <= j < i && j + 1 < a.len() ==> #[trigger] a[j] != "--server-url"@,
        decreases args.len() - i,
    {
        if str_eq(args[i].as_str(), "--server-url") {
            proof {
                assert(a[i as int] == "--server-url"@);
                let k = choose|k: int|
                    0 <= k && k + 1 < a.len() && #[trigger] a[k] == "--server-url"@ && forall|j: int|
                        0 <= j < k ==> a[j] != "--server-url"@;
                if k < i {
                    assert(a[k] != "--server-url"@);
                }
                if k > i {
                    assert(a[i as int] != "--server-url"@);
                }
                assert(k == i);
                assert(a[i + 1] == args@[i + 1]@);
            }
            return args[i + 1].clone();
        }
        i = i + 1;
    }
    String::from_str("http://127.0.0.1:43110")
}

/// The service address that the app was started with.
pub fn service_from_args(args: &Vec<String>) -> (r: String)
    ensures
        r@ == service_view(crate::text::strings_view(args@)),
{
    let chosen = chosen_service(args);
    strip_trailing_slashes(chosen.as_str())
}

/// The service address that the app was started with, when it is a URL of the
/// local service over HTTP; the app does not start with any other.
pub fn checked_service_from_args(args: &Vec<String>) -> (r: Result<String, ServiceError>)
    ensures
        ({
            let chosen = chosen_view(crate::text::strings_view(args@));
            &&& url_parts(chosen) is None ==> r == Err::<String, ServiceError>(ServiceError::Invalid)
            &&& url_parts(chosen) matches Some((scheme, host)) ==> (local_service(scheme, host) ==> (r matches Ok(s) && s@ == service_view(crate::text::strings_view(args@))))
                && (!local_service(scheme, host) ==> r == Err::<String, ServiceError>(ServiceError::NotLocal))
        }),
{
    let chosen = chosen_service(args);
    match check_service(chosen.as_str()) {
        Ok(()) => Ok(strip_trailing_slashes(chosen.as_str())),
        Err(e) => Err(e),
    }
}

} // verus!
