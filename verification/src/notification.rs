//! The alert record shared by the service and the tray app, and the tray app's
//! presentation report.
use vstd::prelude::*;

use crate::origin::{clone_opt_string, opt_string_eq, opt_view, Origin, OriginView};
use crate::text::str_eq;

verus! {

/// One active alert.
#[derive(Debug, PartialEq, Eq)]
pub struct Notification {
    pub id: String,
    pub session_id: Option<String>,
    pub silenced: bool,
    pub kind: String,
    pub title: String,
    pub message: String,
    pub origin: Option<Origin>,
}

/// A `Notification` with each string taken by its characters.
pub struct NotificationView {
    pub id: Seq<char>,
    pub session_id: Option<Seq<char>>,
    pub silenced: bool,
    pub kind: Seq<char>,
    pub title: Seq<char>,
    pub message: Seq<char>,
    pub origin: Option<OriginView>,
}

pub open spec fn opt_origin_view(o: Option<Origin>) -> Option<OriginView> {
    match o {
        Some(x) => Some(x@),
        None => None,
    }
}

impl View for Notification {
    type V = NotificationView;

    open spec fn view(&self) -> NotificationView {
        NotificationView {
            id: self.id@,
            session_id: opt_view(self.session_id),
            silenced: self.silenced,
            kind: self.kind@,
            title: self.title@,
            message: self.message@,
            origin: opt_origin_view(self.origin),
        }
    }
}

/// The views of a list of alerts.
pub open spec fn views(s: Seq<Notification>) -> Seq<NotificationView> {
    s.map_values(|n: Notification| n@)
}

pub fn clone_opt_origin(o: &Option<Origin>) -> (r: Option<Origin>)
    ensures
        r == *o,
{
    match o {
        Some(x) => Some(x.clone()),
        None => None,
    }
}

impl Clone for Notification {
    fn clone(&self) -> (r: Self)
        ensures
            r == *self,
    {
        Notification {
            id: self.id.clone(),
            session_id: clone_opt_string(&self.session_id),
            silenced: self.silenced,
            kind: self.kind.clone(),
            title: self.title.clone(),
            message: self.message.clone(),
            origin: clone_opt_origin(&self.origin),
        }
    }
}

/// Whether two origins carry the same hints.
pub fn origin_eq(a: &Origin, b: &Origin) -> (r: bool)
    ensures
        r == (a@ == b@),
{
    opt_string_eq(&a.terminal_app, &b.terminal_app) && a.app_pid == b.app_pid && a.pid == b.pid
        && opt_string_eq(&a.terminal_id, &b.terminal_id) && opt_string_eq(&a.tty, &b.tty)
        && opt_string_eq(&a.window_id, &b.window_id) && opt_string_eq(
        &a.window_title,
        &b.window_title,
    ) && opt_string_eq(&a.tmux_socket, &b.tmux_socket) && opt_string_eq(
        &a.tmux_pane,
        &b.tmux_pane,
    ) && opt_string_eq(&a.tmux_client, &b.tmux_client)
}

pub fn opt_origin_eq(a: &Option<Origin>, b: &Option<Origin>) -> (r: bool)
    ensures
        r == (opt_origin_view(*a) == opt_origin_view(*b)),
{
    match (a, b) {
        (Some(x), Some(y)) => origin_eq(x, y),
        (None, None) => true,
        _ => false,
    }
}

impl Notification {
    /// Whether both alerts read the same, field by field.
    pub fn same_as(&self, other: &Notification) -> (r: bool)
        ensures
            r == (self@ == other@),
    {
        str_eq(self.id.as_str(), other.id.as_str()) && opt_string_eq(
            &self.session_id,
            &other.session_id,
        ) && self.silenced == other.silenced && str_eq(self.kind.as_str(), other.kind.as_str())
            && str_eq(self.title.as_str(), other.title.as_str()) && str_eq(
            self.message.as_str(),
            other.message.as_str(),
        ) && opt_origin_eq(&self.origin, &other.origin)
    }
}

/// Whether two lists of alerts read the same, element by element.
pub fn same_notifications(a: &Vec<Notification>, b: &Vec<Notification>) -> (r: bool)
    ensures
        r == (views(a@) == views(b@)),
{
    if a.len() != b.len() {
        assert(views(a@).len() != views(b@).len());
        return false;
    }
    let mut i: usize = 0;
    while i < a.len()
        invariant
            a.len() == b.len(),
            i <= a.len(),
            forall|j: int| 0 <= j < i ==> a@[j]@ == b@[j]@,
        decreases a.len() - i,
    {
        if !a[i].same_as(&b[i]) {
            assert(views(a@)[i as int] != views(b@)[i as int]);
            return false;
        }
        i = i + 1;
    }
    assert(views(a@) =~= views(b@));
    true
}

/// What the tray app reports of its presentation.
#[derive(Debug)]
pub struct DesktopStatus {
    pub presentation: String,
    pub window_visible: bool,
    pub pid: u32,
    pub displayed_id: Option<String>,
    pub displayed_ids: Vec<String>,
    pub error: Option<String>,
}

impl DesktopStatus {
    pub open spec fn is_initial(&self) -> bool {
        &&& self.presentation@.len() == 0
        &&& !self.window_visible
        &&& self.pid == 0
        &&& self.displayed_id is None
        &&& self.displayed_ids@.len() == 0
        &&& self.error is None
    }
}

impl Default for DesktopStatus {
    fn default() -> (r: Self)
        ensures
            r.is_initial(),
    {
        DesktopStatus {
            presentation: String::new(),
            window_visible: false,
            pid: 0,
            displayed_id: None,
            displayed_ids: Vec::new(),
            error: None,
        }
    }
}

} // verus!
