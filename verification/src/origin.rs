//! Hints for returning to the session that asked for attention, and their validation.
use vstd::prelude::*;
use vstd::utf8::encode_utf8;

use crate::text::{
    any_control, chars_of, utf8_len_within, contains_double_dot, has_control, has_double_dot, is_prefix,
    starts_with, str_eq, trim, trim_view,
};

verus! {

/// Hints, in decreasing precision, for returning to the requesting session.
/// Every field is optional; a plain title/message request remains valid.
#[derive(Debug, PartialEq, Eq)]
pub struct Origin {
    pub terminal_app: Option<String>,
    pub app_pid: Option<u32>,
    pub pid: Option<u32>,
    pub terminal_id: Option<String>,
    pub tty: Option<String>,
    pub window_id: Option<String>,
    pub window_title: Option<String>,
    pub tmux_socket: Option<String>,
    pub tmux_pane: Option<String>,
    pub tmux_client: Option<String>,
}

/// The characters of an optional string.
pub open spec fn opt_view(o: Option<String>) -> Option<Seq<char>> {
    match o {
        Some(s) => Some(s@),
        None => None,
    }
}

/// An `Origin` with each string taken by its characters.
pub struct OriginView {
    pub terminal_app: Option<Seq<char>>,
    pub app_pid: Option<u32>,
    pub pid: Option<u32>,
    pub terminal_id: Option<Seq<char>>,
    pub tty: Option<Seq<char>>,
    pub window_id: Option<Seq<char>>,
    pub window_title: Option<Seq<char>>,
    pub tmux_socket: Option<Seq<char>>,
    pub tmux_pane: Option<Seq<char>>,
    pub tmux_client: Option<Seq<char>>,
}

impl View for Origin {
    type V = OriginView;

    open spec fn view(&self) -> OriginView {
        OriginView {
            terminal_app: opt_view(self.terminal_app),
            app_pid: self.app_pid,
            pid: self.pid,
            terminal_id: opt_view(self.terminal_id),
            tty: opt_view(self.tty),
            window_id: opt_view(self.window_id),
            window_title: opt_view(self.window_title),
            tmux_socket: opt_view(self.tmux_socket),
            tmux_pane: opt_view(self.tmux_pane),
            tmux_client: opt_view(self.tmux_client),
        }
    }
}

/// A copy of an optional string.
pub fn clone_opt_string(o: &Option<String>) -> (r: Option<String>)
    ensures
        r == *o,
{
    match o {
        Some(s) => Some(s.clone()),
        None => None,
    }
}

/// Whether two optional strings hold the same characters.
pub fn opt_string_eq(a: &Option<String>, b: &Option<String>) -> (r: bool)
    ensures
        r == (opt_view(*a) == opt_view(*b)),
{
    match (a, b) {
        (Some(x), Some(y)) => str_eq(x.as_str(), y.as_str()),
        (None, None) => true,
        _ => false,
    }
}

impl Clone for Origin {
    fn clone(&self) -> (r: Self)
        ensures
            r == *self,
    {
        Origin {
            terminal_app: clone_opt_string(&self.terminal_app),
            app_pid: self.app_pid,
            pid: self.pid,
            terminal_id: clone_opt_string(&self.terminal_id),
            tty: clone_opt_string(&self.tty),
            window_id: clone_opt_string(&self.window_id),
            window_title: clone_opt_string(&self.window_title),
            tmux_socket: clone_opt_string(&self.tmux_socket),
            tmux_pane: clone_opt_string(&self.tmux_pane),
            tmux_client: clone_opt_string(&self.tmux_client),
        }
    }
}

impl Default for Origin {
    fn default() -> (r: Self)
        ensures
            r.is_empty(),
    {
        Origin {
            terminal_app: None,
            app_pid: None,
            pid: None,
            terminal_id: None,
            tty: None,
            window_id: None,
            window_title: None,
            tmux_socket: None,
            tmux_pane: None,
            tmux_client: None,
        }
    }
}

/// Why an origin was refused.
#[derive(Debug, Clone, Copy, PartialEq, Eq)]
pub enum OriginFault {
    /// A string hint is blank, longer than 1024 bytes, or holds a control character.
    Text,
    /// A process ID is outside 2..=2147483647.
    ProcessId,
    /// `terminal_app` holds a character other than ASCII letters, digits, `.`, `-`, `_`.
    TerminalApp,
    /// `tmux_pane` is not `%` followed by decimal digits.
    TmuxPane,
    /// `tmux_socket` is not an absolute path.
    TmuxSocket,
    /// `tty` or `tmux_client` is not a `/dev/` path, or climbs with `..`.
    Tty,
}

impl OriginFault {
    pub open spec fn message_view(self) -> Seq<char> {
        match self {
            OriginFault::Text =>
                "origin strings must be nonblank, at most 1024 bytes, and contain no control characters"@,
            OriginFault::ProcessId => "origin process IDs must be between 2 and 2147483647"@,
            OriginFault::TerminalApp =>
                "terminal_app must be a terminal alias or application bundle identifier"@,
            OriginFault::TmuxPane => "tmux_pane must be a pane ID such as %101"@,
            OriginFault::TmuxSocket => "tmux_socket must be an absolute path"@,
            OriginFault::Tty => "tty and tmux_client must be /dev/ terminal paths"@,
        }
    }

    /// The text that a refused request is answered with.
    pub fn message(&self) -> (m: &'static str)
        ensures
            m@ == self.message_view(),
    {
        match self {
            OriginFault::Text =>
                "origin strings must be nonblank, at most 1024 bytes, and contain no control characters",
            OriginFault::ProcessId => "origin process IDs must be between 2 and 2147483647",
            OriginFault::TerminalApp =>
                "terminal_app must be a terminal alias or application bundle identifier",
            OriginFault::TmuxPane => "tmux_pane must be a pane ID such as %101",
            OriginFault::TmuxSocket => "tmux_socket must be an absolute path",
            OriginFault::Tty => "tty and tmux_client must be /dev/ terminal paths",
        }
    }
}

/// A string hint: not blank, at most 1024 bytes of UTF-8, no control character.
pub open spec fn text_hint_ok(s: Seq<char>) -> bool {
    &&& trim_view(s).len() > 0
    &&& encode_utf8(s).len() <= 1024
    &&& !has_control(s)
}

pub open spec fn opt_text_ok(o: Option<Seq<char>>) -> bool {
    match o {
        Some(s) => text_hint_ok(s),
        None => true,
    }
}

/// A process ID that a running process other than init can have.
pub open spec fn pid_ok(p: Option<u32>) -> bool {
    match p {
        Some(x) => 2 <= x && x <= 0x7fff_ffff,
        None => true,
    }
}

pub open spec fn is_ascii_digit_char(c: char) -> bool {
    '0' <= c && c <= '9'
}

pub open spec fn is_bundle_char(c: char) -> bool {
    ||| is_ascii_digit_char(c)
    ||| 'a' <= c && c <= 'z'
    ||| 'A' <= c && c <= 'Z'
    ||| c == '.'
    ||| c == '-'
    ||| c == '_'
}

/// A terminal alias or a bundle identifier: ASCII letters, digits, `.`, `-`, `_`.
pub open spec fn bundle_name_ok(s: Seq<char>) -> bool {
    forall|i: int| 0 <= i < s.len() ==> #[trigger] is_bundle_char(s[i])
}

/// A tmux pane ID: `%` and at least one decimal digit.
pub open spec fn pane_ok(s: Seq<char>) -> bool {
    &&& s.len() >= 2
    &&& s[0] == '%'
    &&& forall|i: int| 1 <= i < s.len() ==> #[trigger] is_ascii_digit_char(s[i])
}

/// An absolute path.
pub open spec fn absolute_ok(s: Seq<char>) -> bool {
    s.len() > 0 && s[0] == '/'
}

/// A terminal device path under `/dev/` that does not climb out of it.
pub open spec fn tty_ok(s: Seq<char>) -> bool {
    is_prefix("/dev/"@, s) && !has_double_dot(s)
}

pub open spec fn opt_holds(o: Option<Seq<char>>, p: spec_fn(Seq<char>) -> bool) -> bool {
    match o {
        Some(s) => p(s),
        None => true,
    }
}

/// The first rule, in the order the validator checks them, that `o` breaks.
pub open spec fn origin_fault(o: OriginView) -> Option<OriginFault> {
    if !(opt_text_ok(o.terminal_app) && opt_text_ok(o.terminal_id) && opt_text_ok(o.tty)
        && opt_text_ok(o.window_id) && opt_text_ok(o.window_title) && opt_text_ok(o.tmux_socket)
        && opt_text_ok(o.tmux_pane) && opt_text_ok(o.tmux_client)) {
        Some(OriginFault::Text)
    } else if !(pid_ok(o.pid) && pid_ok(o.app_pid)) {
        Some(OriginFault::ProcessId)
    } else if !opt_holds(o.terminal_app, |s: Seq<char>| bundle_name_ok(s)) {
        Some(OriginFault::TerminalApp)
    } else if !opt_holds(o.tmux_pane, |s: Seq<char>| pane_ok(s)) {
        Some(OriginFault::TmuxPane)
    } else if !opt_holds(o.tmux_socket, |s: Seq<char>| absolute_ok(s)) {
        Some(OriginFault::TmuxSocket)
    } else if !(opt_holds(o.tty, |s: Seq<char>| tty_ok(s)) && opt_holds(
        o.tmux_client,
        |s: Seq<char>| tty_ok(s),
    )) {
        Some(OriginFault::Tty)
    } else {
        None
    }
}

/// Terminal aliases and the bundle identifiers that they stand for.
pub open spec fn bundle_view(app: Seq<char>) -> Seq<char> {
    if app == "ghostty"@ || app == "Ghostty"@ {
        "com.mitchellh.ghostty"@
    } else if app == "iterm2"@ || app == "iTerm2"@ || app == "iTerm.app"@ {
        "com.googlecode.iterm2"@
    } else if app == "terminal"@ || app == "Terminal"@ || app == "Apple_Terminal"@ {
        "com.apple.Terminal"@
    } else {
        app
    }
}

fn text_hint_check(o: &Option<String>) -> (r: bool)
    ensures
        r == opt_text_ok(opt_view(*o)),
{
    match o {
        None => true,
        Some(s) => {
            let v = chars_of(s.as_str());
            let t = trim(s.as_str());
            !t.as_str().is_empty() && utf8_len_within(&v, 1024) && !any_control(&v)
        },
    }
}

fn pid_check(p: Option<u32>) -> (r: bool)
    ensures
        r == pid_ok(p),
{
    match p {
        Some(x) => 2 <= x && x <= 0x7fff_ffff,
        None => true,
    }
}

fn is_bundle_char_exec(c: char) -> (r: bool)
    ensures
        r == is_bundle_char(c),
{
    ('0' <= c && c <= '9') || ('a' <= c && c <= 'z') || ('A' <= c && c <= 'Z') || c == '.' || c
        == '-' || c == '_'
}

fn bundle_name_check(s: &String) -> (r: bool)
    ensures
        r == bundle_name_ok(s@),
{
    let v = chars_of(s.as_str());
    let mut i: usize = 0;
    while i < v.len()
        invariant
            v@ == s@,
            i <= v.len(),
            forall|j: int| 0 <= j < i ==> #[trigger] is_bundle_char(v@[j]),
        decreases v.len() - i,
    {
        if !is_bundle_char_exec(v[i]) {
            return false;
        }
        i = i + 1;
    }
    true
}

fn pane_check(s: &String) -> (r: bool)
    ensures
        r == pane_ok(s@),
{
    let v = chars_of(s.as_str());
    if v.len() < 2 || v[0] != '%' {
        return false;
    }
    let mut i: usize = 1;
    while i < v.len()
        invariant
            v@ == s@,
            1 <= i <= v.len(),
            forall|j: int| 1 <= j < i ==> #[trigger] is_ascii_digit_char(v@[j]),
        decreases v.len() - i,
    {
        if !('0' <= v[i] && v[i] <= '9') {
            assert(!is_ascii_digit_char(s@[i as int]));
            return false;
        }
        i = i + 1;
    }
    true
}

fn absolute_check(s: &String) -> (r: bool)
    ensures
        r == absolute_ok(s@),
{
    let v = chars_of(s.as_str());
    v.len() > 0 && v[0] == '/'
}

fn tty_check(s: &String) -> (r: bool)
    ensures
        r == tty_ok(s@),
{
    let v = chars_of(s.as_str());
    starts_with(&v, "/dev/") && !contains_double_dot(&v)
}

impl Origin {
    /// No hint at all.
    pub open spec fn is_empty(&self) -> bool {
        &&& self.terminal_app is None
        &&& self.app_pid is None
        &&& self.pid is None
        &&& self.terminal_id is None
        &&& self.tty is None
        &&& self.window_id is None
        &&& self.window_title is None
        &&& self.tmux_socket is None
        &&& self.tmux_pane is None
        &&& self.tmux_client is None
    }

    /// The first rule that the origin breaks, if any.
    pub fn fault(&self) -> (r: Option<OriginFault>)
        ensures
            r == origin_fault(self@),
    {
        if !(text_hint_check(&self.terminal_app) && text_hint_check(&self.terminal_id)
            && text_hint_check(&self.tty) && text_hint_check(&self.window_id) && text_hint_check(
            &self.window_title,
        ) && text_hint_check(&self.tmux_socket) && text_hint_check(&self.tmux_pane)
            && text_hint_check(&self.tmux_client)) {
            return Some(OriginFault::Text);
        }
        if !(pid_check(self.pid) && pid_check(self.app_pid)) {
            return Some(OriginFault::ProcessId);
        }
        if let Some(app) = &self.terminal_app {
            if !bundle_name_check(app) {
                return Some(OriginFault::TerminalApp);
            }
        }
        if let Some(pane) = &self.tmux_pane {
            if !pane_check(pane) {
                return Some(OriginFault::TmuxPane);
            }
        }
        if let Some(path) = &self.tmux_socket {
            if !absolute_check(path) {
                return Some(OriginFault::TmuxSocket);
            }
        }
        if let Some(tty) = &self.tty {
            if !tty_check(tty) {
                return Some(OriginFault::Tty);
            }
        }
        if let Some(tty) = &self.tmux_client {
            if !tty_check(tty) {
                return Some(OriginFault::Tty);
            }
        }
        None
    }

    /// Accepts the origin, or answers with the text of the first rule it breaks.
    pub fn validate(&self) -> (r: Result<(), &'static str>)
        ensures
            r is Ok <==> origin_fault(self@) is None,
            r matches Err(m) ==> m@ == origin_fault(self@)->0.message_view(),
    {
        match self.fault() {
            None => Ok(()),
            Some(f) => Err(f.message()),
        }
    }

    /// The bundle identifier of `terminal_app`, with the terminal aliases resolved.
    pub fn bundle_id(&self) -> (r: Option<&str>)
        ensures
            match opt_view(self.terminal_app) {
                None => r is None,
                Some(app) => r matches Some(b) && b@ == bundle_view(app),
            },
    {
        match &self.terminal_app {
            None => None,
            Some(app) => {
                let a = app.as_str();
                if str_eq(a, "ghostty") || str_eq(a, "Ghostty") {
                    Some("com.mitchellh.ghostty")
                } else if str_eq(a, "iterm2") || str_eq(a, "iTerm2") || str_eq(a, "iTerm.app") {
                    Some("com.googlecode.iterm2")
                } else if str_eq(a, "terminal") || str_eq(a, "Terminal") || str_eq(
                    a,
                    "Apple_Terminal",
                ) {
                    Some("com.apple.Terminal")
                } else {
                    Some(a)
                }
            },
        }
    }
}

} // verus!
