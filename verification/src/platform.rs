//! The decisions around the platform's helpers: which applications to look for,
//! which script serves a target, how a helper's output reads, and the tmux
//! commands that select a pane. The helpers themselves run outside.
use vstd::prelude::*;

use crate::focus::Target;
use crate::origin::{bundle_view, opt_view, Origin};
use crate::text::{chars_of, contains_str, contains_view, str_eq, strings_view, trim, trim_view};

verus! {

/// Where to look for the applications that may own the session.
#[derive(Debug, PartialEq, Eq)]
pub enum AppQuery {
    /// The running instances of this bundle, all of which the platform reports;
    /// of them `focus` keeps the first with process ID `prefer_pid`, when there is one.
    Bundle { bundle: String, prefer_pid: Option<u32> },
    /// The first of these processes, or of their ancestors, that is an application;
    /// when none is, and `then_terminals` holds, the running supported terminals.
    Processes { pids: Vec<u32>, then_terminals: bool },
    /// The running instances of the supported terminals.
    SupportedTerminals,
    /// Nowhere: no application identity was supplied.
    Nothing,
}

pub open spec fn opt_u32_seq(o: Option<u32>) -> Seq<u32> {
    match o {
        Some(x) => seq![x],
        None => Seq::empty(),
    }
}

/// Whether the origin names a session or a window, which the supported
/// terminals can be searched for.
pub open spec fn has_session_hint(o: Origin) -> bool {
    o.terminal_id is Some || o.tty is Some || o.window_id is Some || o.window_title is Some
}

/// A bundle identifier names the application; else a process ID leads to it,
/// with the supported terminals searched when none does and a session or window
/// hint was given; else such a hint is searched among the supported terminals.
pub open spec fn app_query_matches(o: Origin, q: AppQuery) -> bool {
    match opt_view(o.terminal_app) {
        Some(app) => q matches AppQuery::Bundle { bundle, prefer_pid } && bundle@ == bundle_view(
            app,
        ) && prefer_pid == o.app_pid,
        None => if o.app_pid is Some || o.pid is Some {
            q matches AppQuery::Processes { pids, then_terminals } && pids@ == opt_u32_seq(
                o.app_pid,
            ) + opt_u32_seq(o.pid) && then_terminals == has_session_hint(o)
        } else if has_session_hint(o) {
            q is SupportedTerminals
        } else {
            q is Nothing
        },
    }
}

/// Where to look for the session's applications.
pub fn application_query(origin: &Origin) -> (q: AppQuery)
    ensures
        app_query_matches(*origin, q),
{
    if let Some(bundle) = origin.bundle_id() {
        return AppQuery::Bundle { bundle: String::from_str(bundle), prefer_pid: origin.app_pid };
    }
    let hint = origin.terminal_id.is_some() || origin.tty.is_some() || origin.window_id.is_some()
        || origin.window_title.is_some();
    if origin.app_pid.is_some() || origin.pid.is_some() {
        let mut pids: Vec<u32> = Vec::new();
        if let Some(p) = origin.app_pid {
            pids.push(p);
        }
        if let Some(p) = origin.pid {
            pids.push(p);
        }
        assert(pids@ =~= opt_u32_seq(origin.app_pid) + opt_u32_seq(origin.pid));
        return AppQuery::Processes { pids, then_terminals: hint };
    }
    if hint {
        return AppQuery::SupportedTerminals;
    }
    AppQuery::Nothing
}

/// The bundle identifiers of the terminals with their own adapters.
pub fn supported_terminals() -> (r: Vec<&'static str>)
    ensures
        r@.len() == 3,
        r@[0]@ == "com.mitchellh.ghostty"@,
        r@[1]@ == "com.apple.Terminal"@,
        r@[2]@ == "com.googlecode.iterm2"@,
{
    let mut v: Vec<&'static str> = Vec::new();
    v.push("com.mitchellh.ghostty");
    v.push("com.apple.Terminal");
    v.push("com.googlecode.iterm2");
    v
}

/// A process whose parent is worth asking about: neither init nor out of range.
pub fn walkable_pid(pid: u32) -> (r: bool)
    ensures
        r == (2 <= pid && pid <= 0x7fff_ffff),
{
    2 <= pid && pid <= 0x7fff_ffff
}

/// The next process up the ancestry, when the parent is known and is another process.
pub fn next_ancestor(pid: u32, parent: Option<u32>) -> (r: Option<u32>)
    ensures
        r == (match parent {
            Some(p) => if p == pid {
                None::<u32>
            } else {
                Some(p)
            },
            None => None,
        }),
{
    match parent {
        Some(p) => if p == pid {
            None
        } else {
            Some(p)
        },
        None => None,
    }
}

/// The script that drives an application's windows and sessions.
#[derive(Debug, Clone, Copy, PartialEq, Eq)]
pub enum ScriptKind {
    Ghostty,
    Terminal,
    ITerm,
    /// Generic window-title matching through Accessibility.
    Window,
}

/// What to do for a target in an application.
#[derive(Debug, PartialEq, Eq)]
pub enum AttemptPlan {
    /// Unhide and activate the application.
    Activate,
    /// Run `script` with `mode` and `value` as its arguments (data, never code).
    Script { script: ScriptKind, mode: &'static str, value: String },
    /// Give up on this target with this message.
    Refuse(&'static str),
}

pub open spec fn target_mode(t: Target) -> Seq<char> {
    match t {
        Target::Terminal(_) => "terminal"@,
        Target::Tty(_) => "tty"@,
        Target::WindowId(_) => "window"@,
        Target::WindowTitle(_) => "title"@,
        Target::Application => Seq::empty(),
    }
}

pub open spec fn target_value(t: Target) -> Seq<char> {
    match t {
        Target::Terminal(v) => v@,
        Target::Tty(v) => v@,
        Target::WindowId(v) => v@,
        Target::WindowTitle(v) => v@,
        Target::Application => Seq::empty(),
    }
}

pub open spec fn unexposed_message() -> Seq<char> {
    "This terminal does not expose that session identifier; using a broader target."@
}

pub open spec fn unsupported_message() -> Seq<char> {
    "This app does not support the supplied terminal/window identifier."@
}

/// A plan with its strings taken by their characters.
pub enum PlanView {
    Activate,
    Script(ScriptKind, Seq<char>, Seq<char>),
    Refuse(Seq<char>),
}

pub open spec fn plan_view(p: AttemptPlan) -> PlanView {
    match p {
        AttemptPlan::Activate => PlanView::Activate,
        AttemptPlan::Script { script, mode, value } => PlanView::Script(script, mode@, value@),
        AttemptPlan::Refuse(m) => PlanView::Refuse(m@),
    }
}

/// The plan for a target in the application with bundle identifier `bundle`:
/// the application is activated; a session identifier that the terminal does not
/// expose is refused; else the terminal's own script, or for a window title in
/// another application the generic one, is run with the target as data.
pub open spec fn planned(bundle: Seq<char>, t: Target) -> PlanView {
    let mode = target_mode(t);
    if t is Application {
        PlanView::Activate
    } else if (bundle == "com.mitchellh.ghostty"@ && mode == "tty"@) || (bundle
        == "com.apple.Terminal"@ && mode == "terminal"@) {
        PlanView::Refuse(unexposed_message())
    } else if bundle == "com.mitchellh.ghostty"@ {
        PlanView::Script(ScriptKind::Ghostty, mode, target_value(t))
    } else if bundle == "com.apple.Terminal"@ {
        PlanView::Script(ScriptKind::Terminal, mode, target_value(t))
    } else if bundle == "com.googlecode.iterm2"@ {
        PlanView::Script(ScriptKind::ITerm, mode, target_value(t))
    } else if mode == "title"@ {
        PlanView::Script(ScriptKind::Window, mode, target_value(t))
    } else {
        PlanView::Refuse(unsupported_message())
    }
}

/// What to do for `target` in the application with bundle identifier `bundle`.
pub fn attempt_plan(bundle: &str, target: &Target) -> (p: AttemptPlan)
    ensures
        plan_view(p) == planned(bundle@, *target),
{
    let (mode, value): (&'static str, &String) = match target {
        Target::Application => {
            return AttemptPlan::Activate;
        },
        Target::Terminal(v) => ("terminal", v),
        Target::Tty(v) => ("tty", v),
        Target::WindowId(v) => ("window", v),
        Target::WindowTitle(v) => ("title", v),
    };
    let ghostty = str_eq(bundle, "com.mitchellh.ghostty");
    let apple = str_eq(bundle, "com.apple.Terminal");
    if (ghostty && str_eq(mode, "tty")) || (apple && str_eq(mode, "terminal")) {
        return AttemptPlan::Refuse(
            "This terminal does not expose that session identifier; using a broader target.",
        );
    }
    let script = if ghostty {
        ScriptKind::Ghostty
    } else if apple {
        ScriptKind::Terminal
    } else if str_eq(bundle, "com.googlecode.iterm2") {
        ScriptKind::ITerm
    } else if str_eq(mode, "title") {
        ScriptKind::Window
    } else {
        return AttemptPlan::Refuse(
            "This app does not support the supplied terminal/window identifier.",
        );
    };
    AttemptPlan::Script { script, mode, value: value.clone() }
}

/// How a script's answer reads: `focused`, or the target was not found.
pub fn script_outcome(output: &str, mode: &str) -> (r: Result<(), String>)
    ensures
        output@ == "focused"@ ==> r is Ok,
        output@ != "focused"@ ==> (r matches Err(e) && e@ == "The requested "@ + mode@
            + " was not found or was ambiguous."@),
{
    if str_eq(output, "focused") {
        Ok(())
    } else {
        let mut e = String::from_str("The requested ");
        e.append(mode);
        e.append(" was not found or was ambiguous.");
        Err(e)
    }
}

pub open spec fn permission_message() -> Seq<char> {
    "Allow Desktop Notify to control your terminal in System Settings → Privacy & Security → Automation (or Accessibility for window-title matching)."@
}

/// A refused Automation or Accessibility permission shows in the helper's errors.
pub open spec fn permission_denied(stderr: Seq<char>) -> bool {
    contains_view(stderr, "-1743"@) || contains_view(stderr, "-25211"@) || contains_view(
        stderr,
        "1002"@,
    )
}

/// What a failed helper reports: a permission hint, or its trimmed error text cut to 400 characters.
pub open spec fn failure_view(stderr: Seq<char>) -> Seq<char> {
    if permission_denied(stderr) {
        permission_message()
    } else {
        trim_view(stderr).take(
            if trim_view(stderr).len() < 400 {
                trim_view(stderr).len() as int
            } else {
                400
            },
        )
    }
}

/// What a failed helper reports: a permission hint, or its trimmed error text cut to 400 characters.
pub fn helper_failure(stderr: &str) -> (r: String)
    ensures
        r@ == failure_view(stderr@),
{
    let v = chars_of(stderr);
    if contains_str(&v, "-1743") || contains_str(&v, "-25211") || contains_str(&v, "1002") {
        return String::from_str(
            "Allow Desktop Notify to control your terminal in System Settings → Privacy & Security → Automation (or Accessibility for window-title matching).",
        );
    }
    let t = trim(stderr);
    let n = t.as_str().unicode_len();
    let k = if n < 400 {
        n
    } else {
        400
    };
    let cut = t.as_str().substring_char(0, k);
    assert(cut@ =~= trim_view(stderr@).take(k as int));
    String::from_str(cut)
}

/// What a helper that succeeded answers: its output, trimmed.
pub fn helper_answer(stdout: &str) -> (r: String)
    ensures
        r@ == trim_view(stdout@),
{
    trim(stdout)
}

/// The tmux binaries looked for, in order, before falling back to `tmux` on the path.
pub fn tmux_candidates() -> (r: Vec<&'static str>)
    ensures
        r@.len() == 2,
        r@[0]@ == "/opt/homebrew/bin/tmux"@,
        r@[1]@ == "/usr/local/bin/tmux"@,
{
    let mut v: Vec<&'static str> = Vec::new();
    v.push("/opt/homebrew/bin/tmux");
    v.push("/usr/local/bin/tmux");
    v
}

/// The tmux program: the first candidate that is present, else `tmux`.
pub fn tmux_program(present: &Vec<bool>) -> (r: String)
    requires
        present@.len() == 2,
    ensures
        present@[0] ==> r@ == "/opt/homebrew/bin/tmux"@,
        !present@[0] && present@[1] ==> r@ == "/usr/local/bin/tmux"@,
        !present@[0] && !present@[1] ==> r@ == "tmux"@,
{
    let candidates = tmux_candidates();
    let mut i: usize = 0;
    while i < 2
        invariant
            i <= 2,
            present@.len() == 2,
            candidates@.len() == 2,
            candidates@[0]@ == "/opt/homebrew/bin/tmux"@,
            candidates@[1]@ == "/usr/local/bin/tmux"@,
            forall|j: int| 0 <= j < i ==> !present@[j],
        decreases 2 - i,
    {
        if present[i] {
            return String::from_str(candidates[i]);
        }
        i = i + 1;
    }
    String::from_str("tmux")
}

/// The pane and the server socket to select it on; a pane is never selected on
/// a server the desktop app merely inherited.
pub fn tmux_target(origin: &Origin) -> (r: Result<(String, String), &'static str>)
    ensures
        origin.tmux_pane is None ==> (r matches Err(m) && m@ == "No tmux pane supplied."@),
        origin.tmux_pane is Some && origin.tmux_socket is None ==> (r matches Err(m) && m@
            == "No tmux socket supplied; focused the terminal only."@),
        origin.tmux_pane is Some && origin.tmux_socket is Some ==> (r matches Ok((pane, socket))
            && pane == origin.tmux_pane->0 && socket == origin.tmux_socket->0),
{
    let pane = match &origin.tmux_pane {
        Some(p) => p.clone(),
        None => {
            return Err("No tmux pane supplied.");
        },
    };
    let socket = match &origin.tmux_socket {
        Some(s) => s.clone(),
        None => {
            return Err("No tmux socket supplied; focused the terminal only.");
        },
    };
    Ok((pane, socket))
}

/// The arguments that make tmux print the id of `pane`, on the server at `socket`.
pub open spec fn resolve_args_view(socket: Seq<char>, pane: Seq<char>) -> Seq<Seq<char>> {
    seq!["-S"@, socket, "display-message"@, "-p"@, "-t"@, pane, "#{pane_id}"@]
}

/// The arguments that select `pane` in its window, on the server at `socket`.
pub open spec fn select_pane_args(socket: Seq<char>, pane: Seq<char>) -> Seq<Seq<char>> {
    seq!["-S"@, socket, "select-pane"@, "-t"@, pane]
}

pub open spec fn pane_gone_message() -> Seq<char> {
    "The tmux pane is no longer available."@
}

/// The arguments that make tmux print the id of `pane`, on the server at `socket`.
pub fn tmux_resolve_args(socket: &String, pane: &String) -> (r: Vec<String>)
    ensures
        strings_view(r@) == resolve_args_view(socket@, pane@),
{
    let mut v: Vec<String> = Vec::new();
    v.push(String::from_str("-S"));
    v.push(socket.clone());
    v.push(String::from_str("display-message"));
    v.push(String::from_str("-p"));
    v.push(String::from_str("-t"));
    v.push(pane.clone());
    v.push(String::from_str("#{pane_id}"));
    assert(strings_view(v@) =~= resolve_args_view(socket@, pane@));
    v
}

pub open spec fn switch_args(socket: Seq<char>, origin: Origin, pane: Seq<char>) -> Seq<Seq<char>> {
    match origin.tmux_client {
        Some(client) => seq!["-S"@, socket, "switch-client"@, "-c"@, client@, "-t"@, pane],
        None => seq!["-S"@, socket, "select-window"@, "-t"@, pane],
    }
}

/// Once tmux resolved the pane to `resolved`: the commands that select it, or
/// an error when the pane is gone. A closed pane never selects another target.
pub fn tmux_selection(origin: &Origin, socket: &String, pane: &String, resolved: &str) -> (r: Result<
    Vec<Vec<String>>,
    &'static str,
>)
    ensures
        resolved@ != pane@ ==> (r matches Err(m) && m@ == pane_gone_message()),
        resolved@ == pane@ ==> (r matches Ok(cmds) && cmds@.len() == 2 && strings_view(cmds@[0]@)
            == switch_args(socket@, *origin, pane@) && strings_view(cmds@[1]@) == select_pane_args(
            socket@,
            pane@,
        )),
{
    if !str_eq(resolved, pane.as_str()) {
        return Err("The tmux pane is no longer available.");
    }
    let mut first: Vec<String> = Vec::new();
    first.push(String::from_str("-S"));
    first.push(socket.clone());
    match &origin.tmux_client {
        Some(client) => {
            first.push(String::from_str("switch-client"));
            first.push(String::from_str("-c"));
            first.push(client.clone());
        },
        None => {
            first.push(String::from_str("select-window"));
        },
    }
    first.push(String::from_str("-t"));
    first.push(pane.clone());
    assert(strings_view(first@) =~= switch_args(socket@, *origin, pane@));
    let mut second: Vec<String> = Vec::new();
    second.push(String::from_str("-S"));
    second.push(socket.clone());
    second.push(String::from_str("select-pane"));
    second.push(String::from_str("-t"));
    second.push(pane.clone());
    assert(strings_view(second@) =~= select_pane_args(socket@, pane@));
    let mut cmds: Vec<Vec<String>> = Vec::new();
    cmds.push(first);
    cmds.push(second);
    Ok(cmds)
}

/// Whether the walk up a process's ancestry goes on: at most 32 processes are
/// looked at, and only those that are neither init nor out of range.
pub fn ancestry_continues(looked_at: u32, pid: u32) -> (r: bool)
    ensures
        r == (looked_at < 32 && 2 <= pid && pid <= 0x7fff_ffff),
{
    looked_at < 32 && walkable_pid(pid)
}

/// What activating the application amounts to.
pub fn activation_outcome(activated: bool) -> (r: Result<(), String>)
    ensures
        activated ==> r is Ok,
        !activated ==> (r matches Err(e) && e@ == "macOS could not activate the requesting application."@),
{
    if activated {
        Ok(())
    } else {
        Err(String::from_str("macOS could not activate the requesting application."))
    }
}

/// How long a helper may run before it is killed, in milliseconds; a pending
/// Automation prompt must not hang the app.
pub open spec fn helper_deadline_millis() -> nat {
    15000
}

/// What to do with a helper that has run for `waited_millis`.
#[derive(Debug, Clone, Copy, PartialEq, Eq)]
pub enum HelperWait {
    /// It exited: read its output.
    Finished,
    /// The deadline passed: kill it and report the timeout.
    TimedOut,
    /// Look again shortly.
    Poll,
}

pub fn helper_wait(exited: bool, waited_millis: u64) -> (r: HelperWait)
    ensures
        exited ==> r == HelperWait::Finished,
        !exited && waited_millis >= helper_deadline_millis() ==> r == HelperWait::TimedOut,
        !exited && waited_millis < helper_deadline_millis() ==> r == HelperWait::Poll,
{
    if exited {
        HelperWait::Finished
    } else if waited_millis >= 15000 {
        HelperWait::TimedOut
    } else {
        HelperWait::Poll
    }
}

/// What a helper that ran out of time reports.
pub fn helper_timeout_message() -> (m: &'static str)
    ensures
        m@ == "Focus timed out. Check System Settings → Privacy & Security → Automation, then retry."@,
{
    "Focus timed out. Check System Settings → Privacy & Security → Automation, then retry."
}

/// What a helper that exited reports: its trimmed output, or its error read as a hint.
pub fn helper_result(success: bool, stdout: &str, stderr: &str) -> (r: Result<String, String>)
    ensures
        success ==> (r matches Ok(o) && o@ == trim_view(stdout@)),
        !success ==> (r matches Err(e) && e@ == failure_view(stderr@)),
{
    if success {
        Ok(helper_answer(stdout))
    } else {
        Err(helper_failure(stderr))
    }
}

/// How a run of a helper program ended, as the platform reports it.
#[derive(Debug, PartialEq, Eq)]
pub enum HelperRun {
    /// It exited on its own, successfully or not, with what it wrote.
    Exited { success: bool, stdout: String, stderr: String },
    /// It was still running at the deadline and was killed.
    TimedOut,
    /// It could not be started or waited for; the system's error.
    NotStarted(String),
}

pub open spec fn timeout_message() -> Seq<char> {
    "Focus timed out. Check System Settings → Privacy & Security → Automation, then retry."@
}

/// What a run of a helper gives: its trimmed output, or the error to report.
pub open spec fn run_view(run: HelperRun) -> Result<Seq<char>, Seq<char>> {
    match run {
        HelperRun::Exited { success, stdout, stderr } => if success {
            Ok(trim_view(stdout@))
        } else {
            Err(failure_view(stderr@))
        },
        HelperRun::TimedOut => Err(timeout_message()),
        HelperRun::NotStarted(e) => Err(e@),
    }
}

/// What a run of a helper gives: its trimmed output, or the error to report.
pub fn helper_outcome(run: &HelperRun) -> (r: Result<String, String>)
    ensures
        r matches Ok(o) ==> run_view(*run) == Ok::<Seq<char>, Seq<char>>(o@),
        r matches Err(e) ==> run_view(*run) == Err::<Seq<char>, Seq<char>>(e@),
{
    match run {
        HelperRun::Exited { success, stdout, stderr } => helper_result(*success, stdout.as_str(), stderr.as_str()),
        HelperRun::TimedOut => Err(String::from_str(helper_timeout_message())),
        HelperRun::NotStarted(e) => Err(e.clone()),
    }
}

/// What a script's run means for its target: `focused`, or the target was not
/// found, or the run's own error.
pub open spec fn script_reading(run: HelperRun, mode: Seq<char>) -> Result<(), Seq<char>> {
    match run_view(run) {
        Ok(o) => if o == "focused"@ {
            Ok(())
        } else {
            Err("The requested "@ + mode + " was not found or was ambiguous."@)
        },
        Err(e) => Err(e),
    }
}

pub open spec fn activation_failed_message() -> Seq<char> {
    "macOS could not activate the requesting application."@
}

/// A running application as the platform reports it.
#[derive(Debug, PartialEq, Eq)]
pub struct RunningApp {
    pub bundle: Option<String>,
    pub pid: i32,
}

impl Clone for RunningApp {
    fn clone(&self) -> (r: Self)
        ensures
            r == *self,
    {
        RunningApp { bundle: crate::origin::clone_opt_string(&self.bundle), pid: self.pid }
    }
}

/// The application's bundle identifier, empty when it has none.
pub open spec fn app_bundle(a: RunningApp) -> Seq<char> {
    match a.bundle {
        Some(b) => b@,
        None => Seq::empty(),
    }
}

/// Application `j` is the first of `found` with process ID `p`.
pub open spec fn first_with_pid(found: Seq<RunningApp>, p: u32, j: int) -> bool {
    &&& 0 <= j < found.len()
    &&& found[j].pid == p
    &&& forall|k: int| 0 <= k < j ==> found[k].pid != p
}

/// The applications that a bundle query keeps of those found: the first with the
/// preferred process ID when it is among them, else all of them.
pub open spec fn narrowed(found: Seq<RunningApp>, prefer_pid: Option<u32>, r: Seq<RunningApp>) -> bool {
    match prefer_pid {
        Some(p) => (exists|j: int| #[trigger] first_with_pid(found, p, j) && r == seq![found[j]])
            || ((forall|j: int| 0 <= j < found.len() ==> found[j].pid != p) && r == found),
        None => r == found,
    }
}

/// Keeps, of the applications found for a bundle, the one with the preferred
/// process ID when it is among them.
pub fn narrow_to_pid(found: Vec<RunningApp>, prefer_pid: Option<u32>) -> (r: Vec<RunningApp>)
    ensures
        narrowed(found@, prefer_pid, r@),
{
    let p = match prefer_pid {
        Some(p) => p,
        None => {
            return found;
        },
    };
    let mut i: usize = 0;
    while i < found.len()
        invariant
            i <= found.len(),
            prefer_pid == Some(p),
            forall|k: int| 0 <= k < i ==> found@[k].pid != p,
        decreases found.len() - i,
    {
        if found[i].pid as i64 == p as i64 {
            let mut r: Vec<RunningApp> = Vec::new();
            r.push(found[i].clone());
            assert(r@ =~= seq![found@[i as int]]);
            assert(first_with_pid(found@, p, i as int));
            return r;
        }
        i = i + 1;
    }
    found
}

} // verus!
