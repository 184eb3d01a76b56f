//! Returning to the session that raised an alert: the targets to try, most
//! precise first, and how their outcomes settle into one answer.
//! All focus actions originate from a button click, never from receiving an alert.
use vstd::prelude::*;

use crate::origin::{opt_view, Origin};
use crate::platform::{
    activation_failed_message, activation_outcome, app_bundle, attempt_plan, helper_outcome,
    pane_gone_message, planned, resolve_args_view, run_view, script_outcome, script_reading,
    select_pane_args, switch_args, tmux_resolve_args, tmux_selection, tmux_target, AttemptPlan, HelperRun, PlanView, RunningApp, ScriptKind,
};
use crate::applications::{find_apps, lookup_calls, lookup_ok, Lookup};
use crate::text::{join, join_view, str_eq, strings_view};

verus! {

/// A way back to the requesting session.
#[derive(Debug, PartialEq, Eq)]
pub enum Target {
    Terminal(String),
    Tty(String),
    WindowId(String),
    WindowTitle(String),
    Application,
}

impl Clone for Target {
    fn clone(&self) -> (r: Self)
        ensures
            r == *self,
    {
        match self {
            Target::Terminal(s) => Target::Terminal(s.clone()),
            Target::Tty(s) => Target::Tty(s.clone()),
            Target::WindowId(s) => Target::WindowId(s.clone()),
            Target::WindowTitle(s) => Target::WindowTitle(s.clone()),
            Target::Application => Target::Application,
        }
    }
}

impl Target {
    pub open spec fn name_view(&self) -> Seq<char> {
        match self {
            Target::Terminal(_) | Target::Tty(_) => "terminal"@,
            Target::WindowId(_) | Target::WindowTitle(_) => "window"@,
            Target::Application => "application"@,
        }
    }

    /// What the target is called in messages: terminal, window or application.
    pub fn name(&self) -> (r: &'static str)
        ensures
            r@ == self.name_view(),
    {
        match self {
            Target::Terminal(_) | Target::Tty(_) => "terminal",
            Target::WindowId(_) | Target::WindowTitle(_) => "window",
            Target::Application => "application",
        }
    }
}

/// The targets that an origin offers, in the order they are tried: terminal
/// session, TTY, window id, window title, then the application itself.
pub open spec fn targets_view(o: Origin) -> Seq<Target> {
    let terminal = match o.terminal_id {
        Some(s) => seq![Target::Terminal(s)],
        None => Seq::empty(),
    };
    let tty = match o.tty {
        Some(s) => seq![Target::Tty(s)],
        None => Seq::empty(),
    };
    let window = match o.window_id {
        Some(s) => seq![Target::WindowId(s)],
        None => Seq::empty(),
    };
    let title = match o.window_title {
        Some(s) => seq![Target::WindowTitle(s)],
        None => Seq::empty(),
    };
    terminal + tty + window + title + seq![Target::Application]
}

/// The targets to try for `origin`, most precise first.
pub fn targets(origin: &Origin) -> (r: Vec<Target>)
    ensures
        r@ == targets_view(*origin),
{
    let mut steps: Vec<Target> = Vec::new();
    if let Some(id) = &origin.terminal_id {
        steps.push(Target::Terminal(id.clone()));
    }
    if let Some(tty) = &origin.tty {
        steps.push(Target::Tty(tty.clone()));
    }
    if let Some(id) = &origin.window_id {
        steps.push(Target::WindowId(id.clone()));
    }
    if let Some(title) = &origin.window_title {
        steps.push(Target::WindowTitle(title.clone()));
    }
    steps.push(Target::Application);
    assert(steps@ =~= targets_view(*origin));
    steps
}

/// Which target was focused, whether the tmux pane was too, and what went wrong on the way.
#[derive(Debug)]
pub struct FocusResult {
    pub target: String,
    pub tmux_focused: bool,
    pub warning: Option<String>,
}

/// A `FocusResult` with its strings taken by their characters.
pub struct FocusResultView {
    pub target: Seq<char>,
    pub tmux_focused: bool,
    pub warning: Option<Seq<char>>,
}

pub open spec fn result_view(r: Result<FocusResult, String>) -> Result<FocusResultView, Seq<char>> {
    match r {
        Ok(f) => Ok(
            FocusResultView {
                target: f.target@,
                tmux_focused: f.tmux_focused,
                warning: opt_view(f.warning),
            },
        ),
        Err(e) => Err(e@),
    }
}

/// The failure messages in the order they first came, each once.
pub open spec fn dedup_view(errs: Seq<Seq<char>>) -> Seq<Seq<char>>
    decreases errs.len(),
{
    if errs.len() == 0 {
        errs
    } else {
        let d = dedup_view(errs.drop_last());
        if d.contains(errs.last()) {
            d
        } else {
            d.push(errs.last())
        }
    }
}

/// What a success after failures warns of: the target reached and what failed first.
pub open spec fn fallback_warning(name: Seq<char>, errs: Seq<Seq<char>>) -> Option<Seq<char>> {
    if errs.len() == 0 {
        None
    } else {
        Some("Focused the "@ + name + ". "@ + join_view(dedup_view(errs), " "@))
    }
}

/// The answer once the first `errs.len()` targets failed with `errs` and the next
/// one succeeded (`ok`), or all of them failed.
pub open spec fn settle_view(ts: Seq<Target>, errs: Seq<Seq<char>>, ok: bool) -> Result<
    FocusResultView,
    Seq<char>,
> {
    if ok {
        Ok(
            FocusResultView {
                target: ts[errs.len() as int].name_view(),
                tmux_focused: false,
                warning: fallback_warning(ts[errs.len() as int].name_view(), errs),
            },
        )
    } else {
        Err(join_view(dedup_view(errs), " "@))
    }
}

/// `r` is what trying `ts` in order gives when the attempts failed with `errs`
/// and then one succeeded (`ok`), or every attempt failed.
pub open spec fn settled(
    ts: Seq<Target>,
    errs: Seq<Seq<char>>,
    ok: bool,
    r: Result<FocusResult, String>,
) -> bool {
    &&& ok ==> errs.len() < ts.len()
    &&& !ok ==> errs.len() == ts.len()
    &&& result_view(r) == settle_view(ts, errs, ok)
}

/// Whether `s` is among `list`.
fn contains_string(list: &Vec<String>, s: &String) -> (r: bool)
    ensures
        r == strings_view(list@).contains(s@),
{
    let mut i: usize = 0;
    while i < list.len()
        invariant
            i <= list.len(),
            forall|j: int| 0 <= j < i ==> list@[j]@ != s@,
        decreases list.len() - i,
    {
        if str_eq(list[i].as_str(), s.as_str()) {
            assert(strings_view(list@)[i as int] == s@);
            return true;
        }
        i = i + 1;
    }
    assert forall|j: int| 0 <= j < strings_view(list@).len() implies strings_view(list@)[j]
        != s@ by {
        assert(strings_view(list@)[j] == list@[j]@);
    }
    false
}

/// Each message of `errors` once, in the order they first came.
fn dedup_strings(errors: &Vec<String>) -> (r: Vec<String>)
    ensures
        strings_view(r@) == dedup_view(strings_view(errors@)),
{
    let mut out: Vec<String> = Vec::new();
    let mut i: usize = 0;
    assert(strings_view(errors@).take(0) =~= Seq::<Seq<char>>::empty());
    while i < errors.len()
        invariant
            i <= errors.len(),
            strings_view(out@) == dedup_view(strings_view(errors@).take(i as int)),
        decreases errors.len() - i,
    {
        let ghost t = strings_view(errors@).take(i + 1);
        assert(t.drop_last() =~= strings_view(errors@).take(i as int));
        assert(t.last() == errors@[i as int]@);
        if !contains_string(&out, &errors[i]) {
            out.push(errors[i].clone());
            assert(strings_view(out@) =~= dedup_view(strings_view(errors@).take(i as int)).push(
                errors@[i as int]@,
            ));
        }
        i = i + 1;
    }
    assert(strings_view(errors@).take(errors.len() as int) =~= strings_view(errors@));
    out
}

/// The answer once the attempts of `targets` failed with `errors`, and then the
/// next one succeeded (`succeeded`) or there was none left.
pub fn settle_attempts(targets: &Vec<Target>, errors: &Vec<String>, succeeded: bool) -> (r: Result<
    FocusResult,
    String,
>)
    requires
        succeeded ==> errors.len() < targets.len(),
        !succeeded ==> errors.len() == targets.len(),
    ensures
        settled(targets@, strings_view(errors@), succeeded, r),
{
    let failures = dedup_strings(errors);
    assert(strings_view(errors@).len() == errors.len());
    if succeeded {
        let name = targets[errors.len()].name();
        let warning = if errors.len() == 0 {
            None
        } else {
            let mut w = String::from_str("Focused the ");
            w.append(name);
            w.append(". ");
            let joined = join(&failures, " ");
            w.append(joined.as_str());
            Some(w)
        };
        Ok(FocusResult { target: String::from_str(name), tmux_focused: false, warning })
    } else {
        Err(join(&failures, " "))
    }
}

/// An outcome with its error taken by its characters.
pub open spec fn outcome_view(r: Result<(), String>) -> Result<(), Seq<char>> {
    match r {
        Ok(()) => Ok(()),
        Err(e) => Err(e@),
    }
}

/// One attempt at a target, as the caller of `try_targets` makes it.
pub trait TargetAttempt {
    fn attempt(&mut self, target: &Target) -> Result<(), String>;
}

/// A caller's attempts, with a record of each target handed to them and the
/// outcome that came back.
pub struct AttemptLog<A> {
    pub inner: A,
    log: Ghost<Seq<(Target, Result<(), Seq<char>>)>>,
}

impl<A: TargetAttempt> AttemptLog<A> {
    /// The targets attempted so far, in order, with their outcomes.
    pub closed spec fn tried(&self) -> Seq<(Target, Result<(), Seq<char>>)> {
        self.log@
    }

    /// The caller's attempts.
    pub closed spec fn wrapped(&self) -> A {
        self.inner
    }

    /// Starts with no attempt made.
    pub fn new(inner: A) -> (r: Self)
        ensures
            r.wrapped() == inner,
            r.tried() == Seq::<(Target, Result<(), Seq<char>>)>::empty(),
    {
        AttemptLog { inner, log: Ghost(Seq::empty()) }
    }

    /// Hands `target` to the caller's attempt and records what came back.
    pub fn attempt(&mut self, target: &Target) -> (r: Result<(), String>)
        ensures
            final(self).tried() == old(self).tried().push((*target, outcome_view(r))),
    {
        let r = self.inner.attempt(target);
        proof {
            self.log@ = self.log@.push((*target, outcome_view(r)));
        }
        r
    }
}

/// The attempts that trying `ts` makes: each target once, in order, the first
/// `errs.len()` failing with `errs`, then, when `ok`, the next one succeeding.
pub open spec fn attempts_made(ts: Seq<Target>, errs: Seq<Seq<char>>, ok: bool) -> Seq<
    (Target, Result<(), Seq<char>>),
> {
    Seq::new(errs.len(), |i: int| (ts[i], Err::<(), Seq<char>>(errs[i]))) + if ok {
        seq![(ts[errs.len() as int], Ok::<(), Seq<char>>(()))]
    } else {
        Seq::empty()
    }
}

/// Tries the origin's targets in order, each once, until one succeeds; the
/// answer settles from the outcomes the attempts returned.
pub fn try_targets<A: TargetAttempt>(origin: &Origin, attempt: &mut AttemptLog<A>) -> (r: Result<
    FocusResult,
    String,
>)
    ensures
        exists|errs: Seq<Seq<char>>, ok: bool|
            #![trigger settled(targets_view(*origin), errs, ok, r)]
            #![trigger attempts_made(targets_view(*origin), errs, ok)]
            settled(targets_view(*origin), errs, ok, r) && final(attempt).tried() == old(
                attempt,
            ).tried() + attempts_made(targets_view(*origin), errs, ok),
{
    let steps = targets(origin);
    let mut errors: Vec<String> = Vec::new();
    let mut i: usize = 0;
    let ghost before = attempt.tried();
    while i < steps.len()
        invariant
            i <= steps.len(),
            errors.len() == i,
            steps@ == targets_view(*origin),
            attempt.tried() == before + attempts_made(steps@, strings_view(errors@), false),
            before == old(attempt).tried(),
        decreases steps.len() - i,
    {
        let ghost prev = attempt.tried();
        match attempt.attempt(&steps[i]) {
            Ok(()) => {
                let r = settle_attempts(&steps, &errors, true);
                assert(attempt.tried() =~= before + attempts_made(
                    steps@,
                    strings_view(errors@),
                    true,
                ));
                assert(settled(targets_view(*origin), strings_view(errors@), true, r));
                return r;
            },
            Err(e) => {
                let ghost ev = e@;
                errors.push(e);
                assert(attempt.tried() =~= before + attempts_made(
                    steps@,
                    strings_view(errors@),
                    false,
                ));
            },
        }
        i = i + 1;
    }
    let r = settle_attempts(&steps, &errors, false);
    assert(settled(targets_view(*origin), strings_view(errors@), false, r));
    r
}

pub open spec fn no_app_message() -> Seq<char> {
    "The requesting application is no longer running, or no application identity was supplied."@
}

pub open spec fn several_apps_message() -> Seq<char> {
    "Several terminal apps are running; supply terminal_app or app_pid to focus one."@
}

pub open spec fn gone_message() -> Seq<char> {
    "The requested terminal or window is no longer available."@
}

pub open spec fn tmux_warning() -> Seq<char> {
    "The tmux pane could not be selected; you can select it in the terminal."@
}

/// A success with the outcome of selecting the tmux pane folded in: a selected
/// pane is reported, a failed one adds a warning.
pub open spec fn with_tmux(v: Result<FocusResultView, Seq<char>>, tmux: Option<bool>) -> Result<
    FocusResultView,
    Seq<char>,
> {
    match v {
        Err(e) => Err(e),
        Ok(f) => match tmux {
            None => Ok(f),
            Some(true) => Ok(
                FocusResultView { target: f.target, tmux_focused: true, warning: f.warning },
            ),
            Some(false) => Ok(
                FocusResultView {
                    target: f.target,
                    tmux_focused: f.tmux_focused,
                    warning: Some(
                        match f.warning {
                            Some(p) => p + " "@ + tmux_warning(),
                            None => tmux_warning(),
                        },
                    ),
                },
            ),
        },
    }
}

pub open spec fn tmux_view(t: Option<Result<(), String>>) -> Option<bool> {
    match t {
        Some(r) => Some(r is Ok),
        None => None,
    }
}

/// Folds the outcome of selecting the tmux pane into a success.
pub fn merge_tmux(result: FocusResult, tmux: &Option<Result<(), String>>) -> (r: FocusResult)
    ensures
        result_view(Ok(r)) == with_tmux(result_view(Ok(result)), tmux_view(*tmux)),
{
    match tmux {
        None => result,
        Some(Ok(())) => FocusResult { tmux_focused: true, ..result },
        Some(Err(_)) => {
            let warning = match result.warning {
                Some(previous) => {
                    let mut w = previous;
                    w.append(" ");
                    w.append("The tmux pane could not be selected; you can select it in the terminal.");
                    w
                },
                None => String::from_str(
                    "The tmux pane could not be selected; you can select it in the terminal.",
                ),
            };
            FocusResult { target: result.target, tmux_focused: result.tmux_focused, warning: Some(warning) }
        },
    }
}

/// The platform side of focusing: what only the operating system can answer or do.
pub trait FocusHost {
    /// The running instances of the application with bundle identifier `bundle`.
    fn running_with_bundle(&mut self, bundle: &str) -> Vec<RunningApp>;

    /// The running application whose process is `pid`, if there is one.
    fn application_at(&mut self, pid: u32) -> Option<RunningApp>;

    /// The parent of process `pid`, when the system tells it.
    fn parent_of(&mut self, pid: u32) -> Option<u32>;

    /// Unhides and activates `app`; whether the system activated it.
    fn activate(&mut self, app: &RunningApp) -> bool;

    /// Runs `script` on `app`, with `mode`, `value` and the application's process
    /// ID as its arguments.
    fn run_script(&mut self, app: &RunningApp, script: ScriptKind, mode: &str, value: &str) -> HelperRun;

    /// Runs tmux with `args`.
    fn run_tmux(&mut self, args: &Vec<String>) -> HelperRun;
}

/// A call made to the platform, with what it answered.
pub enum HostCall {
    RunningWithBundle(Seq<char>, Seq<RunningApp>),
    ApplicationAt(u32, Option<RunningApp>),
    ParentOf(u32, Option<u32>),
    Activate(RunningApp, bool),
    RunScript(RunningApp, ScriptKind, Seq<char>, Seq<char>, HelperRun),
    RunTmux(Seq<Seq<char>>, HelperRun),
}

/// A platform, with a record of every call made to it and what it answered.
pub struct HostLog<H> {
    pub inner: H,
    log: Ghost<Seq<HostCall>>,
}

impl<H: FocusHost> HostLog<H> {
    /// The calls made so far, in order, with their answers.
    pub closed spec fn calls(&self) -> Seq<HostCall> {
        self.log@
    }

    /// The platform.
    pub closed spec fn wrapped(&self) -> H {
        self.inner
    }

    /// Starts with no call made.
    pub fn new(inner: H) -> (r: Self)
        ensures
            r.wrapped() == inner,
            r.calls() == Seq::<HostCall>::empty(),
    {
        HostLog { inner, log: Ghost(Seq::empty()) }
    }

    pub fn running_with_bundle(&mut self, bundle: &str) -> (r: Vec<RunningApp>)
        ensures
            final(self).calls() == old(self).calls().push(HostCall::RunningWithBundle(bundle@, r@)),
    {
        let r = self.inner.running_with_bundle(bundle);
        proof {
            self.log@ = self.log@.push(HostCall::RunningWithBundle(bundle@, r@));
        }
        r
    }

    pub fn application_at(&mut self, pid: u32) -> (r: Option<RunningApp>)
        ensures
            final(self).calls() == old(self).calls().push(HostCall::ApplicationAt(pid, r)),
    {
        let r = self.inner.application_at(pid);
        proof {
            self.log@ = self.log@.push(HostCall::ApplicationAt(pid, r));
        }
        r
    }

    pub fn parent_of(&mut self, pid: u32) -> (r: Option<u32>)
        ensures
            final(self).calls() == old(self).calls().push(HostCall::ParentOf(pid, r)),
    {
        let r = self.inner.parent_of(pid);
        proof {
            self.log@ = self.log@.push(HostCall::ParentOf(pid, r));
        }
        r
    }

    pub fn activate(&mut self, app: &RunningApp) -> (r: bool)
        ensures
            final(self).calls() == old(self).calls().push(HostCall::Activate(*app, r)),
    {
        let r = self.inner.activate(app);
        proof {
            self.log@ = self.log@.push(HostCall::Activate(*app, r));
        }
        r
    }

    pub fn run_script(&mut self, app: &RunningApp, script: ScriptKind, mode: &str, value: &str) -> (r: HelperRun)
        ensures
            final(self).calls() == old(self).calls().push(
                HostCall::RunScript(*app, script, mode@, value@, r),
            ),
    {
        let r = self.inner.run_script(app, script, mode, value);
        proof {
            self.log@ = self.log@.push(HostCall::RunScript(*app, script, mode@, value@, r));
        }
        r
    }

    pub fn run_tmux(&mut self, args: &Vec<String>) -> (r: HelperRun)
        ensures
            final(self).calls() == old(self).calls().push(HostCall::RunTmux(strings_view(args@), r)),
    {
        let r = self.inner.run_tmux(args);
        proof {
            self.log@ = self.log@.push(HostCall::RunTmux(strings_view(args@), r));
        }
        r
    }
}

/// What selecting the tmux pane does: the tmux runs made, in order, and the
/// outcome. Nothing runs without a pane and a socket; the pane is resolved
/// first, and a pane that resolves to another is never selected; the selection
/// succeeds exactly when every run does.
pub open spec fn tmux_run(o: Origin, calls: Seq<HostCall>, r: Result<(), Seq<char>>) -> bool {
    match o.tmux_pane {
        None => calls.len() == 0 && r == Err::<(), Seq<char>>("No tmux pane supplied."@),
        Some(pane) => match o.tmux_socket {
            None => calls.len() == 0 && r == Err::<(), Seq<char>>(
                "No tmux socket supplied; focused the terminal only."@,
            ),
            Some(socket) => {
                &&& calls.len() >= 1
                &&& calls[0] matches HostCall::RunTmux(a0, run0)
                &&& a0 == resolve_args_view(socket@, pane@)
                &&& match run_view(run0) {
                    Err(e) => calls.len() == 1 && r == Err::<(), Seq<char>>(e),
                    Ok(resolved) => if resolved != pane@ {
                        calls.len() == 1 && r == Err::<(), Seq<char>>(pane_gone_message())
                    } else {
                        &&& calls.len() >= 2
                        &&& calls[1] matches HostCall::RunTmux(a1, run1)
                        &&& a1 == switch_args(socket@, o, pane@)
                        &&& match run_view(run1) {
                            Err(e) => calls.len() == 2 && r == Err::<(), Seq<char>>(e),
                            Ok(_) => {
                                &&& calls.len() == 3
                                &&& calls[2] matches HostCall::RunTmux(a2, run2)
                                &&& a2 == select_pane_args(socket@, pane@)
                                &&& r == match run_view(run2) {
                                    Ok(_) => Ok::<(), Seq<char>>(()),
                                    Err(e) => Err(e),
                                }
                            },
                        }
                    },
                }
            },
        },
    }
}

fn tmux_steps<H: FocusHost>(origin: &Origin, host: &mut HostLog<H>) -> (r: (
    Result<(), String>,
    Ghost<Seq<HostCall>>,
))
    ensures
        tmux_run(*origin, r.1@, outcome_view(r.0)),
        final(host).calls() == old(host).calls() + r.1@,
{
    let ghost start = host.calls();
    let (pane, socket) = match tmux_target(origin) {
        Ok(x) => x,
        Err(m) => {
            assert(host.calls() =~= start + Seq::<HostCall>::empty());
            return (Err(String::from_str(m)), Ghost(Seq::empty()));
        },
    };
    let args = tmux_resolve_args(&socket, &pane);
    let run0 = host.run_tmux(&args);
    let ghost c0 = seq![HostCall::RunTmux(strings_view(args@), run0)];
    assert(host.calls() =~= start + c0);
    let resolved = match helper_outcome(&run0) {
        Ok(o) => o,
        Err(e) => {
            return (Err(e), Ghost(c0));
        },
    };
    let cmds = match tmux_selection(origin, &socket, &pane, resolved.as_str()) {
        Ok(c) => c,
        Err(m) => {
            return (Err(String::from_str(m)), Ghost(c0));
        },
    };
    let run1 = host.run_tmux(&cmds[0]);
    let ghost c1 = c0.push(HostCall::RunTmux(strings_view(cmds@[0]@), run1));
    assert(host.calls() =~= start + c1);
    if let Err(e) = helper_outcome(&run1) {
        return (Err(e), Ghost(c1));
    }
    let run2 = host.run_tmux(&cmds[1]);
    let ghost c2 = c1.push(HostCall::RunTmux(strings_view(cmds@[1]@), run2));
    assert(host.calls() =~= start + c2);
    match helper_outcome(&run2) {
        Ok(_) => (Ok(()), Ghost(c2)),
        Err(e) => (Err(e), Ghost(c2)),
    }
}

/// Selects the origin's tmux pane on the server named by its socket.
pub fn focus_tmux<H: FocusHost>(origin: &Origin, host: &mut HostLog<H>) -> (r: Result<(), String>)
    ensures
        exists|calls: Seq<HostCall>|
            #![trigger tmux_run(*origin, calls, outcome_view(r))]
            tmux_run(*origin, calls, outcome_view(r)) && final(host).calls() == old(host).calls()
                + calls,
{
    let (r, Ghost(calls)) = tmux_steps(origin, host);
    r
}

/// One attempt at a target in one application, with the calls it makes.
pub type AppTry = (Seq<HostCall>, Result<(), Seq<char>>);

/// What trying target `t` in `app` does: the plan made for the application's
/// bundle, carried out by the platform when it is not refused, and its answer read.
pub open spec fn app_attempt(app: RunningApp, t: Target, calls: Seq<HostCall>, out: Result<(), Seq<char>>) -> bool {
    match planned(app_bundle(app), t) {
        PlanView::Activate => {
            &&& calls.len() == 1
            &&& calls[0] matches HostCall::Activate(a, activated)
            &&& a == app
            &&& out == if activated {
                Ok::<(), Seq<char>>(())
            } else {
                Err(activation_failed_message())
            }
        },
        PlanView::Refuse(m) => calls.len() == 0 && out == Err::<(), Seq<char>>(m),
        PlanView::Script(script, mode, value) => {
            &&& calls.len() == 1
            &&& calls[0] matches HostCall::RunScript(a, s, m, v, run)
            &&& a == app && s == script && m == mode && v == value
            &&& out == script_reading(run, mode)
        },
    }
}

fn attempt_in_app<H: FocusHost>(host: &mut HostLog<H>, app: &RunningApp, target: &Target) -> (r: (
    Result<(), String>,
    Ghost<Seq<HostCall>>,
))
    ensures
        app_attempt(*app, *target, r.1@, outcome_view(r.0)),
        final(host).calls() == old(host).calls() + r.1@,
{
    let ghost start = host.calls();
    let bundle: &str = match &app.bundle {
        Some(b) => b.as_str(),
        None => "",
    };
    proof {
        reveal_strlit("");
    }
    assert(bundle@ == app_bundle(*app));
    let plan = attempt_plan(bundle, target);
    match plan {
        AttemptPlan::Activate => {
            let activated = host.activate(app);
            let ghost c = seq![HostCall::Activate(*app, activated)];
            assert(host.calls() =~= start + c);
            (activation_outcome(activated), Ghost(c))
        },
        AttemptPlan::Refuse(m) => {
            assert(host.calls() =~= start + Seq::<HostCall>::empty());
            (Err(String::from_str(m)), Ghost(Seq::empty()))
        },
        AttemptPlan::Script { script, mode, value } => {
            let run = host.run_script(app, script, mode, value.as_str());
            let ghost c = seq![HostCall::RunScript(*app, script, mode@, value@, run)];
            assert(host.calls() =~= start + c);
            let out = match helper_outcome(&run) {
                Ok(o) => script_outcome(o.as_str(), mode),
                Err(e) => Err(e),
            };
            (out, Ghost(c))
        },
    }
}

/// What one target gives once its attempts in the applications answered `tries`:
/// the application itself is never guessed among several; otherwise a success,
/// or the last application's error.
pub open spec fn target_outcome(t: Target, apps: nat, tries: Seq<AppTry>) -> Result<(), Seq<char>> {
    if t is Application && apps != 1 {
        Err(several_apps_message())
    } else if tries.len() > 0 && tries.last().1 is Ok {
        Ok(())
    } else if tries.len() > 0 {
        Err(tries.last().1->Err_0)
    } else {
        Err(gone_message())
    }
}

/// The attempts at one target: none for the application among several;
/// otherwise the applications in order, stopping at the first success.
pub open spec fn target_tries_ok(t: Target, apps: Seq<RunningApp>, tries: Seq<AppTry>) -> bool {
    if t is Application && apps.len() != 1 {
        tries.len() == 0
    } else {
        &&& tries.len() <= apps.len()
        &&& forall|j: int|
            0 <= j < tries.len() ==> #[trigger] app_attempt(apps[j], t, tries[j].0, tries[j].1)
        &&& forall|j: int| 0 <= j < tries.len() - 1 ==> #[trigger] tries[j].1 is Err
        &&& tries.len() == apps.len() || (tries.len() > 0 && tries.last().1 is Ok)
    }
}

/// The calls that the attempts `tries` make, in order.
pub open spec fn try_calls(tries: Seq<AppTry>) -> Seq<HostCall>
    decreases tries.len(),
{
    if tries.len() == 0 {
        Seq::empty()
    } else {
        try_calls(tries.drop_last()) + tries.last().0
    }
}

/// The calls that the attempts `outs` at the first targets make, in order.
pub open spec fn all_calls(outs: Seq<Seq<AppTry>>) -> Seq<HostCall>
    decreases outs.len(),
{
    if outs.len() == 0 {
        Seq::empty()
    } else {
        all_calls(outs.drop_last()) + try_calls(outs.last())
    }
}

/// Whether the targets succeeded at the last one tried.
pub open spec fn run_succeeded(ts: Seq<Target>, apps: nat, outs: Seq<Seq<AppTry>>) -> bool {
    outs.len() > 0 && target_outcome(ts[outs.len() - 1], apps, outs.last()) is Ok
}

/// The failure messages of the targets that failed.
pub open spec fn run_errors(ts: Seq<Target>, apps: nat, outs: Seq<Seq<AppTry>>) -> Seq<Seq<char>> {
    let n = if run_succeeded(ts, apps, outs) {
        outs.len() - 1
    } else {
        outs.len() as int
    };
    Seq::new(n as nat, |i: int| target_outcome(ts[i], apps, outs[i])->Err_0)
}

pub open spec fn tmux_calls(tmux: Option<AppTry>) -> Seq<HostCall> {
    match tmux {
        Some(t) => t.0,
        None => Seq::empty(),
    }
}

pub open spec fn tmux_flag(tmux: Option<AppTry>) -> Option<bool> {
    match tmux {
        Some(t) => Some(t.1 is Ok),
        None => None,
    }
}

/// What focusing does when looking for the applications went as `lk` and found
/// `apps`, selecting the tmux pane went as `tmux`, and the attempts at the
/// targets went as `outs`: the calls made, in order, and the answer.
pub open spec fn focus_run(
    o: Origin,
    lk: Lookup,
    apps: Seq<RunningApp>,
    tmux: Option<AppTry>,
    outs: Seq<Seq<AppTry>>,
    calls: Seq<HostCall>,
    r: Result<FocusResult, String>,
) -> bool {
    let ts = targets_view(o);
    let lookup = lookup_calls(lk);
    &&& lookup_ok(o, lk, apps)
    &&& if apps.len() == 0 {
        &&& r matches Err(e) && e@ == no_app_message()
        &&& calls == lookup
    } else {
        let ok = run_succeeded(ts, apps.len(), outs);
        &&& (tmux is Some <==> o.tmux_pane is Some)
        &&& (tmux matches Some(t) ==> tmux_run(o, t.0, t.1))
        &&& 0 < outs.len() <= ts.len()
        &&& forall|i: int| 0 <= i < outs.len() ==> #[trigger] target_tries_ok(ts[i], apps, outs[i])
        &&& forall|i: int|
            0 <= i < outs.len() - 1 ==> #[trigger] target_outcome(ts[i], apps.len(), outs[i]) is Err
        &&& !ok ==> outs.len() == ts.len()
        &&& calls == lookup + tmux_calls(tmux) + all_calls(outs)
        &&& result_view(r) == with_tmux(
            settle_view(ts, run_errors(ts, apps.len(), outs), ok),
            tmux_flag(tmux),
        )
    }
}

/// One target, tried in each candidate application until one succeeds. The
/// application itself is only tried when it is the only candidate.
fn attempt_target<H: FocusHost>(host: &mut HostLog<H>, target: &Target, apps: &Vec<RunningApp>) -> (r: (
    Result<(), String>,
    Ghost<Seq<AppTry>>,
))
    ensures
        target_tries_ok(*target, apps@, r.1@),
        outcome_view(r.0) == target_outcome(*target, apps@.len(), r.1@),
        final(host).calls() == old(host).calls() + try_calls(r.1@),
{
    let ghost before = host.calls();
    if let Target::Application = target {
        if apps.len() != 1 {
            assert(host.calls() =~= before + try_calls(Seq::empty()));
            return (
                Err(
                    String::from_str(
                        "Several terminal apps are running; supply terminal_app or app_pid to focus one.",
                    ),
                ),
                Ghost(Seq::empty()),
            );
        }
    }
    let mut error = String::from_str("The requested terminal or window is no longer available.");
    let ghost mut tries: Seq<AppTry> = Seq::empty();
    let mut j: usize = 0;
    assert(host.calls() =~= before + try_calls(tries));
    while j < apps.len()
        invariant
            j <= apps.len(),
            !(*target is Application && apps@.len() != 1),
            tries.len() == j,
            forall|k: int| 0 <= k < tries.len() ==> #[trigger] tries[k].1 is Err,
            forall|k: int|
                0 <= k < tries.len() ==> #[trigger] app_attempt(apps@[k], *target, tries[k].0, tries[k].1),
            j == 0 ==> error@ == gone_message(),
            j > 0 ==> error@ == tries.last().1->Err_0,
            host.calls() == before + try_calls(tries),
            before == old(host).calls(),
        decreases apps.len() - j,
    {
        let (outcome, Ghost(c)) = attempt_in_app(host, &apps[j], target);
        let ghost next = tries.push((c, outcome_view(outcome)));
        assert(next.drop_last() =~= tries);
        assert(host.calls() =~= before + try_calls(next));
        assert forall|k: int| 0 <= k < next.len() implies #[trigger] app_attempt(
            apps@[k],
            *target,
            next[k].0,
            next[k].1,
        ) by {
            if k < j {
                assert(next[k] == tries[k]);
            }
        }
        match outcome {
            Ok(()) => {
                assert forall|k: int| 0 <= k < next.len() - 1 implies #[trigger] next[k].1 is Err by {
                    assert(next[k] == tries[k]);
                }
                return (Ok(()), Ghost(next));
            },
            Err(e) => {
                error = e;
            },
        }
        proof {
            assert forall|k: int| 0 <= k < next.len() implies #[trigger] next[k].1 is Err by {
                if k < j {
                    assert(next[k] == tries[k]);
                }
            }
            tries = next;
        }
        j = j + 1;
    }
    (Err(error), Ghost(tries))
}

pub open spec fn unsupported_platform_message() -> Seq<char> {
    "Focusing the requesting application is currently supported on macOS."@
}

/// Focusing on a platform that offers no way back: the origin is still
/// checked, then the request is refused.
pub fn focus_unsupported(origin: &Origin) -> (r: Result<FocusResult, String>)
    ensures
        crate::origin::origin_fault(origin@) is Some ==> (r matches Err(e) && e@
            == crate::origin::origin_fault(origin@)->0.message_view()),
        crate::origin::origin_fault(origin@) is None ==> (r matches Err(e) && e@
            == unsupported_platform_message()),
{
    if let Err(m) = origin.validate() {
        return Err(String::from_str(m));
    }
    Err(String::from_str("Focusing the requesting application is currently supported on macOS."))
}

/// Brings the user back to the session that raised the alert, trying the most
/// precise target first. The platform only finds applications and carries out
/// what is decided here.
pub fn focus<H: FocusHost>(origin: &Origin, host: &mut HostLog<H>) -> (r: Result<
    FocusResult,
    String,
>)
    ensures
        crate::origin::origin_fault(origin@) is Some ==> (r matches Err(e) && e@
            == crate::origin::origin_fault(origin@)->0.message_view() && final(host).calls()
            == old(host).calls()),
        crate::origin::origin_fault(origin@) is None ==> exists|
            lk: Lookup,
            apps: Seq<RunningApp>,
            tmux: Option<AppTry>,
            outs: Seq<Seq<AppTry>>,
            calls: Seq<HostCall>,
        |
            #![trigger focus_run(*origin, lk, apps, tmux, outs, calls, r)]
            focus_run(*origin, lk, apps, tmux, outs, calls, r) && final(host).calls() == old(
                host,
            ).calls() + calls,
{
    if let Err(m) = origin.validate() {
        return Err(String::from_str(m));
    }
    let ghost start = host.calls();
    let (apps, Ghost(lk)) = find_apps(origin, host);
    let ghost lookup = lookup_calls(lk);
    if apps.len() == 0 {
        let r = Err(
            String::from_str(
                "The requesting application is no longer running, or no application identity was supplied.",
            ),
        );
        assert(focus_run(*origin, lk, apps@, None, Seq::empty(), lookup, r));
        return r;
    }
    let (tmux, Ghost(tmux_v)) = if origin.tmux_pane.is_some() {
        let (t, Ghost(c)) = tmux_steps(origin, host);
        let ghost tv = Some((c, outcome_view(t)));
        (Some(t), Ghost(tv))
    } else {
        (None, Ghost(None))
    };
    let ghost head = lookup + tmux_calls(tmux_v);
    assert(host.calls() =~= start + head);
    let steps = targets(origin);
    let ghost ts = targets_view(*origin);
    let mut errors: Vec<String> = Vec::new();
    let ghost mut outs: Seq<Seq<AppTry>> = Seq::empty();
    let mut i: usize = 0;
    assert(host.calls() =~= start + head + all_calls(outs));
    while i < steps.len()
        invariant
            i <= steps.len(),
            errors.len() == i,
            outs.len() == i,
            apps@.len() > 0,
            lookup_ok(*origin, lk, apps@),
            head == lookup + tmux_calls(tmux_v),
            lookup == lookup_calls(lk),
            crate::origin::origin_fault(origin@) is None,
            tmux is Some <==> origin.tmux_pane is Some,
            tmux_v is Some <==> tmux is Some,
            tmux matches Some(t) ==> (tmux_v matches Some(tv) && tv.1 == outcome_view(t)),
            tmux_v matches Some(t) ==> tmux_run(*origin, t.0, t.1),
            steps@ == ts,
            ts == targets_view(*origin),
            forall|j: int| 0 <= j < i ==> #[trigger] target_tries_ok(ts[j], apps@, outs[j]),
            forall|j: int|
                0 <= j < i ==> #[trigger] target_outcome(ts[j], apps@.len(), outs[j]) == Err::<
                    (),
                    Seq<char>,
                >(errors@[j]@),
            host.calls() == start + head + all_calls(outs),
            start == old(host).calls(),
        decreases steps.len() - i,
    {
        let (outcome, Ghost(tries)) = attempt_target(host, &steps[i], &apps);
        let ghost next = outs.push(tries);
        assert(next.drop_last() =~= outs);
        assert(all_calls(next) == all_calls(outs) + try_calls(tries));
        assert(host.calls() =~= start + head + all_calls(next));
        match outcome {
            Ok(()) => {
                let settled_result = settle_attempts(&steps, &errors, true);
                match settled_result {
                    Ok(f) => {
                        let r = Ok(merge_tmux(f, &tmux));
                        proof {
                            assert(run_succeeded(ts, apps@.len(), next));
                            assert(run_errors(ts, apps@.len(), next) =~= strings_view(errors@));
                            assert(tmux_flag(tmux_v) == tmux_view(tmux));
                            assert forall|j: int| 0 <= j < next.len() - 1 implies #[trigger] target_outcome(
                                ts[j],
                                apps@.len(),
                                next[j],
                            ) is Err by {
                                assert(next[j] == outs[j]);
                            }
                            assert forall|j: int| 0 <= j < next.len() implies #[trigger] target_tries_ok(
                                ts[j],
                                apps@,
                                next[j],
                            ) by {
                                if j < i {
                                    assert(next[j] == outs[j]);
                                }
                            }
                            assert(focus_run(
                                *origin,
                                lk,
                                apps@,
                                tmux_v,
                                next,
                                head + all_calls(next),
                                r,
                            ));
                            assert(host.calls() =~= start + (head + all_calls(next)));
                        }
                        return r;
                    },
                    Err(e) => {
                        return Err(e);
                    },
                }
            },
            Err(e) => {
                errors.push(e);
            },
        }
        proof {
            assert forall|j: int| 0 <= j < i + 1 implies #[trigger] target_tries_ok(
                ts[j],
                apps@,
                next[j],
            ) by {
                if j < i {
                    assert(next[j] == outs[j]);
                }
            }
            assert forall|j: int| 0 <= j < i + 1 implies #[trigger] target_outcome(
                ts[j],
                apps@.len(),
                next[j],
            ) == Err::<(), Seq<char>>(errors@[j]@) by {
                if j < i {
                    assert(next[j] == outs[j]);
                }
            }
            outs = next;
        }
        i = i + 1;
    }
    let r = settle_attempts(&steps, &errors, false);
    proof {
        assert(ts.len() > 0);
        assert(!run_succeeded(ts, apps@.len(), outs));
        assert(run_errors(ts, apps@.len(), outs) =~= strings_view(errors@));
        assert(tmux_flag(tmux_v) == tmux_view(tmux));
        assert(focus_run(*origin, lk, apps@, tmux_v, outs, head + all_calls(outs), r));
        assert(host.calls() =~= start + (head + all_calls(outs)));
    }
    r
}

} // verus!
