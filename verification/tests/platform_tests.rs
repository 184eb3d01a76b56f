use desktop_notify::focus::{focus, focus_tmux, focus_unsupported, FocusHost, HostLog, Target};
use desktop_notify::origin::Origin;
use desktop_notify::platform::{
    activation_outcome, ancestry_continues, helper_result, helper_timeout_message, helper_wait,
    HelperWait,
};
use desktop_notify::schedule::{escalation_step, step_value};
use desktop_notify::platform::{
    application_query, attempt_plan, helper_answer, helper_failure, next_ancestor,
    script_outcome, tmux_program, tmux_resolve_args, tmux_selection, tmux_target,
    walkable_pid, AppQuery, AttemptPlan, ScriptKind,
};
use desktop_notify::platform::{helper_outcome, narrow_to_pid, HelperRun, RunningApp};

#[test]
fn applications_are_looked_up_by_bundle_then_process_then_terminal() {
    let by_alias = Origin { terminal_app: Some("iTerm2".into()), app_pid: Some(42), ..Default::default() };
    assert_eq!(
        application_query(&by_alias),
        AppQuery::Bundle { bundle: "com.googlecode.iterm2".into(), prefer_pid: Some(42) }
    );
    let by_pid = Origin { app_pid: Some(5), pid: Some(9), ..Default::default() };
    assert_eq!(
        application_query(&by_pid),
        AppQuery::Processes { pids: vec![5, 9], then_terminals: false }
    );
    let pid_and_tty = Origin { pid: Some(999), tty: Some("/dev/ttys001".into()), ..Default::default() };
    assert_eq!(
        application_query(&pid_and_tty),
        AppQuery::Processes { pids: vec![999], then_terminals: true }
    );
    let by_tty = Origin { tty: Some("/dev/ttys001".into()), ..Default::default() };
    assert_eq!(application_query(&by_tty), AppQuery::SupportedTerminals);
    assert_eq!(application_query(&Origin::default()), AppQuery::Nothing);
    let other = Origin { terminal_app: Some("com.example.App".into()), ..Default::default() };
    assert_eq!(
        application_query(&other),
        AppQuery::Bundle { bundle: "com.example.App".into(), prefer_pid: None }
    );
}

#[test]
fn process_ancestry_stops_at_init_and_loops() {
    assert!(!walkable_pid(1));
    assert!(walkable_pid(2));
    assert!(!walkable_pid(2147483648));
    assert_eq!(next_ancestor(10, Some(4)), Some(4));
    assert_eq!(next_ancestor(10, Some(10)), None);
    assert_eq!(next_ancestor(10, None), None);
}

#[test]
fn scripts_are_chosen_by_bundle_and_target() {
    assert_eq!(attempt_plan("com.mitchellh.ghostty", &Target::Application), AttemptPlan::Activate);
    assert_eq!(
        attempt_plan("com.mitchellh.ghostty", &Target::Tty("/dev/ttys001".into())),
        AttemptPlan::Refuse("This terminal does not expose that session identifier; using a broader target.")
    );
    assert_eq!(
        attempt_plan("com.apple.Terminal", &Target::Tty("/dev/ttys001".into())),
        AttemptPlan::Script { script: ScriptKind::Terminal, mode: "tty", value: "/dev/ttys001".into() }
    );
    assert_eq!(
        attempt_plan("com.example.App", &Target::WindowTitle("Doc".into())),
        AttemptPlan::Script { script: ScriptKind::Window, mode: "title", value: "Doc".into() }
    );
    assert_eq!(
        attempt_plan("com.example.App", &Target::WindowId("3".into())),
        AttemptPlan::Refuse("This app does not support the supplied terminal/window identifier.")
    );
    assert_eq!(script_outcome("focused", "window"), Ok(()));
    assert_eq!(
        script_outcome("missing", "window"),
        Err("The requested window was not found or was ambiguous.".to_string())
    );
}

#[test]
fn helper_errors_read_as_hints() {
    assert!(helper_failure("execution error: Not authorized (-1743)").starts_with("Allow Desktop Notify"));
    assert_eq!(helper_failure("  pane closed \n"), "pane closed");
    assert_eq!(helper_failure(&"e".repeat(500)).len(), 400);
    assert_eq!(helper_answer(" focused\n"), "focused");
}

#[test]
fn tmux_is_selected_only_on_the_named_server() {
    assert_eq!(tmux_program(&vec![false, true]), "/usr/local/bin/tmux");
    assert_eq!(tmux_program(&vec![true, true]), "/opt/homebrew/bin/tmux");
    assert_eq!(tmux_program(&vec![false, false]), "tmux");
    let no_socket = Origin { tmux_pane: Some("%3".into()), ..Default::default() };
    assert_eq!(tmux_target(&no_socket).unwrap_err(), "No tmux socket supplied; focused the terminal only.");
    assert_eq!(tmux_target(&Origin::default()).unwrap_err(), "No tmux pane supplied.");
    let origin = Origin {
        tmux_pane: Some("%3".into()),
        tmux_socket: Some("/tmp/tmux-1/default".into()),
        tmux_client: Some("/dev/ttys002".into()),
        ..Default::default()
    };
    let (pane, socket) = tmux_target(&origin).unwrap();
    assert_eq!(
        tmux_resolve_args(&socket, &pane),
        vec!["-S", "/tmp/tmux-1/default", "display-message", "-p", "-t", "%3", "#{pane_id}"]
    );
    assert_eq!(tmux_selection(&origin, &socket, &pane, "%4").unwrap_err(), "The tmux pane is no longer available.");
    let cmds = tmux_selection(&origin, &socket, &pane, "%3").unwrap();
    assert_eq!(cmds[0], vec!["-S", "/tmp/tmux-1/default", "switch-client", "-c", "/dev/ttys002", "-t", "%3"]);
    assert_eq!(cmds[1], vec!["-S", "/tmp/tmux-1/default", "select-pane", "-t", "%3"]);
}

fn app(bundle: &str, pid: i32) -> RunningApp {
    RunningApp { bundle: Some(bundle.into()), pid }
}

fn exited(stdout: &str) -> HelperRun {
    HelperRun::Exited { success: true, stdout: stdout.into(), stderr: String::new() }
}

struct FakeHost {
    running: Vec<RunningApp>,
    parents: Vec<(u32, u32)>,
    asked: Vec<String>,
    activated: bool,
    focused_pid: Option<i32>,
    tmux_answers: Vec<HelperRun>,
    activations: Vec<i32>,
    scripts: Vec<(i32, ScriptKind, String, String)>,
    tmux_runs: Vec<Vec<String>>,
}

fn host(running: Vec<RunningApp>) -> FakeHost {
    FakeHost {
        running,
        parents: Vec::new(),
        asked: Vec::new(),
        activated: true,
        focused_pid: None,
        tmux_answers: Vec::new(),
        activations: Vec::new(),
        scripts: Vec::new(),
        tmux_runs: Vec::new(),
    }
}

impl FocusHost for FakeHost {
    fn running_with_bundle(&mut self, bundle: &str) -> Vec<RunningApp> {
        self.asked.push(format!("bundle {bundle}"));
        self.running.iter().filter(|a| a.bundle.as_deref() == Some(bundle)).cloned().collect()
    }
    fn application_at(&mut self, pid: u32) -> Option<RunningApp> {
        self.asked.push(format!("app {pid}"));
        self.running.iter().find(|a| a.pid as u32 == pid).cloned()
    }
    fn parent_of(&mut self, pid: u32) -> Option<u32> {
        self.asked.push(format!("parent {pid}"));
        self.parents.iter().find(|p| p.0 == pid).map(|p| p.1)
    }
    fn activate(&mut self, app: &RunningApp) -> bool {
        self.activations.push(app.pid);
        self.activated
    }
    fn run_script(&mut self, app: &RunningApp, script: ScriptKind, mode: &str, value: &str) -> HelperRun {
        self.scripts.push((app.pid, script, mode.into(), value.into()));
        if self.focused_pid == Some(app.pid) { exited("focused\n") } else { exited("missing") }
    }
    fn run_tmux(&mut self, args: &Vec<String>) -> HelperRun {
        self.tmux_runs.push(args.clone());
        if self.tmux_answers.is_empty() { exited("") } else { self.tmux_answers.remove(0) }
    }
}

#[test]
fn focus_checks_the_origin_and_the_applications() {
    let bad = Origin { pid: Some(1), ..Default::default() };
    let mut checked = HostLog::new(host(vec![app("com.apple.Terminal", 4)]));
    assert_eq!(focus(&bad, &mut checked).unwrap_err(), "origin process IDs must be between 2 and 2147483647");
    assert!(checked.inner.asked.is_empty());
    let mut none = HostLog::new(host(Vec::new()));
    assert_eq!(
        focus(&Origin::default(), &mut none).unwrap_err(),
        "The requesting application is no longer running, or no application identity was supplied."
    );
    assert!(none.inner.asked.is_empty());
}

#[test]
fn focus_needs_one_application_to_fall_back_to() {
    let origin = Origin { window_id: Some("7".into()), ..Default::default() };
    let two = vec![app("com.googlecode.iterm2", 10), app("com.googlecode.iterm2", 11)];
    let mut failing = HostLog::new(host(two.clone()));
    assert_eq!(
        focus(&origin, &mut failing).unwrap_err(),
        "The requested window was not found or was ambiguous. Several terminal apps are running; supply terminal_app or app_pid to focus one."
    );
    assert_eq!(
        failing.inner.asked,
        vec!["bundle com.mitchellh.ghostty", "bundle com.apple.Terminal", "bundle com.googlecode.iterm2"]
    );
    assert!(failing.inner.activations.is_empty());
    let mut second = HostLog::new(FakeHost { focused_pid: Some(11), ..host(two) });
    let result = focus(&origin, &mut second).unwrap();
    assert_eq!(
        second.inner.scripts,
        vec![
            (10, ScriptKind::ITerm, "window".to_string(), "7".to_string()),
            (11, ScriptKind::ITerm, "window".to_string(), "7".to_string())
        ]
    );
    assert_eq!(result.target, "window");
    assert!(result.warning.is_none());
}

#[test]
fn focus_keeps_the_preferred_instance_of_a_bundle() {
    let origin = Origin { terminal_app: Some("iTerm2".into()), app_pid: Some(11), ..Default::default() };
    let mut h = HostLog::new(host(vec![app("com.googlecode.iterm2", 10), app("com.googlecode.iterm2", 11)]));
    let result = focus(&origin, &mut h).unwrap();
    assert_eq!(result.target, "application");
    assert_eq!(h.inner.activations, vec![11]);
    let mut refused = HostLog::new(FakeHost { activated: false, ..host(vec![app("com.googlecode.iterm2", 10)]) });
    assert_eq!(
        focus(&origin, &mut refused).unwrap_err(),
        "macOS could not activate the requesting application."
    );
}

#[test]
fn focus_walks_up_the_ancestry_to_an_application() {
    let origin = Origin { pid: Some(500), ..Default::default() };
    let mut h = HostLog::new(FakeHost {
        parents: vec![(500, 400), (400, 300)],
        ..host(vec![RunningApp { bundle: None, pid: 400 }, app("com.mitchellh.ghostty", 300)])
    });
    let result = focus(&origin, &mut h).unwrap();
    assert_eq!(result.target, "application");
    assert_eq!(h.inner.asked, vec!["app 500", "parent 500", "app 400", "parent 400", "app 300"]);
    assert_eq!(h.inner.activations, vec![300]);
    let looping = Origin { pid: Some(5), ..Default::default() };
    let mut h = HostLog::new(FakeHost { parents: vec![(5, 5)], ..host(Vec::new()) });
    assert_eq!(
        focus(&looping, &mut h).unwrap_err(),
        "The requesting application is no longer running, or no application identity was supplied."
    );
    assert_eq!(h.inner.asked, vec!["app 5", "parent 5"]);
}

#[test]
fn a_session_hint_falls_back_to_the_supported_terminals() {
    let origin = Origin { pid: Some(999), tty: Some("/dev/ttys001".into()), ..Default::default() };
    let mut h = HostLog::new(FakeHost { focused_pid: Some(7), ..host(vec![app("com.apple.Terminal", 7)]) });
    let result = focus(&origin, &mut h).unwrap();
    assert_eq!(
        h.inner.asked,
        vec![
            "app 999",
            "parent 999",
            "bundle com.mitchellh.ghostty",
            "bundle com.apple.Terminal",
            "bundle com.googlecode.iterm2"
        ]
    );
    assert_eq!(h.inner.scripts, vec![(7, ScriptKind::Terminal, "tty".to_string(), "/dev/ttys001".to_string())]);
    assert_eq!(result.target, "terminal");
}

#[test]
fn focus_refuses_identifiers_a_terminal_does_not_expose() {
    let origin = Origin { terminal_app: Some("ghostty".into()), tty: Some("/dev/ttys001".into()), ..Default::default() };
    let mut h = HostLog::new(host(vec![app("com.mitchellh.ghostty", 3)]));
    let result = focus(&origin, &mut h).unwrap();
    assert!(h.inner.scripts.is_empty());
    assert_eq!(result.target, "application");
    assert_eq!(
        result.warning.as_deref(),
        Some("Focused the application. This terminal does not expose that session identifier; using a broader target.")
    );
}

#[test]
fn focus_reports_the_tmux_pane() {
    let origin = Origin {
        terminal_app: Some("ghostty".into()),
        tmux_pane: Some("%1".into()),
        tmux_socket: Some("/tmp/s".into()),
        ..Default::default()
    };
    let mut h = HostLog::new(FakeHost { tmux_answers: vec![exited("%1\n")], ..host(vec![app("com.mitchellh.ghostty", 3)]) });
    let result = focus(&origin, &mut h).unwrap();
    assert_eq!(
        h.inner.tmux_runs,
        vec![
            vec!["-S", "/tmp/s", "display-message", "-p", "-t", "%1", "#{pane_id}"],
            vec!["-S", "/tmp/s", "select-window", "-t", "%1"],
            vec!["-S", "/tmp/s", "select-pane", "-t", "%1"],
        ]
    );
    assert!(result.tmux_focused);
    assert_eq!(result.target, "application");
    let mut moved = HostLog::new(FakeHost { tmux_answers: vec![exited("%2")], ..host(vec![app("com.mitchellh.ghostty", 3)]) });
    let result = focus(&origin, &mut moved).unwrap();
    assert_eq!(moved.inner.tmux_runs.len(), 1);
    assert!(!result.tmux_focused);
    assert_eq!(
        result.warning.as_deref(),
        Some("The tmux pane could not be selected; you can select it in the terminal.")
    );
}

#[test]
fn tmux_selection_stops_at_the_first_failed_run() {
    let origin = Origin { tmux_pane: Some("%3".into()), ..Default::default() };
    let mut h = HostLog::new(host(Vec::new()));
    assert_eq!(focus_tmux(&origin, &mut h).unwrap_err(), "No tmux socket supplied; focused the terminal only.");
    assert!(h.inner.tmux_runs.is_empty());
    let origin = Origin { tmux_socket: Some("/tmp/s".into()), ..origin };
    let failing = HelperRun::Exited { success: false, stdout: String::new(), stderr: "no client\n".into() };
    let mut h = HostLog::new(FakeHost { tmux_answers: vec![exited("%3"), failing], ..host(Vec::new()) });
    assert_eq!(focus_tmux(&origin, &mut h).unwrap_err(), "no client");
    assert_eq!(h.inner.tmux_runs.len(), 2);
    let mut h = HostLog::new(FakeHost { tmux_answers: vec![HelperRun::TimedOut], ..host(Vec::new()) });
    assert!(focus_tmux(&origin, &mut h).unwrap_err().starts_with("Focus timed out."));
    let mut h = HostLog::new(FakeHost { tmux_answers: vec![exited("%3")], ..host(Vec::new()) });
    assert_eq!(focus_tmux(&origin, &mut h), Ok(()));
    assert_eq!(h.inner.tmux_runs.len(), 3);
}

#[test]
fn helper_runs_read_as_output_or_error() {
    assert_eq!(helper_outcome(&exited(" focused\n")), Ok("focused".to_string()));
    assert_eq!(helper_outcome(&HelperRun::NotStarted("no such file".into())), Err("no such file".to_string()));
    let denied = HelperRun::Exited { success: false, stdout: String::new(), stderr: "error -25211".into() };
    assert!(helper_outcome(&denied).unwrap_err().starts_with("Allow Desktop Notify"));
    assert_eq!(
        helper_outcome(&HelperRun::TimedOut),
        Err("Focus timed out. Check System Settings → Privacy & Security → Automation, then retry.".to_string())
    );
}

#[test]
fn a_bundle_query_prefers_the_named_process() {
    let found = vec![app("a", 1), app("a", 2), app("a", 2)];
    assert_eq!(narrow_to_pid(found.clone(), Some(2)), vec![app("a", 2)]);
    assert_eq!(narrow_to_pid(found.clone(), Some(9)), found);
    assert_eq!(narrow_to_pid(found.clone(), None), found);
}

#[test]
fn sounds_pace_themselves_by_schedule() {
    assert_eq!(escalation_step(0, &vec![60, 120]), 0);
    assert_eq!(escalation_step(60, &vec![60, 120]), 1);
    assert_eq!(escalation_step(179, &vec![60, 120]), 1);
    assert_eq!(escalation_step(180, &vec![60, 120]), 2);
    assert_eq!(escalation_step(u64::MAX, &vec![u64::MAX, 1]), 1);
    assert_eq!(step_value(&vec![8000, 5000], 1, 1), 5000);
    assert_eq!(step_value(&vec![8000, 5000], 7, 1), 5000);
    assert_eq!(step_value(&vec![], 0, 1), 1);
}

#[test]
fn helpers_are_bounded_and_read() {
    assert_eq!(helper_wait(true, 99_999), HelperWait::Finished);
    assert_eq!(helper_wait(false, 15_000), HelperWait::TimedOut);
    assert_eq!(helper_wait(false, 14_999), HelperWait::Poll);
    assert!(helper_timeout_message().starts_with("Focus timed out."));
    assert_eq!(helper_result(true, " focused\n", ""), Ok("focused".to_string()));
    assert_eq!(helper_result(false, "", " no such window "), Err("no such window".to_string()));
    assert_eq!(activation_outcome(true), Ok(()));
    assert_eq!(activation_outcome(false), Err("macOS could not activate the requesting application.".to_string()));
    assert!(ancestry_continues(31, 500));
    assert!(!ancestry_continues(32, 500));
    assert!(!ancestry_continues(0, 1));
}

#[test]
fn other_platforms_check_the_origin_then_refuse() {
    assert_eq!(
        focus_unsupported(&Origin::default()).unwrap_err(),
        "Focusing the requesting application is currently supported on macOS."
    );
    let bad = Origin { pid: Some(0), ..Default::default() };
    assert_eq!(focus_unsupported(&bad).unwrap_err(), "origin process IDs must be between 2 and 2147483647");
}
