use desktop_notify::focus::{targets, try_targets, AttemptLog, Target, TargetAttempt};
use desktop_notify::origin::Origin;

struct Recorder {
    seen: Vec<Target>,
}

impl TargetAttempt for Recorder {
    fn attempt(&mut self, target: &Target) -> Result<(), String> {
        self.seen.push(target.clone());
        if matches!(target, Target::WindowId(_)) {
            Ok(())
        } else {
            Err("Pane closed.".into())
        }
    }
}

struct OnlyApplication;

impl TargetAttempt for OnlyApplication {
    fn attempt(&mut self, target: &Target) -> Result<(), String> {
        if matches!(target, Target::Application) {
            Ok(())
        } else {
            Err("No TTY match.".into())
        }
    }
}

struct AlwaysFails;

impl TargetAttempt for AlwaysFails {
    fn attempt(&mut self, _target: &Target) -> Result<(), String> {
        Err("App closed.".into())
    }
}

#[test]
fn falls_back_from_closed_pane_to_window_before_app() {
    let origin = Origin {
        terminal_id: Some("closed".into()),
        window_id: Some("open".into()),
        terminal_app: Some("ghostty".into()),
        ..Default::default()
    };
    let mut recorder = AttemptLog::new(Recorder { seen: Vec::new() });
    let result = try_targets(&origin, &mut recorder).unwrap();
    assert_eq!(
        recorder.inner.seen,
        vec![
            Target::Terminal("closed".into()),
            Target::WindowId("open".into())
        ]
    );
    assert_eq!(result.target, "window");
    assert!(!result.tmux_focused);
    assert!(result.warning.unwrap().contains("Pane closed"));
}

#[test]
fn app_only_and_failed_precision_still_focus_app() {
    let origin = Origin {
        terminal_app: Some("ghostty".into()),
        ..Default::default()
    };
    assert_eq!(targets(&origin), [Target::Application]);
    let origin = Origin {
        tty: Some("/dev/ttys001".into()),
        ..origin
    };
    let result = try_targets(&origin, &mut AttemptLog::new(OnlyApplication)).unwrap();
    assert_eq!(result.target, "application");
}

#[test]
fn total_failure_is_not_reported_as_success() {
    assert!(try_targets(&Origin::default(), &mut AttemptLog::new(AlwaysFails)).is_err());
}

#[test]
fn repeated_failures_are_reported_once() {
    let origin = Origin {
        terminal_id: Some("t".into()),
        window_id: Some("w".into()),
        ..Default::default()
    };
    let mut log = AttemptLog::new(Recorder { seen: Vec::new() });
    let result = try_targets(&origin, &mut log).unwrap();
    assert_eq!(result.warning.as_deref(), Some("Focused the window. Pane closed."));
    let mut failing = AttemptLog::new(AlwaysFails);
    assert_eq!(try_targets(&origin, &mut failing).unwrap_err(), "App closed.");
}
