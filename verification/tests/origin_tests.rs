use desktop_notify::server::{NotificationRequest, NotificationState, ServerState, SoundConfig};
use desktop_notify::origin::Origin;

fn origin_with(f: impl FnOnce(&mut Origin)) -> Origin {
    let mut o = Origin::default();
    f(&mut o);
    o
}

#[test]
fn legacy_and_partial_origins_are_valid() {
    // A request without session or origin is still accepted, and its alert carries none.
    let mut state = ServerState {
        config: SoundConfig {
            alert_done_sound: Some("done.wav".into()),
            extra_alert_done_sounds: Vec::new(),
            alert_await_user_input_sound: None,
            extra_alert_await_sounds: Vec::new(),
        },
        notifications: NotificationState::default(),
    };
    let request = NotificationRequest { title: "t".into(), message: "m".into(), session_id: None, origin: None };
    let (old, _) = state.notify(request, true, true).unwrap();
    assert_eq!(old.kind, "all_tasks_finished");
    assert!(old.session_id.is_none());
    assert!(old.origin.is_none());
    for origin in [
        Origin::default(),
        origin_with(|o| o.terminal_app = Some("ghostty".into())),
        origin_with(|o| o.pid = Some(123)),
        origin_with(|o| o.window_id = Some("42".into())),
        origin_with(|o| o.tmux_pane = Some("%1".into())),
    ] {
        origin.validate().unwrap();
    }
}

#[test]
fn rejects_unsafe_or_unbounded_hints() {
    for origin in [
        origin_with(|o| o.pid = Some(0)),
        origin_with(|o| o.pid = Some(4294967295)),
        origin_with(|o| o.tmux_pane = Some("%1; kill-server".into())),
        origin_with(|o| o.tmux_socket = Some("relative".into())),
        origin_with(|o| o.tty = Some("/tmp/tty".into())),
        origin_with(|o| o.window_title = Some("x\ny".into())),
    ] {
        assert!(origin.validate().is_err(), "{origin:?}");
    }
}
