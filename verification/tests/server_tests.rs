use desktop_notify::notification::Notification;
use desktop_notify::origin::Origin;
use desktop_notify::server::{
    connected_within, desktop_launch_args, health, service_url, AudioAction, NotificationRequest,
    NotificationState, NotifyError, ServerState, SoundConfig,
};

fn configured() -> ServerState {
    ServerState {
        config: SoundConfig {
            alert_done_sound: Some("sounds/done.wav".into()),
            extra_alert_done_sounds: vec!["sounds/done_2.wav".into()],
            alert_await_user_input_sound: Some("sounds/await.wav".into()),
            extra_alert_await_sounds: Vec::new(),
        },
        notifications: NotificationState::default(),
    }
}

fn request(title: &str, message: &str) -> NotificationRequest {
    NotificationRequest {
        title: title.into(),
        message: message.into(),
        session_id: None,
        origin: None,
    }
}

fn in_session(session: Option<&str>, title: &str, message: &str, origin: Option<Origin>) -> NotificationRequest {
    NotificationRequest {
        title: title.into(),
        message: message.into(),
        session_id: session.map(|s| s.to_string()),
        origin,
    }
}

fn window(id: &str) -> Origin {
    Origin {
        window_id: Some(id.into()),
        ..Default::default()
    }
}

fn loop_name(action: &AudioAction) -> Option<&str> {
    match action {
        AudioAction::PlayLoop(spec) => Some(spec.name.as_str()),
        _ => None,
    }
}

fn accept(state: &mut ServerState, req: NotificationRequest, done: bool) -> (Notification, AudioAction) {
    state.notify(req, done, true).unwrap()
}

#[test]
fn notification_replacement_and_stale_dismissal_are_atomic() {
    let mut state = configured();
    let mut ids = Vec::new();
    for (done, endpoint, expected) in [
        (false, "awaiting_user_input", "await"),
        (true, "all_tasks_finished", "done"),
    ] {
        let (response, action) = accept(
            &mut state,
            request(" Work ✓ ", " A question or outcome. "),
            done,
        );
        assert_eq!(response.title, "Work ✓");
        assert_eq!(response.message, "A question or outcome.");
        assert_eq!(response.kind, endpoint);
        assert!(response.origin.is_none());
        ids.push(response.id);
        match action {
            AudioAction::PlayLoop(spec) => {
                assert_eq!(spec.name, expected);
                assert!(!spec.pool.is_empty());
            }
            other => panic!("unexpected command: {other:?}"),
        }
    }
    assert_ne!(ids[0], ids[1]);
    let (stopped, action) = state.dismiss(&ids[0]);
    assert!(!stopped);
    assert!(matches!(action, AudioAction::Keep));
    assert_eq!(state.current().unwrap().id, ids[1]);
    let (stopped, action) = state.dismiss(&ids[1]);
    assert!(stopped);
    assert!(matches!(action, AudioAction::StopAll));
    assert!(state.list().is_empty());
    let (stopped, action) = state.dismiss(&ids[1]);
    assert!(!stopped);
    assert!(matches!(action, AudioAction::Keep));
}

#[test]
fn rejects_invalid_requests_without_starting_audio() {
    let mut state = configured();
    for req in [
        request(" ", "message"),
        request("title", ""),
        request(&"t".repeat(201), "message"),
        request("title", &"m".repeat(4001)),
    ] {
        let error = state.notify(req, true, true).unwrap_err();
        assert_eq!(error, NotifyError::InvalidText);
        assert!(error.is_bad_request());
    }
    assert!(state.list().is_empty());
    assert!(state.notifications.audio_id.is_none());
}

#[test]
fn stop_clears_notification_and_all_audio() {
    let mut state = configured();
    let (_, action) = accept(&mut state, request("Question", "Which option?"), false);
    assert!(matches!(action, AudioAction::PlayLoop(_)));
    let action = state.stop();
    assert!(state.list().is_empty());
    assert!(matches!(action, AudioAction::StopAll));
}

#[test]
fn missing_sound_does_not_create_a_silent_alert() {
    let mut state = ServerState {
        config: SoundConfig {
            alert_done_sound: None,
            extra_alert_done_sounds: Vec::new(),
            alert_await_user_input_sound: None,
            extra_alert_await_sounds: Vec::new(),
        },
        notifications: NotificationState::default(),
    };
    let error = state
        .notify(request("Finished", "Tests passed."), true, true)
        .unwrap_err();
    assert_eq!(error, NotifyError::SoundNotConfigured);
    assert!(!error.is_bad_request());
    assert!(state.list().is_empty());
    let mut present = configured();
    let error = present
        .notify(request("Finished", "Tests passed."), true, false)
        .unwrap_err();
    assert_eq!(error, NotifyError::SoundMissing);
    assert_eq!(error.message(), "configured notification sound is missing\n");
    assert!(present.list().is_empty());
}

#[test]
fn optional_origins_round_trip_through_both_endpoints_and_polling() {
    let mut state = configured();
    let full = Origin {
        terminal_app: Some("ghostty".into()),
        app_pid: Some(123),
        pid: Some(456),
        terminal_id: Some("abc".into()),
        window_id: Some("def".into()),
        window_title: Some("literal \"title\"; $(echo nope)".into()),
        tty: Some("/dev/ttys001".into()),
        tmux_socket: Some("/tmp/tmux-test".into()),
        tmux_pane: Some("%3".into()),
        tmux_client: Some("/dev/ttys001".into()),
    };
    for done in [false, true] {
        for origin in [
            None,
            Some(Origin::default()),
            Some(Origin { terminal_app: Some("ghostty".into()), ..Default::default() }),
            Some(Origin { pid: Some(123), ..Default::default() }),
            Some(window("42")),
            Some(full.clone()),
        ] {
            let given = origin.is_some();
            let (created, action) = accept(
                &mut state,
                in_session(None, "Task", "Which option?", origin),
                done,
            );
            let polled = state.current().unwrap().clone();
            assert_eq!(polled, created);
            if given {
                assert!(created.origin.is_some());
            }
            assert!(matches!(action, AudioAction::PlayLoop(_)));
        }
    }
}

#[test]
fn invalid_origin_cannot_replace_an_active_notification() {
    let mut state = configured();
    let (original, _) = accept(
        &mut state,
        in_session(
            None,
            "Keep",
            "Original",
            Some(Origin { terminal_app: Some("ghostty".into()), ..Default::default() }),
        ),
        false,
    );
    for origin in [
        Origin { pid: Some(0), ..Default::default() },
        Origin { window_title: Some("\n".into()), ..Default::default() },
        Origin { tmux_pane: Some("%1; kill-server".into()), ..Default::default() },
    ] {
        let error = state
            .notify(in_session(None, "Invalid", "Rejected", Some(origin)), true, true)
            .unwrap_err();
        assert!(matches!(error, NotifyError::InvalidOrigin(_)));
        assert!(error.is_bad_request());
        assert_eq!(state.current().unwrap(), &original);
    }
}

#[test]
fn sessions_update_silence_and_clear_independently() {
    let mut state = configured();
    let mut created = Vec::new();
    let mut actions = Vec::new();
    for (session, done) in [("agent-a", false), ("agent-b", true)] {
        let (n, action) = accept(
            &mut state,
            in_session(Some(session), "Same project", "Update", Some(window(session))),
            done,
        );
        created.push(n);
        actions.push(action);
    }
    let a = created[0].clone();
    let b = created[1].clone();
    assert_eq!(state.list(), &vec![b.clone(), a.clone()]);
    // The newer completion must not interrupt a pending question.
    assert_eq!(loop_name(&actions[0]), Some("await"));
    assert!(matches!(actions[1], AudioAction::Keep));

    // Clearing the non-audible entry cannot silence the pending question.
    let (stopped, action) = state.dismiss(&b.id);
    assert!(stopped);
    assert!(matches!(action, AudioAction::Keep));
    assert_eq!(state.list(), &vec![a.clone()]);

    // Silence keeps the row and its focus origin intact.
    let (stopped, action) = state.silence(&a.id);
    assert!(stopped);
    assert!(matches!(action, AudioAction::StopAll));
    let row = state.list()[0].clone();
    assert!(row.silenced);
    assert_eq!(row.origin, a.origin);

    // Another session and the legacy slot coexist with this silenced row.
    for session in [Some("agent-b"), None] {
        let (_, action) = accept(&mut state, in_session(session, "Done", "Completed", None), true);
        assert_eq!(loop_name(&action), Some("done"));
    }
    assert_eq!(state.list().len(), 3);
    let others = state.list()[..2].to_vec();

    // Updating A re-arms only A, retaining its origin when hints are omitted.
    let (replacement, action) = accept(
        &mut state,
        in_session(Some("agent-a"), "New question", "Which option?", None),
        false,
    );
    assert_eq!(replacement.origin, a.origin);
    assert!(!replacement.silenced);
    assert_ne!(replacement.id, a.id);
    assert_eq!(state.list()[1..], others[..]);
    assert_eq!(loop_name(&action), Some("await"));
    let (stale_dismiss, action) = state.dismiss(&a.id);
    assert!(!stale_dismiss);
    assert!(matches!(action, AudioAction::Keep));
    let (stale_silence, action) = state.silence(&a.id);
    assert!(!stale_silence);
    assert!(matches!(action, AudioAction::Keep));
    // Clearing A resumes an outstanding completion instead of silencing it.
    let (_, action) = state.dismiss(&replacement.id);
    assert_eq!(state.list(), &others);
    assert_eq!(loop_name(&action), Some("done"));
    let action = state.stop();
    assert!(state.list().is_empty());
    assert!(matches!(action, AudioAction::StopAll));
}

#[test]
fn invalid_session_ids_cannot_replace_existing_rows() {
    let mut state = configured();
    let (original, _) = accept(&mut state, in_session(Some("keep"), "Keep", "Original", None), true);
    let long = "x".repeat(257);
    for session in ["", "  ", "bad\nid", long.as_str()] {
        let error = state
            .notify(in_session(Some(session), "Bad", "Rejected", None), false, true)
            .unwrap_err();
        assert_eq!(error, NotifyError::InvalidSessionId);
    }
    assert_eq!(state.list(), &vec![original]);
}

#[test]
fn alert_ids_are_32_lowercase_hex_digits() {
    let mut state = configured();
    let (n, _) = accept(&mut state, request("Question", "Which option?"), false);
    assert_eq!(n.id.len(), 32);
    assert!(n.id.bytes().all(|c| c.is_ascii_digit() || (b'a'..=b'f').contains(&c)));
    let (m, _) = state
        .notify_with_id(request("Question", "Again?"), false, true, 255)
        .unwrap();
    assert_eq!(m.id, "000000000000000000000000000000ff");
}

#[test]
fn pool_lists_the_primary_sound_first() {
    let state = configured();
    assert_eq!(
        state.config.sound_pool(true),
        vec!["sounds/done.wav".to_string(), "sounds/done_2.wav".to_string()]
    );
    let (_, action) = configured()
        .notify(request("Done", "All good"), true, true)
        .unwrap();
    match action {
        AudioAction::PlayLoop(spec) => {
            assert_eq!(spec.pool, vec!["sounds/done.wav".to_string(), "sounds/done_2.wav".to_string()])
        }
        other => panic!("unexpected command: {other:?}"),
    }
}

#[test]
fn error_messages_match_the_service_answers() {
    assert_eq!(
        NotifyError::InvalidSessionId.message(),
        "session_id must be nonblank, at most 256 bytes, and contain no control characters\n"
    );
    assert_eq!(
        NotifyError::InvalidText.message(),
        "title must be 1–200 characters; message must be 1–4000 characters\n"
    );
    assert_eq!(
        NotifyError::SoundNotConfigured.message(),
        "notification sound is not configured\n"
    );
}

#[test]
fn title_and_message_limits_count_characters() {
    let mut state = configured();
    // 200 multi-byte characters fit; the limit is on characters, not bytes.
    assert!(state.notify(request(&"✓".repeat(200), "m"), true, true).is_ok());
    assert!(state.notify(request("t", &"é".repeat(4000)), true, true).is_ok());
    assert_eq!(
        state.notify(request(&"✓".repeat(201), "m"), true, true).unwrap_err(),
        NotifyError::InvalidText
    );
}

#[test]
fn session_ids_are_limited_in_bytes() {
    let mut state = configured();
    let fits = "é".repeat(128);
    assert!(state.notify(in_session(Some(&fits), "t", "m", None), true, true).is_ok());
    let over = "é".repeat(129);
    assert_eq!(
        state
            .notify(in_session(Some(&over), "t", "m", None), true, true)
            .unwrap_err(),
        NotifyError::InvalidSessionId
    );
}

#[test]
fn desktop_reports_are_recorded() {
    let mut state = configured();
    assert!(!state.notifications.desktop_connected());
    let mut status = desktop_notify::notification::DesktopStatus::default();
    status.presentation = "tauri".into();
    status.window_visible = true;
    let now = std::time::Instant::now();
    state.record_desktop_status(status, now);
    assert_eq!(state.notifications.desktop_seen, Some(now));
    assert_eq!(state.notifications.desktop.presentation, "tauri");
    assert!(state.notifications.desktop_connected());
    assert!(connected_within(14));
    assert!(!connected_within(15));
}

#[test]
fn launch_points_the_tray_app_at_the_service() {
    assert_eq!(service_url(false, 43110), "http://127.0.0.1:43110");
    assert_eq!(service_url(true, 8), "http://[::1]:8");
    assert_eq!(service_url(false, 0), "http://127.0.0.1:0");
    assert_eq!(
        desktop_launch_args("/Apps/Desktop Notify.app", false, 43110),
        vec!["-g", "/Apps/Desktop Notify.app", "--args", "--server-url", "http://127.0.0.1:43110"]
    );
    let h = health(77);
    assert_eq!(h.service, "desktop-notify");
    assert_eq!(h.api_version, 3);
    assert_eq!(h.pid, 77);
}
