use desktop_notify::model::{
    check_service, checked_service_from_args, dismiss_url, dismissal_reply, next_tick, poll_interval, poll_step,
    service_from_args, service_is_local, show_when_ready, tray_tooltip, unreachable_message,
    DismissFailure, ServiceError, Snapshot, VisibilityChange,
};
use desktop_notify::notification::Notification;

fn alert(id: &str, title: &str) -> Notification {
    Notification {
        id: id.into(),
        session_id: None,
        silenced: false,
        kind: "awaiting_user_input".into(),
        title: title.into(),
        message: "m".into(),
        origin: None,
    }
}

#[test]
fn a_poll_with_a_new_alert_shows_the_window_and_reports() {
    let previous = Snapshot::default();
    let outcome = poll_step(&previous, Some(vec![alert("a", "Question")]), 3);
    assert_eq!(outcome.change, VisibilityChange::Show);
    assert!(outcome.changed);
    assert!(outcome.report);
    assert!(outcome.snapshot.connected);
    assert_eq!(outcome.snapshot.error, None);
    assert_eq!(outcome.snapshot.notifications, vec![alert("a", "Question")]);
}

#[test]
fn an_unchanged_poll_reports_only_every_tenth_time() {
    let previous = poll_step(&Snapshot::default(), Some(vec![alert("a", "Q")]), 0).snapshot;
    let same = poll_step(&previous, Some(vec![alert("a", "Q")]), 7);
    assert!(!same.changed);
    assert!(!same.report);
    assert_eq!(same.change, VisibilityChange::Keep);
    let tenth = poll_step(&previous, Some(vec![alert("a", "Q")]), 20);
    assert!(tenth.report);
}

#[test]
fn an_unreachable_service_keeps_the_alerts_on_screen() {
    let previous = poll_step(&Snapshot::default(), Some(vec![alert("a", "Q")]), 0).snapshot;
    let outcome = poll_step(&previous, None, 1);
    assert!(!outcome.snapshot.connected);
    assert_eq!(
        outcome.snapshot.error.as_deref(),
        Some("Waiting for the notification service…")
    );
    assert_eq!(outcome.snapshot.notifications, previous.notifications);
    assert_eq!(outcome.change, VisibilityChange::Keep);
    assert!(outcome.changed);
}

#[test]
fn clearing_the_last_alert_hides_the_window() {
    let previous = poll_step(&Snapshot::default(), Some(vec![alert("a", "Q")]), 0).snapshot;
    let outcome = poll_step(&previous, Some(Vec::new()), 1);
    assert_eq!(outcome.change, VisibilityChange::Hide);
    assert!(!show_when_ready(&outcome.snapshot));
    assert!(show_when_ready(&previous));
}

#[test]
fn tooltip_names_the_latest_alert() {
    let snapshot = poll_step(
        &Snapshot::default(),
        Some(vec![alert("b", "Login fix"), alert("a", "Older")]),
        0,
    )
    .snapshot;
    assert_eq!(tray_tooltip(&snapshot), "Desktop Notify — Login fix");
    assert_eq!(tray_tooltip(&Snapshot::default()), "Desktop Notify — All caught up");
}

#[test]
fn ticks_wrap_round() {
    assert_eq!(next_tick(0), 1);
    assert_eq!(next_tick(u32::MAX), 0);
}

#[test]
fn only_hex_ids_reach_the_dismiss_url() {
    let id = "0123456789abcdef0123456789ABCDEF";
    assert_eq!(
        dismiss_url("http://127.0.0.1:43110", id).unwrap(),
        "http://127.0.0.1:43110/dismiss/0123456789abcdef0123456789ABCDEF"
    );
    assert_eq!(dismiss_url("http://x", "../stop").unwrap_err(), "Invalid notification ID");
    assert!(dismiss_url("http://x", "0123456789abcdef0123456789abcdeg").is_err());
    assert!(dismiss_url("http://x", "abc").is_err());
}

#[test]
fn service_address_comes_from_the_arguments() {
    let args: Vec<String> = vec!["app".into(), "--server-url".into(), "http://[::1]:9000//".into()];
    assert_eq!(service_from_args(&args), "http://[::1]:9000");
    let none: Vec<String> = vec!["app".into(), "--server-url".into()];
    assert_eq!(service_from_args(&none), "http://127.0.0.1:43110");
}

#[test]
fn the_service_is_polled_every_400_ms() {
    assert_eq!(poll_interval(), 400);
}

#[test]
fn a_dismissal_succeeds_unless_the_service_refuses_or_is_silent() {
    assert_eq!(dismissal_reply(Some(200)), Ok(()));
    assert_eq!(dismissal_reply(Some(204)), Ok(()));
    assert_eq!(dismissal_reply(Some(404)), Err(DismissFailure::Status(404)));
    assert_eq!(dismissal_reply(Some(503)), Err(DismissFailure::Status(503)));
    assert_eq!(dismissal_reply(None), Err(DismissFailure::Unreachable));
    assert_eq!(unreachable_message(), "Cannot reach the notification service. Please try again.");
}

#[test]
fn only_the_local_service_over_http_is_used() {
    assert!(service_is_local("http", Some("127.0.0.1")));
    assert!(service_is_local("http", Some("[::1]")));
    assert!(!service_is_local("https", Some("localhost")));
    assert!(!service_is_local("http", None));
    assert_eq!(check_service("http://localhost:43110/"), Ok(()));
    assert_eq!(check_service("http://[::1]:8"), Ok(()));
    assert_eq!(check_service("http://example.com:43110"), Err(ServiceError::NotLocal));
    assert_eq!(check_service("https://127.0.0.1:43110"), Err(ServiceError::NotLocal));
    assert_eq!(check_service("not a url"), Err(ServiceError::Invalid));
    assert_eq!(ServiceError::NotLocal.message(), "notification service must use local HTTP");
}

#[test]
fn the_app_starts_only_with_a_local_service() {
    let args = |v: &[&str]| v.iter().map(|s| s.to_string()).collect::<Vec<String>>();
    assert_eq!(
        checked_service_from_args(&args(&["app", "--server-url", "http://localhost:9/"])),
        Ok("http://localhost:9".to_string())
    );
    assert_eq!(checked_service_from_args(&args(&["app"])), Ok("http://127.0.0.1:43110".to_string()));
    assert_eq!(
        checked_service_from_args(&args(&["app", "--server-url", "https://example.com"])),
        Err(ServiceError::NotLocal)
    );
    assert_eq!(
        checked_service_from_args(&args(&["app", "--server-url", "::"])),
        Err(ServiceError::Invalid)
    );
}
