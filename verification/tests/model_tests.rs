use desktop_notify::model::{visibility_change, VisibilityChange};

#[test]
fn new_and_replacement_alerts_open_the_window() {
    assert_eq!(visibility_change(&[], &["a"]), VisibilityChange::Show);
    assert_eq!(
        visibility_change(&["a"], &["b", "a"]),
        VisibilityChange::Show
    );
    assert_eq!(
        visibility_change(&["a", "b"], &["c", "b"]),
        VisibilityChange::Show
    );
}

#[test]
fn unchanged_or_reordered_alerts_preserve_visibility() {
    assert_eq!(visibility_change(&["a"], &["a"]), VisibilityChange::Keep);
    assert_eq!(
        visibility_change(&["a", "b"], &["b", "a"]),
        VisibilityChange::Keep
    );
}

#[test]
fn removing_one_row_keeps_the_other_visible() {
    assert_eq!(
        visibility_change(&["a", "b"], &["b"]),
        VisibilityChange::Keep
    );
    assert_eq!(visibility_change(&["a"], &[]), VisibilityChange::Hide);
    assert_eq!(visibility_change(&[], &[]), VisibilityChange::Keep);
}
