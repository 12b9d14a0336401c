use codex_gui_ui::routing::NotificationClass;
use codex_gui_ui::routing::Route;
use codex_gui_ui::shell::Shell;

#[test]
fn draft_thread_traffic_is_diverted_to_the_draft() {
    let mut shell = Shell::new();
    shell.git_overlay.draft_thread = Some(String::from("draft-t"));

    assert_eq!(shell.route_notification(NotificationClass::Other, Some("draft-t")), Route::DraftThread);
    assert_eq!(shell.route_notification(NotificationClass::Other, Some("thread-1")), Route::Main);
    assert_eq!(shell.route_notification(NotificationClass::Other, None), Route::Main);
}

#[test]
fn skills_invalidation_and_resolved_requests_short_circuit() {
    let mut shell = Shell::new();
    shell.git_overlay.draft_thread = Some(String::from("draft-t"));

    assert_eq!(shell.route_notification(NotificationClass::SkillsChanged, None), Route::RefreshSkills);
    assert_eq!(
        shell.route_notification(NotificationClass::RequestResolved, None),
        Route::ResolveRequest,
    );
}

#[test]
fn without_a_draft_nothing_is_diverted() {
    let shell = Shell::new();

    assert_eq!(shell.route_notification(NotificationClass::Other, Some("draft-t")), Route::Main);
}
