use codex_gui_ui::shell::Effect;
use codex_gui_ui::shell::McpLogin;
use codex_gui_ui::shell::Shell;

#[test]
fn archived_partition_loads_and_reacts_to_notifications() {
    let mut shell = Shell::new();

    let effects = shell.archived_toggled();
    assert!(shell.panels.archived_open);
    assert_eq!(effects, vec![Effect::LoadArchivedSessions]);

    shell.archived_sessions_settled();
    assert!(shell.panels.archived_loaded);

    // Archiving drops the row from the live partition (and refreshes the
    // expanded archived one); unarchiving drops it from the archived one.
    assert_eq!(
        shell.thread_archived_notified(String::from("t-1")),
        vec![Effect::RemoveSessionRow(String::from("t-1")), Effect::LoadArchivedSessions],
    );
    assert_eq!(
        shell.thread_unarchived_notified(String::from("archived-1"), false),
        vec![Effect::RemoveArchivedRow(String::from("archived-1")), Effect::LoadSessions],
    );
    assert_eq!(
        shell.thread_unarchived_notified(String::from("archived-2"), true),
        vec![Effect::RemoveArchivedRow(String::from("archived-2"))],
    );

    // A collapsed section does not reload; a reopened loaded one does not
    // load again.
    let _ = shell.archived_toggled();
    assert_eq!(
        shell.thread_archived_notified(String::from("t-2")),
        vec![Effect::RemoveSessionRow(String::from("t-2"))],
    );
    assert!(shell.archived_toggled().is_empty());
}

#[test]
fn sidebar_archive_and_restore_reload_the_lists() {
    let shell = Shell::new();

    assert_eq!(
        shell.session_archived(String::from("t-1")),
        vec![Effect::ArchiveThread(String::from("t-1")), Effect::LoadSessions],
    );
    assert_eq!(
        shell.session_unarchived(String::from("t-1")),
        vec![
            Effect::UnarchiveThread(String::from("t-1")),
            Effect::LoadSessions,
            Effect::LoadArchivedSessions,
        ],
    );
    assert_eq!(
        shell.thread_deleted_notified(String::from("gone")),
        vec![Effect::RemoveSessionRow(String::from("gone"))],
    );
}

#[test]
fn mcp_login_banner_tracks_the_completion_notification() {
    let mut shell = Shell::new();

    let effects = shell.mcp_login_started(
        String::from("filesystem"),
        Ok(String::from("https://mcp.example/auth")),
    );
    let login = shell.mcp_login.as_ref().expect("banner is up");
    assert_eq!(login.url, "https://mcp.example/auth");
    assert_eq!(
        effects,
        vec![Effect::SettingsNotice(String::from("open the sign-in link to connect filesystem"))],
    );

    // The completion for the matching server clears the banner.
    let effects = shell.mcp_login_completed(String::from("filesystem"), true, None, false);
    assert!(shell.mcp_login.is_none());
    assert_eq!(effects, vec![Effect::SettingsNotice(String::from("filesystem signed in"))]);

    // A dismissal clears the banner without any notification.
    let _ = shell.mcp_login_started(String::from("other"), Ok(String::from("https://mcp.example/other")));
    shell.mcp_login_dismissed();
    assert!(shell.mcp_login.is_none());
}

#[test]
fn another_servers_completion_keeps_the_banner() {
    let mut shell = Shell::new();
    shell.mcp_login = Some(McpLogin {
        name: String::from("filesystem"),
        url: String::from("https://mcp.example/auth"),
    });

    let effects = shell.mcp_login_completed(String::from("github"), false, None, true);

    assert!(shell.mcp_login.is_some());
    assert_eq!(
        effects,
        vec![
            Effect::SettingsNotice(String::from("sign-in for github failed: unknown error")),
            Effect::LoadMcpServers,
        ],
    );
}

#[test]
fn the_sign_in_link_copies_only_while_the_banner_is_up() {
    let mut shell = Shell::new();
    assert!(shell.mcp_login_link_copied().is_empty());

    let _ = shell.mcp_login_started(String::from("fs"), Ok(String::from("https://x/auth")));
    assert_eq!(
        shell.mcp_login_link_copied(),
        vec![
            Effect::SettingsNotice(String::from("sign-in link for fs copied")),
            Effect::CopyToClipboard(String::from("https://x/auth")),
        ],
    );

    let effects = shell.mcp_login_started(String::from("gh"), Err(String::from("denied")));
    assert_eq!(effects, vec![Effect::SettingsNotice(String::from("sign-in for gh failed: denied"))]);
    assert_eq!(
        shell.mcp_login_requested(String::from("gh")),
        vec![
            Effect::SettingsNotice(String::from("requesting sign-in link for gh…")),
            Effect::StartMcpLogin(String::from("gh")),
        ],
    );
}

#[test]
fn mcp_inventory_lands_in_the_settings_panel() {
    let mut shell = Shell::new();
    assert!(!shell.panels.mcp_loaded);

    shell.mcp_servers_settled();
    assert!(shell.panels.mcp_loaded);

    // A failed refresh settles the loading state as well.
    shell.mcp_servers_settled();
    assert!(shell.panels.mcp_loaded);
    assert_eq!(shell.mcp_status_updated(true), vec![Effect::LoadMcpServers]);
    assert!(shell.mcp_status_updated(false).is_empty());
}

#[test]
fn thread_deleted_notification_drops_the_row() {
    let shell = Shell::new();

    assert_eq!(
        shell.thread_deleted_notified(String::from("thread-1")),
        vec![Effect::RemoveSessionRow(String::from("thread-1"))],
    );
}
