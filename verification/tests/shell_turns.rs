use codex_gui_ui::shell::Effect;
use codex_gui_ui::shell::McpLogin;
use codex_gui_ui::shell::Shell;
use codex_gui_ui::shell::TokenUsage;
use codex_gui_ui::shell_turns::ResumedThread;
use codex_gui_ui::shell_turns::ThreadStarted;
use codex_gui_ui::state::Status;

/// A connected shell on a ready live thread.
fn ready_shell(thread_id: &str) -> Shell {
    let mut shell = Shell::new();
    shell.session.connected = true;
    shell.session.thread_id = Some(thread_id.to_string());
    shell.session.status = Status::Ready;
    shell
}

#[test]
fn reconnect_resets_runtime_state_and_bumps_the_epoch() {
    let mut shell = Shell::new();
    shell.session.status = Status::Disconnected(String::from("exit code 1"));
    shell.session.codex_home = Some(String::from("/tmp/codex-home"));
    shell.session.active_turn = Some(String::from("turn-1"));
    shell.panels.mcp_loaded = true;
    shell.mcp_login = Some(McpLogin {
        name: String::from("filesystem"),
        url: String::from("https://mcp.example/auth"),
    });

    let effects = shell.reconnect();

    assert_eq!(shell.session.connection_epoch, 1);
    assert_eq!(shell.session.status, Status::Bootstrapping);
    assert!(!shell.session.connected);
    assert!(shell.session.thread_id.is_none());
    assert!(shell.session.codex_home.is_none(), "the skills root is dropped");
    assert!(shell.session.active_turn.is_none(), "the live turn is dropped");
    assert!(!shell.panels.mcp_loaded);
    assert!(shell.mcp_login.is_none(), "the sign-in banner of the dead connection goes");
    // The transcript, approvals, mentions and MCP inventory go with the
    // backend-owned panes.
    assert_eq!(effects, vec![Effect::ResetBackend]);
}

#[test]
fn failed_turn_start_hands_the_prompt_back_and_raises_the_banner() {
    let mut shell = Shell::new();
    shell.session.status = Status::Thinking;

    let effects = shell.turn_settled(String::from("hello"), Vec::new(), Err(String::from("not logged in")));

    assert_eq!(shell.session.composer, "hello");
    assert_eq!(shell.session.status, Status::Ready);
    match &effects[..] {
        [Effect::RaiseBanner(text)] => assert!(text.contains("not logged in")),
        other => panic!("expected the banner, got {other:?}"),
    }
}

#[test]
fn failed_turn_start_hands_the_attachments_back() {
    let mut shell = Shell::new();
    shell.session.status = Status::Thinking;

    let _ = shell.turn_settled(
        String::from("look at this"),
        vec![String::from("/tmp/shot.png")],
        Err(String::from("denied")),
    );

    assert_eq!(shell.session.composer, "look at this");
    assert_eq!(shell.attachments.images, vec![String::from("/tmp/shot.png")]);
}

#[test]
fn a_started_turn_settles_without_changes() {
    let mut shell = ready_shell("t1");
    shell.session.status = Status::Thinking;

    let effects = shell.turn_settled(String::from("hi"), Vec::new(), Ok(()));

    assert!(effects.is_empty());
    assert_eq!(shell.session.status, Status::Thinking);
    assert!(shell.session.composer.is_empty());
}

#[test]
fn submitting_sends_the_text_and_images_as_one_turn() {
    let mut shell = ready_shell("t1");
    shell.session.composer = String::from("look at this");
    shell.attachments.images = vec![String::from("/tmp/shot.png")];

    let effects = shell.submit(false);

    assert_eq!(
        effects,
        vec![
            Effect::StartTurn {
                prompt: String::from("look at this"),
                images: vec![String::from("/tmp/shot.png")],
            },
            Effect::FocusComposer,
        ],
    );
    assert!(shell.session.composer.is_empty());
    assert!(shell.attachments.images.is_empty());
    assert_eq!(shell.session.status, Status::Thinking);
}

#[test]
fn submit_with_the_mention_popup_open_inserts_the_pick() {
    let mut shell = ready_shell("t1");
    shell.session.composer = String::from("look at @lib");

    let effects = shell.submit(true);

    assert_eq!(effects, vec![Effect::InsertMention, Effect::FocusComposer]);
    assert_eq!(shell.session.composer, "look at @lib");
}

#[test]
fn slash_submit_is_gated_on_a_live_session() {
    let mut shell = Shell::new();
    shell.session.thread_id = Some(String::from("thread-1"));
    shell.session.status = Status::Ready;
    shell.session.composer = String::from("/review");

    // Without a client the live-session gate rejects the command and the
    // typed text stays in the composer for a retry.
    let effects = shell.submit(false);
    assert_eq!(effects, vec![Effect::FocusComposer]);
    assert_eq!(shell.session.composer, "/review");
    assert_eq!(shell.session.status, Status::Ready);

    // A picked slash row goes through the same gate.
    let _ = shell.slash_picked(String::from("/compact"), false);
    assert_eq!(shell.session.composer, "/compact");
}

#[test]
fn a_slash_command_on_a_live_session_runs_and_clears_the_composer() {
    let mut shell = ready_shell("t1");

    let effects = shell.slash_picked(String::from("/compact"), false);

    assert_eq!(effects, vec![Effect::CompactThread, Effect::FocusComposer]);
    assert!(shell.session.composer.is_empty());

    shell.session.composer = String::from("  /review ");
    let effects = shell.submit(false);
    assert_eq!(effects, vec![Effect::StartReview, Effect::FocusComposer]);
}

#[test]
fn composer_cleared_empties_the_buffer() {
    let mut shell = Shell::new();
    shell.session.composer = String::from("draft text");

    let effects = shell.composer_cleared();

    assert!(shell.session.composer.is_empty());
    assert_eq!(effects, vec![Effect::CloseMentions]);
}

#[test]
fn composer_changes_refresh_the_mention_popup() {
    let mut shell = Shell::new();

    let effects = shell.composer_changed(String::from("@lib"));

    assert_eq!(shell.session.composer, "@lib");
    assert_eq!(effects, vec![Effect::RefreshMentions]);
}

#[test]
fn thread_started_records_the_binding() {
    let mut shell = Shell::new();

    let effects = shell.thread_started(Ok(ThreadStarted {
        thread_id: Some(String::from("thread-1")),
        model_provider: Some(String::from("deepseek")),
        model: Some(String::from("deepseek-flash")),
        cwd: Some(String::from("/tmp")),
    }));

    assert_eq!(shell.session.thread_id.as_deref(), Some("thread-1"));
    assert_eq!(
        shell.session.active_binding,
        Some((String::from("deepseek"), String::from("deepseek-flash"))),
    );
    assert_eq!(shell.session.status, Status::Ready);
    assert_eq!(effects, vec![Effect::ConfirmCwd(String::from("/tmp"))]);
}

#[test]
fn a_failed_thread_start_disconnects() {
    let mut shell = Shell::new();

    let effects = shell.thread_started(Err(String::from("spawn failed")));

    assert!(effects.is_empty());
    assert_eq!(shell.session.status, Status::Disconnected(String::from("spawn failed")));
}

#[test]
fn session_resumed_records_the_binding_and_status_model() {
    let mut shell = Shell::new();

    let effects = shell.session_resumed(Ok(ResumedThread {
        thread_id: String::from("thread-2"),
        model_provider: String::from("glm"),
        model: String::from("glm-5.3"),
        cwd: String::from("/tmp"),
    }));

    assert_eq!(
        shell.session.active_binding,
        Some((String::from("glm"), String::from("glm-5.3"))),
    );
    assert_eq!(shell.session.thread_id.as_deref(), Some("thread-2"));
    assert_eq!(shell.session.status, Status::Ready);
    assert_eq!(
        effects,
        vec![
            Effect::SyncStatusModel(String::from("glm-5.3")),
            Effect::ConfirmCwd(String::from("/tmp")),
            Effect::ReplayHistory,
            Effect::LoadSessions,
        ],
    );
}

#[test]
fn a_fresh_connection_runs_the_handshake_then_the_bootstrap() {
    let mut shell = Shell::new();

    assert_eq!(shell.connected(), vec![Effect::Initialize]);
    assert!(shell.session.connected);

    let effects = shell.initialized(Ok(None));
    assert_eq!(
        effects,
        vec![
            Effect::StartThread(None),
            Effect::LoadSessions,
            Effect::LoadModels,
            Effect::LoadAccount,
            Effect::LoadConfig,
            Effect::LoadSkills,
        ],
    );

    let effects = shell.initialized(Err(String::from("handshake refused")));
    assert!(effects.is_empty());
    assert_eq!(shell.session.status, Status::Disconnected(String::from("handshake refused")));
}

#[test]
fn bootstrap_extracts_the_codex_home_for_skill_mutations() {
    let mut shell = Shell::new();
    assert!(shell.session.codex_home.is_none());

    let reply: serde_json::Value = serde_json::from_str(
        r#"{"userAgent": "mock", "codexHome": "/tmp/codex-home", "platformFamily": "unix", "platformOs": "linux"}"#,
    )
    .expect("a JSON reply");
    let home = reply["codexHome"].as_str().map(ToString::to_string);
    let _ = shell.initialized(Ok(home));

    assert_eq!(shell.session.codex_home, Some(String::from("/tmp/codex-home")));
}

#[test]
fn skill_mutations_wait_for_the_codex_home() {
    let mut shell = Shell::new();
    assert_eq!(
        shell.skills_home(),
        Err(String::from("app-server 尚未返回 codexHome，等待连接完成后再试")),
    );

    let _ = shell.initialized(Ok(Some(String::from("/tmp/codex-home"))));
    assert_eq!(shell.skills_home(), Ok(String::from("/tmp/codex-home")));

    let _ = shell.reconnect();
    assert!(shell.skills_home().is_err(), "a relaunch forgets the root until the next handshake");
}

#[test]
fn token_usage_notification_lands_on_the_current_thread() {
    let mut shell = Shell::new();
    shell.session.thread_id = Some(String::from("thread-1"));

    shell.token_usage_updated(
        "thread-1",
        TokenUsage { total_tokens: 12_400, model_context_window: Some(272_000) },
    );

    let usage = shell.session.token_usage.expect("usage stored");
    assert_eq!(usage.total_tokens, 12_400);
    assert_eq!(usage.model_context_window, Some(272_000));
}

#[test]
fn token_usage_notification_from_other_threads_is_ignored() {
    let mut shell = Shell::new();
    shell.session.thread_id = Some(String::from("thread-1"));

    shell.token_usage_updated("thread-2", TokenUsage { total_tokens: 1, model_context_window: None });

    assert!(shell.session.token_usage.is_none());
}

#[test]
fn turn_diff_notification_lands_on_the_current_thread() {
    let mut shell = Shell::new();
    shell.session.thread_id = Some(String::from("thread-1"));

    shell.turn_diff_updated("thread-1", String::from("diff --git a/x b/x\n+line\n"));
    assert_eq!(shell.session.turn_diff.as_deref(), Some("diff --git a/x b/x\n+line\n"));

    // A stale turn's diff must not overwrite the live one.
    shell.turn_diff_updated("thread-2", String::from("stale"));
    assert_eq!(shell.session.turn_diff.as_deref(), Some("diff --git a/x b/x\n+line\n"));
}

#[test]
fn turn_completed_reopens_the_composer_on_the_live_thread() {
    let mut shell = Shell::new();
    shell.session.thread_id = Some(String::from("t1"));
    shell.session.status = Status::Thinking;
    shell.session.composer = String::from("still typed text");

    shell.turn_completed("t1", false);

    assert_eq!(shell.session.status, Status::Ready);
    assert_eq!(shell.session.composer, "still typed text");
}

#[test]
fn turn_completed_on_other_threads_leaves_the_status_alone() {
    let mut shell = Shell::new();
    shell.session.thread_id = Some(String::from("t1"));
    shell.session.status = Status::Thinking;

    shell.turn_completed("other", false);

    assert_eq!(shell.session.status, Status::Thinking);
}

#[test]
fn turn_started_tracks_the_live_turn_for_the_stop_button() {
    let mut shell = Shell::new();
    shell.session.thread_id = Some(String::from("thread-1"));
    shell.session.status = Status::Thinking;

    shell.turn_started("thread-1", String::from("turn-1"));
    assert_eq!(shell.session.active_turn.as_deref(), Some("turn-1"));

    // A foreign thread's turn must not hijack the stop button.
    shell.turn_started("thread-2", String::from("turn-9"));
    assert_eq!(shell.session.active_turn.as_deref(), Some("turn-1"));

    // A still-running completion notice leaves the turn live.
    shell.turn_completed("thread-1", true);
    assert_eq!(shell.session.active_turn.as_deref(), Some("turn-1"));
    assert_eq!(shell.session.status, Status::Thinking);

    // A terminal completion clears it and reopens the composer.
    shell.turn_completed("thread-1", false);
    assert!(shell.session.active_turn.is_none());
    assert_eq!(shell.session.status, Status::Ready);
}

#[test]
fn turn_interrupt_failure_raises_the_banner() {
    let mut shell = Shell::new();

    let effects = shell.turn_interrupted(Err(String::from("no active turn")));

    match &effects[..] {
        [Effect::RaiseBanner(text)] => assert!(text.contains("turn interrupt failed")),
        other => panic!("expected the banner, got {other:?}"),
    }
    assert!(shell.turn_interrupted(Ok(())).is_empty());
}

#[test]
fn the_stop_button_interrupts_and_refocuses() {
    let mut shell = ready_shell("t1");

    assert_eq!(
        shell.turn_interrupt_requested(),
        vec![Effect::InterruptTurn, Effect::FocusComposer],
    );
}

#[test]
fn review_and_compaction_starts_drive_status_and_banners() {
    let mut shell = Shell::new();

    let _ = shell.review_started(Ok(()));
    assert_eq!(shell.session.status, Status::Thinking);

    let effects = shell.review_started(Err(String::from("channel closed")));
    match &effects[..] {
        [Effect::RaiseBanner(text)] => assert!(text.contains("review failed to start")),
        other => panic!("expected the banner, got {other:?}"),
    }

    let _ = shell.compaction_started(Ok(()));
    assert_eq!(shell.session.status, Status::Thinking);

    let effects = shell.compaction_started(Err(String::from("channel closed")));
    match &effects[..] {
        [Effect::RaiseBanner(text)] => assert!(text.contains("compaction failed to start")),
        other => panic!("expected the banner, got {other:?}"),
    }
}

#[test]
fn a_lost_connection_shows_its_reason() {
    let mut shell = ready_shell("t1");

    shell.disconnected(String::from("exit code 1"));

    assert_eq!(shell.session.status, Status::Disconnected(String::from("exit code 1")));
}
