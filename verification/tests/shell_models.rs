use codex_gui_ui::shell::Effect;
use codex_gui_ui::shell::PendingModelApply;
use codex_gui_ui::shell::Shell;
use codex_gui_ui::shell_models::saved_panel_model_setup;
use codex_gui_ui::state::Status;

/// A shell on a live thread bound to `(provider, model)`.
fn live_shell(thread_id: &str, provider: &str, model: &str) -> Shell {
    let mut shell = Shell::new();
    shell.session.connected = true;
    shell.session.thread_id = Some(thread_id.to_string());
    shell.session.status = Status::Ready;
    shell.session.active_binding = Some((provider.to_string(), model.to_string()));
    shell
}

fn notice(text: &str) -> Effect {
    Effect::SettingsNotice(text.to_string())
}

#[test]
fn saving_model_setup_reopens_the_thread() {
    let mut shell = Shell::new();
    shell.session.thread_id = Some(String::from("stale"));
    // The provider form switched to the deepseek preset and set its key.
    let edits = vec![
        (String::from("model_provider"), Some(String::from("deepseek"))),
        (String::from("model"), Some(String::from("deepseek-flash"))),
        (String::from("model_providers.deepseek.api_key"), Some(String::from("sk-test"))),
    ];

    let effects = shell.settings_saved(Ok(()), true, "", "", &edits, true);

    // The stale thread is dropped and a fresh one requested.
    assert!(shell.session.thread_id.is_none());
    assert_eq!(shell.session.status, Status::Bootstrapping);
    assert_eq!(
        effects,
        vec![
            Effect::LoadConfig,
            notice("Saved; fresh session started with the new model setup"),
            Effect::ResetConversation,
            Effect::StartThread(None),
        ],
    );
}

#[test]
fn panel_model_edit_flips_the_running_thread_in_place() {
    let mut shell = live_shell("live", "glm", "glm-5.3");
    let edits = vec![(String::from("model"), Some(String::from("glm-5.3-flashx")))];

    let effects = shell.settings_saved(Ok(()), true, "glm", "glm-5.3", &edits, false);

    // Same vendor: the panel edit flips the model without touching the
    // conversation.
    assert_eq!(shell.session.thread_id.as_deref(), Some("live"));
    assert_eq!(
        effects,
        vec![
            Effect::LoadConfig,
            notice("Model switched to glm-5.3-flashx"),
            Effect::ApplyModelInPlace {
                thread_id: String::from("live"),
                model: String::from("glm-5.3-flashx"),
            },
        ],
    );
}

#[test]
fn panel_provider_key_rewrite_forks_the_conversation() {
    let mut shell = live_shell("live", "glm", "glm-5.3");
    let edits = vec![(String::from("model_providers.glm.api_key"), Some(String::from("sk-new")))];

    let effects = shell.settings_saved(Ok(()), true, "glm", "glm-5.3", &edits, false);

    // Only the key changed, but a running thread pins its provider
    // snapshot: the fork re-applies the table with the history aboard.
    assert_eq!(shell.session.thread_id.as_deref(), Some("live"));
    assert_eq!(
        effects,
        vec![
            Effect::LoadConfig,
            notice("Saved; conversation moved to glm-5.3"),
            Effect::ForkThreadWithModel {
                thread_id: String::from("live"),
                provider_id: String::from("glm"),
                model: String::from("glm-5.3"),
            },
        ],
    );
}

#[test]
fn picking_a_vendor_model_reopens_the_thread_on_the_new_setup() {
    let mut shell = Shell::new();
    shell.session.thread_id = Some(String::from("stale"));

    let effects = shell.vendor_model_picked(
        String::from("glm"),
        String::from("glm-5-turbo"),
        Some("glm"),
        Some("glm-5.3"),
    );
    assert!(shell.session.model_switch_pending);
    assert!(!shell.panels.model_menu_open);
    assert_eq!(
        effects,
        vec![Effect::SelectVendorModel {
            provider_id: String::from("glm"),
            model: String::from("glm-5-turbo"),
        }],
    );

    let effects = shell.settings_saved(Ok(()), false, "glm", "glm-5-turbo", &[], true);

    // The pick only applies to a thread started afterwards.
    assert!(shell.session.thread_id.is_none());
    assert_eq!(shell.session.status, Status::Bootstrapping);
    assert!(!shell.session.model_switch_pending);
    assert_eq!(effects[1], notice("Saved; fresh session started with the new model setup"));
}

#[test]
fn re_picking_the_live_vendor_model_leaves_the_thread_alone() {
    let mut shell = Shell::new();
    shell.session.thread_id = Some(String::from("live"));

    let effects = shell.vendor_model_picked(
        String::from("glm"),
        String::from("glm-5.3"),
        Some("glm"),
        Some("glm-5.3"),
    );

    assert!(effects.is_empty());
    assert!(!shell.session.model_switch_pending);
    assert_eq!(shell.session.thread_id.as_deref(), Some("live"));
}

#[test]
fn failed_vendor_switch_save_clears_the_pending_flag() {
    let mut shell = Shell::new();
    shell.session.thread_id = Some(String::from("live"));
    let _ = shell.vendor_model_picked(String::from("glm"), String::from("glm-5-turbo"), None, None);
    assert!(shell.session.model_switch_pending);

    let effects = shell.settings_saved(Err(String::from("closed")), false, "", "", &[], true);

    assert!(effects.is_empty());
    assert!(!shell.session.model_switch_pending);
    assert!(shell.session.pending_model_apply.is_none());
    assert_eq!(shell.session.thread_id.as_deref(), Some("live"));
}

#[test]
fn same_vendor_pick_flips_the_model_in_place() {
    let mut shell = live_shell("live", "glm", "glm-5.3");

    let _ = shell.vendor_model_picked(
        String::from("glm"),
        String::from("glm-5.3-flashx"),
        Some("glm"),
        Some("glm-5.3"),
    );
    assert_eq!(
        shell.session.pending_model_apply,
        Some(PendingModelApply::InPlace {
            thread_id: String::from("live"),
            model: String::from("glm-5.3-flashx"),
        }),
    );

    let effects = shell.settings_saved(Ok(()), false, "glm", "glm-5.3-flashx", &[], false);

    // The running thread keeps its conversation; the switch goes through
    // the in-place settings update instead of a restart.
    assert_eq!(shell.session.thread_id.as_deref(), Some("live"));
    assert_eq!(shell.session.status, Status::Ready);
    assert!(!shell.session.model_switch_pending);
    assert!(shell.session.pending_model_apply.is_none());
    assert_eq!(
        effects,
        vec![
            Effect::LoadConfig,
            notice("Model switched to glm-5.3-flashx"),
            Effect::ApplyModelInPlace {
                thread_id: String::from("live"),
                model: String::from("glm-5.3-flashx"),
            },
        ],
    );
}

#[test]
fn picking_another_vendor_without_history_reopens_the_thread() {
    let mut shell = live_shell("live", "glm", "glm-5.3");

    let _ = shell.vendor_model_picked(
        String::from("deepseek"),
        String::from("deepseek-flash"),
        Some("glm"),
        Some("glm-5.3"),
    );
    assert_eq!(
        shell.session.pending_model_apply,
        Some(PendingModelApply::Retarget {
            provider_id: String::from("deepseek"),
            model: String::from("deepseek-flash"),
        }),
    );

    let effects = shell.settings_saved(Ok(()), false, "deepseek", "deepseek-flash", &[], true);

    // With nothing on screen to carry, the pick lands on a fresh one.
    assert!(shell.session.thread_id.is_none());
    assert_eq!(shell.session.status, Status::Bootstrapping);
    assert_eq!(effects[1], notice("Saved; fresh session started with the new model setup"));
}

#[test]
fn picking_another_vendor_carries_the_conversation_into_a_fork() {
    let mut shell = live_shell("live", "glm", "glm-5.3");

    let _ = shell.vendor_model_picked(
        String::from("deepseek"),
        String::from("deepseek-flash"),
        Some("glm"),
        Some("glm-5.3"),
    );
    let effects = shell.settings_saved(Ok(()), false, "deepseek", "deepseek-flash", &[], false);

    // The run continues on the fork; the conversation stays on screen
    // until the fork reply lands.
    assert_eq!(shell.session.thread_id.as_deref(), Some("live"));
    assert_eq!(
        effects,
        vec![
            Effect::LoadConfig,
            notice("Saved; conversation moved to deepseek-flash"),
            Effect::ForkThreadWithModel {
                thread_id: String::from("live"),
                provider_id: String::from("deepseek"),
                model: String::from("deepseek-flash"),
            },
        ],
    );
}

#[test]
fn a_settled_model_switch_fork_reopens_the_forked_thread() {
    let mut shell = live_shell("live", "glm", "glm-5.3");

    let effects = shell.model_switch_forked(Ok(String::from("fork-1")));

    // The resume is in flight; the fork is the thread on screen now.
    assert_eq!(shell.session.thread_id.as_deref(), Some("fork-1"));
    assert_eq!(shell.session.status, Status::Bootstrapping);
    assert_eq!(
        effects,
        vec![
            Effect::ResetConversation,
            Effect::ResumeThread(String::from("fork-1")),
            Effect::LoadSessions,
        ],
    );
}

#[test]
fn a_failed_model_switch_fork_keeps_the_conversation() {
    let mut shell = live_shell("live", "glm", "glm-5.3");

    let effects = shell.model_switch_forked(Err(String::from("channel closed")));

    assert_eq!(shell.session.thread_id.as_deref(), Some("live"));
    assert_eq!(shell.session.status, Status::Ready);
    match &effects[..] {
        [Effect::RaiseBanner(text)] => assert!(text.contains("model switch failed")),
        other => panic!("expected the banner, got {other:?}"),
    }
}

#[test]
fn re_picking_the_bound_model_only_rewrites_the_config() {
    let mut shell = live_shell("live", "glm", "glm-5.3");

    // The saved default drifted away from the live thread's pair.
    let _ = shell.vendor_model_picked(
        String::from("glm"),
        String::from("glm-5.3"),
        Some("deepseek"),
        Some("deepseek-flash"),
    );
    assert!(shell.session.model_switch_pending);
    assert!(shell.session.pending_model_apply.is_none());

    let effects = shell.settings_saved(Ok(()), false, "glm", "glm-5.3", &[], false);

    // The thread already runs the pair; nothing is restarted or retargeted.
    assert_eq!(shell.session.thread_id.as_deref(), Some("live"));
    assert_eq!(shell.session.status, Status::Ready);
    assert!(!shell.session.model_switch_pending);
    assert_eq!(
        effects,
        vec![Effect::LoadConfig, notice("Saved; new sessions will use the new model setup")],
    );
}

#[test]
fn menu_pick_without_a_thread_only_records_the_default() {
    let mut shell = Shell::new();
    // No live thread yet (the pick lands during bootstrap).
    let _ = shell.vendor_model_picked(String::from("glm"), String::from("glm-5-turbo"), None, None);
    assert!(shell.session.model_switch_pending);
    assert!(shell.session.pending_model_apply.is_none());

    shell.session.thread_id = Some(String::from("arrived"));
    shell.session.status = Status::Ready;
    let effects = shell.settings_saved(Ok(()), false, "glm", "glm-5-turbo", &[], true);

    assert_eq!(shell.session.thread_id.as_deref(), Some("arrived"));
    assert_eq!(shell.session.status, Status::Ready);
    assert_eq!(
        effects,
        vec![Effect::LoadConfig, notice("Saved; new sessions will use the new model setup")],
    );
}

#[test]
fn failed_in_place_switch_keeps_the_thread_and_raises_a_notice() {
    let shell = Shell::new();

    let effects = shell.model_applied_in_place(Err(String::from("channel closed")));

    match &effects[..] {
        [Effect::SettingsNotice(text)] => assert!(text.starts_with("model switch failed")),
        other => panic!("the failure surfaces, got {other:?}"),
    }
    assert!(shell.model_applied_in_place(Ok(())).is_empty());
}

#[test]
fn a_plain_save_only_rereads_the_config() {
    let mut shell = live_shell("live", "glm", "glm-5.3");

    let effects = shell.settings_saved(Ok(()), false, "glm", "glm-5.3", &[], false);

    assert_eq!(effects, vec![Effect::LoadConfig]);
    assert_eq!(shell.session.thread_id.as_deref(), Some("live"));
}

#[test]
fn a_panel_save_without_a_thread_records_the_default() {
    let mut shell = Shell::new();
    let edits = vec![(String::from("model"), Some(String::from("glm-5")))];

    let effects = shell.settings_saved(Ok(()), true, "glm", "glm-4", &edits, true);

    assert_eq!(
        effects,
        vec![Effect::LoadConfig, notice("Saved; new sessions will use the new model setup")],
    );
}

#[test]
fn the_last_edit_per_key_wins_in_the_saved_setup() {
    let edits = vec![
        (String::from("model"), Some(String::from("a"))),
        (String::from("model_provider"), Some(String::from("p1"))),
        (String::from("model"), Some(String::from("b"))),
        (String::from("approval_policy"), Some(String::from("never"))),
    ];

    assert_eq!(
        saved_panel_model_setup("p0", "m0", &edits),
        (String::from("p1"), String::from("b"), true),
    );
    assert_eq!(
        saved_panel_model_setup("p0", "m0", &[]),
        (String::from("p0"), String::from("m0"), false),
    );
    // A non-string value reads as the empty string.
    assert_eq!(
        saved_panel_model_setup("p0", "m0", &[(String::from("model"), None)]),
        (String::from("p0"), String::new(), false),
    );
    // Any provider-table key counts as a table rewrite.
    assert_eq!(
        saved_panel_model_setup("p0", "m0", &[(String::from("model_providers.x.base_url"), None)]),
        (String::from("p0"), String::from("m0"), true),
    );
}
