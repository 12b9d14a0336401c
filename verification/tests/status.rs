use codex_gui_ui::status::account_badge;
use codex_gui_ui::shell::Effect;
use codex_gui_ui::shell::Shell;
use codex_gui_ui::status::AccountBadge;
use codex_gui_ui::status::AuthKind;
use codex_gui_ui::status::StatusNotice;

#[test]
fn warning_surfaces_as_the_banner() {
    let mut shell = Shell::new();

    let effects = shell.status_notified(StatusNotice::Warning {
        message: String::from("rate limit approaching"),
    });

    assert_eq!(effects, vec![Effect::RaiseBanner(String::from("rate limit approaching"))]);
}

#[test]
fn guardian_warning_surfaces_as_the_banner() {
    let mut shell = Shell::new();

    let effects = shell.status_notified(StatusNotice::GuardianWarning {
        message: String::from("guardian flagged a command"),
    });

    assert_eq!(effects, vec![Effect::RaiseBanner(String::from("guardian flagged a command"))]);
}

#[test]
fn automatic_approval_guardian_notes_stay_out_of_the_banner() {
    let mut shell = Shell::new();

    let effects = shell.status_notified(StatusNotice::GuardianWarning {
        message: String::from("Automatic approval review approved (low risk)"),
    });

    assert!(effects.is_empty());
}

#[test]
fn config_warning_carries_its_details_into_the_banner() {
    let mut shell = Shell::new();

    let effects = shell.status_notified(StatusNotice::ConfigWarning {
        summary: String::from("unknown config key"),
        details: Some(String::from("unrecognized field `frobnicate`")),
    });

    assert_eq!(
        effects,
        vec![Effect::RaiseBanner(String::from("unknown config key: unrecognized field `frobnicate`"))],
    );

    let effects = shell.status_notified(StatusNotice::ConfigWarning {
        summary: String::from("bare summary"),
        details: None,
    });
    assert_eq!(effects, vec![Effect::RaiseBanner(String::from("bare summary"))]);
}

#[test]
fn thread_settings_update_syncs_only_the_displayed_thread() {
    let mut shell = Shell::new();
    shell.session.thread_id = Some(String::from("thread-1"));

    let effects = shell.status_notified(StatusNotice::ThreadSettingsUpdated {
        thread_id: String::from("thread-1"),
        model_provider: String::from("bigmodel"),
        model: String::from("glm-5.3"),
    });
    assert_eq!(effects, vec![Effect::SyncStatusModel(String::from("glm-5.3"))]);
    assert_eq!(
        shell.session.active_binding,
        Some((String::from("bigmodel"), String::from("glm-5.3"))),
    );

    // Background threads' settings must not repaint the status bar.
    let effects = shell.status_notified(StatusNotice::ThreadSettingsUpdated {
        thread_id: String::from("thread-2"),
        model_provider: String::from("bigmodel"),
        model: String::from("other-model"),
    });
    assert!(effects.is_empty());
    assert_eq!(
        shell.session.active_binding,
        Some((String::from("bigmodel"), String::from("glm-5.3"))),
    );
}

#[test]
fn reroute_surfaces_as_the_status_notice() {
    let mut shell = Shell::new();

    let effects = shell.status_notified(StatusNotice::ModelRerouted {
        from_model: String::from("gpt-5"),
        to_model: String::from("gpt-5-mini"),
    });

    assert_eq!(effects, vec![Effect::ShowNotice(String::from("model rerouted: gpt-5 -> gpt-5-mini"))]);
}

#[test]
fn account_update_projects_the_chatgpt_badge() {
    let mut shell = Shell::new();

    let effects = shell.status_notified(StatusNotice::AccountUpdated {
        auth_mode: Some(AuthKind::Chatgpt),
        plan: Some(String::from("Pro")),
    });

    assert_eq!(
        effects,
        vec![Effect::SetAccount(AccountBadge::Chatgpt { email: None, plan: String::from("pro") })],
    );
}

#[test]
fn account_updates_without_an_identity_keep_the_badge() {
    let mut shell = Shell::new();

    assert!(shell
        .status_notified(StatusNotice::AccountUpdated { auth_mode: Some(AuthKind::Opaque), plan: None })
        .is_empty());
    assert_eq!(
        shell.status_notified(StatusNotice::AccountUpdated { auth_mode: None, plan: None }),
        vec![Effect::SetAccount(AccountBadge::SignedOut)],
    );
    assert_eq!(
        shell.status_notified(StatusNotice::AccountUpdated { auth_mode: Some(AuthKind::ApiKey), plan: None }),
        vec![Effect::SetAccount(AccountBadge::ApiKey)],
    );
}

#[test]
fn recovery_deprecation_and_review_notices_have_their_texts() {
    let mut shell = Shell::new();

    assert_eq!(
        shell.status_notified(StatusNotice::AuthRecoveryStarted { provider: String::from("openai") }),
        vec![Effect::RaiseBanner(String::from("authentication recovery started (openai)"))],
    );
    assert_eq!(
        shell.status_notified(StatusNotice::AuthRecoveryCompleted { provider: String::from("openai") }),
        vec![Effect::RaiseBanner(String::from("authentication recovery completed (openai)"))],
    );
    assert_eq!(
        shell.status_notified(StatusNotice::DeprecationNotice { summary: String::from("old flag") }),
        vec![Effect::RaiseBanner(String::from("old flag"))],
    );
    assert_eq!(
        shell.status_notified(StatusNotice::ModelVerification { entries: 12 }),
        vec![Effect::ShowNotice(String::from("model verification: 12 entries"))],
    );
    assert_eq!(
        shell.status_notified(StatusNotice::GuardianReviewStarted),
        vec![Effect::ShowNotice(String::from("guardian auto-review started"))],
    );
    assert_eq!(
        shell.status_notified(StatusNotice::GuardianReviewCompleted),
        vec![Effect::ShowNotice(String::from("guardian auto-review completed"))],
    );
    assert_eq!(
        shell.status_notified(StatusNotice::StrictReviewRequired),
        vec![Effect::ShowNotice(String::from("guardian strict review required"))],
    );
}

#[test]
fn account_badge_keeps_the_plan_text_it_is_handed() {
    assert_eq!(
        account_badge(Some(AuthKind::Chatgpt), String::from("pro")),
        Some(AccountBadge::Chatgpt { email: None, plan: String::from("pro") }),
    );
    assert_eq!(account_badge(Some(AuthKind::ApiKey), String::from("pro")), Some(AccountBadge::ApiKey));
    assert_eq!(account_badge(None, String::new()), Some(AccountBadge::SignedOut));
    assert_eq!(account_badge(Some(AuthKind::Opaque), String::new()), None);
}
