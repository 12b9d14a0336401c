use codex_gui_ui::shell::Effect;
use codex_gui_ui::shell::Shell;
use codex_gui_ui::shell_git::draft_prompt;
use codex_gui_ui::shell_git::DraftNotice;
use codex_gui_ui::state::GitOverlayStatus;

/// A shell with an AI draft running on the throwaway thread `draft-t`.
fn drafting_shell() -> Shell {
    let mut shell = Shell::new();
    shell.git_overlay.draft_thread = Some(String::from("draft-t"));
    shell.git_overlay.draft_diff = Some(String::from("diff"));
    shell.git_overlay.status = GitOverlayStatus::Drafting;
    shell
}

#[test]
fn git_file_toggles_map_working_tree_indexes() {
    let mut shell = Shell::new();

    shell.git_files_select_all(true, 2);
    assert_eq!(shell.git_overlay.selected.len(), 2);

    shell.git_file_toggled(0);
    assert!(!shell.git_overlay.selected.contains(&0));
    assert!(shell.git_overlay.selected.contains(&1));

    shell.git_files_select_all(false, 2);
    assert!(shell.git_overlay.selected.is_empty());
}

#[test]
fn draft_thread_agent_message_fills_the_commit_message() {
    let mut shell = drafting_shell();

    let effects = shell.draft_notice(
        Some("draft-t"),
        DraftNotice::AgentMessage(String::from("feat: add a thing")),
    );

    assert_eq!(shell.git_overlay.message, "feat: add a thing");
    assert!(shell.git_overlay.draft_thread.is_none());
    assert_eq!(shell.git_overlay.status, GitOverlayStatus::Idle);
    // The draft thread is archived; nothing reaches the main transcript.
    assert_eq!(effects, Some(vec![Effect::ArchiveThread(String::from("draft-t"))]));
}

#[test]
fn draft_thread_deltas_stay_out_of_the_main_transcript() {
    let mut shell = drafting_shell();

    let effects = shell.draft_notice(Some("draft-t"), DraftNotice::Other);

    assert_eq!(effects, Some(Vec::new()), "the notice is swallowed");
    assert_eq!(shell.git_overlay.draft_thread.as_deref(), Some("draft-t"));
}

#[test]
fn draft_turn_completed_without_a_message_fails_the_draft() {
    let mut shell = drafting_shell();

    let effects = shell.draft_notice(Some("draft-t"), DraftNotice::TurnCompleted);

    assert_eq!(effects, Some(Vec::new()));
    assert!(shell.git_overlay.draft_thread.is_none());
    assert_eq!(
        shell.git_overlay.status,
        GitOverlayStatus::Failed(String::from("draft turn produced no message")),
    );
}

#[test]
fn main_thread_traffic_still_flows_while_a_draft_is_running() {
    let mut shell = drafting_shell();

    // The live thread's notifications are not the draft's.
    assert_eq!(shell.draft_notice(Some("thread-1"), DraftNotice::Other), None);
    assert_eq!(shell.draft_notice(None, DraftNotice::TurnCompleted), None);
    assert_eq!(shell.git_overlay.status, GitOverlayStatus::Drafting);
}

#[test]
fn closing_the_commit_composer_resets_the_form() {
    let mut shell = drafting_shell();
    shell.git_overlay_toggled();
    assert!(shell.git_overlay.open);
    shell.git_file_toggled(3);

    shell.git_overlay_toggled();

    assert!(!shell.git_overlay.open);
    assert!(shell.git_overlay.selected.is_empty());
    assert!(shell.git_overlay.draft_thread.is_none());
    assert!(shell.git_overlay.draft_diff.is_none());
    assert_eq!(shell.git_overlay.status, GitOverlayStatus::Idle);
}

#[test]
fn a_commit_needs_a_directory_a_selection_and_a_message() {
    let mut shell = Shell::new();
    let paths = vec![String::from("a.txt")];

    shell.git_commit_draft_changed(String::from("   "));
    assert!(shell.git_commit_requested(Some(String::from("/repo")), paths.clone()).is_empty());

    shell.git_commit_draft_changed(String::from("fix: typo"));
    assert!(shell.git_commit_requested(None, paths.clone()).is_empty());
    assert!(shell.git_commit_requested(Some(String::from("/repo")), Vec::new()).is_empty());
    assert_eq!(
        shell.git_commit_requested(Some(String::from("/repo")), paths),
        vec![Effect::CommitFiles {
            cwd: String::from("/repo"),
            paths: vec![String::from("a.txt")],
            message: String::from("fix: typo"),
        }],
    );
}

#[test]
fn a_finished_commit_closes_the_composer_or_shows_the_error() {
    let mut shell = Shell::new();
    shell.git_overlay_toggled();

    let effects = shell.commit_finished(Err(String::from("nothing to commit")));
    assert!(effects.is_empty());
    assert!(shell.git_overlay.open);
    assert_eq!(
        shell.git_overlay.status,
        GitOverlayStatus::Failed(String::from("nothing to commit")),
    );

    let effects = shell.commit_finished(Ok(()));
    assert_eq!(effects, vec![Effect::RefreshGit]);
    assert!(!shell.git_overlay.open);
    assert_eq!(shell.git_overlay.status, GitOverlayStatus::Idle);
}

#[test]
fn an_ai_draft_request_explains_what_is_missing() {
    let mut shell = Shell::new();
    shell.session.connected = true;

    let _ = shell.git_ai_draft_requested(None, vec![String::from("a.txt")]);
    assert_eq!(
        shell.git_overlay.status,
        GitOverlayStatus::Failed(String::from("no working directory")),
    );

    let _ = shell.git_ai_draft_requested(Some(String::from("/repo")), Vec::new());
    assert_eq!(
        shell.git_overlay.status,
        GitOverlayStatus::Failed(String::from("select files to describe first")),
    );

    let effects = shell.git_ai_draft_requested(Some(String::from("/repo")), vec![String::from("a.txt")]);
    assert_eq!(shell.git_overlay.status, GitOverlayStatus::Drafting);
    assert_eq!(
        effects,
        vec![Effect::BeginCommitDraft {
            cwd: String::from("/repo"),
            paths: vec![String::from("a.txt")],
        }],
    );
}

#[test]
fn an_opened_draft_thread_starts_the_draft_turn_with_the_diff() {
    let mut shell = Shell::new();

    let effects = shell.draft_thread_started(String::from("+x"), Ok(String::from("draft-t")));

    assert_eq!(shell.git_overlay.draft_thread.as_deref(), Some("draft-t"));
    assert_eq!(shell.git_overlay.draft_diff.as_deref(), Some("+x"));
    assert_eq!(
        effects,
        vec![Effect::StartDraftTurn {
            thread_id: String::from("draft-t"),
            prompt: draft_prompt("+x"),
        }],
    );
    assert!(draft_prompt("+x").ends_with("\n\n+x"));

    let effects = shell.draft_thread_started(String::from("+y"), Err(String::from("closed")));
    assert!(effects.is_empty());
    assert_eq!(
        shell.git_overlay.status,
        GitOverlayStatus::Failed(String::from("draft thread failed: closed")),
    );
}

#[test]
fn selected_paths_follow_the_working_tree_order() {
    let mut shell = Shell::new();
    let changed = vec![String::from("a.txt"), String::from("b.txt"), String::from("c.txt")];
    shell.git_file_toggled(2);
    shell.git_file_toggled(0);
    shell.git_file_toggled(7);

    assert_eq!(
        shell.selected_paths(&changed),
        vec![String::from("a.txt"), String::from("c.txt")],
    );
    assert!(Shell::new().selected_paths(&changed).is_empty());
}
