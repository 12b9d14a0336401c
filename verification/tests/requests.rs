use codex_gui_ui::requests::thread_list_params;
use codex_gui_ui::requests::thread_resume_params;
use codex_gui_ui::requests::thread_start_params;
use codex_gui_ui::requests::AskForApproval;
use codex_gui_ui::requests::SandboxMode;

#[test]
fn thread_start_params_pins_the_working_directory_when_given() {
    let params = thread_start_params(Some("/tmp/proj".to_string()));

    assert_eq!(params.cwd, Some("/tmp/proj".to_string()));
}

#[test]
fn thread_start_params_defaults_to_the_server_working_directory() {
    let params = thread_start_params(None);

    assert_eq!(params.cwd, None);
}

#[test]
fn thread_start_params_auto_approves_workspace_edits() {
    // The server default for untrusted projects prompts on every patch;
    // the shell pins a policy that auto-approves edits inside the
    // writable sandbox.
    let params = thread_start_params(None);

    assert_eq!(params.approval_policy, Some(AskForApproval::OnRequest));
    assert_eq!(params.sandbox, Some(SandboxMode::WorkspaceWrite));
}

#[test]
fn thread_resume_params_keeps_the_workspace_approval_posture() {
    // Resuming an older thread must not resurrect the server-default
    // policy that prompts on every patch.
    let params = thread_resume_params(String::from("thr-1"));

    assert_eq!(params.thread_id, String::from("thr-1"));
    assert_eq!(params.approval_policy, Some(AskForApproval::OnRequest));
    assert_eq!(params.sandbox, Some(SandboxMode::WorkspaceWrite));
}

#[test]
fn thread_list_params_asks_for_every_model_provider() {
    // An omitted provider filter would mean "the current config provider";
    // the explicit empty list means "all providers".
    let params = thread_list_params(None);

    assert_eq!(params.model_providers, Some(Vec::new()));
    assert_eq!(thread_list_params(Some(true)).archived, Some(true));
}
