//! The request payloads whose fields the shell pins: the approval posture
//! of started and resumed threads, and the provider filter of thread lists.

use vstd::prelude::*;

verus! {

/// When the server asks before running a command or applying a patch.
#[derive(Debug, Clone, Copy, PartialEq, Eq, Structural)]
pub enum AskForApproval {
    /// Ask unless the project is trusted.
    UnlessTrusted,
    /// Ask only when a sandboxed run fails.
    OnFailure,
    /// Ask for anything outside the writable sandbox.
    OnRequest,
    /// Never ask.
    Never,
}

/// What the sandbox lets a turn touch.
#[derive(Debug, Clone, Copy, PartialEq, Eq, Structural)]
pub enum SandboxMode {
    /// Read only.
    ReadOnly,
    /// Writes inside the workspace.
    WorkspaceWrite,
    /// No sandbox.
    DangerFullAccess,
}

/// The `thread/start` fields the shell sets; the rest keep the server's
/// defaults.
#[derive(Debug, Clone, PartialEq, Eq)]
pub struct ThreadStartParams {
    /// The project directory the thread is pinned to, when any.
    pub cwd: Option<String>,
    pub approval_policy: Option<AskForApproval>,
    pub sandbox: Option<SandboxMode>,
}

/// The `thread/resume` fields the shell sets.
#[derive(Debug, Clone, PartialEq, Eq)]
pub struct ThreadResumeParams {
    pub thread_id: String,
    pub approval_policy: Option<AskForApproval>,
    pub sandbox: Option<SandboxMode>,
}

/// The `thread/list` fields the shell sets.
#[derive(Debug, Clone, PartialEq, Eq)]
pub struct ThreadListParams {
    /// `Some(true)` lists the archived partition.
    pub archived: Option<bool>,
    /// The providers to list; an explicit empty list means every one.
    pub model_providers: Option<Vec<String>>,
}

/// `thread/start` payload; `cwd` pins the session to a project directory.
/// Workspace edits run without per-file approval while anything outside
/// the writable sandbox still prompts.
pub fn thread_start_params(cwd: Option<String>) -> (p: ThreadStartParams)
    ensures
        p.cwd == cwd,
        p.approval_policy == Some(AskForApproval::OnRequest),
        p.sandbox == Some(SandboxMode::WorkspaceWrite),
{
    ThreadStartParams {
        cwd,
        approval_policy: Some(AskForApproval::OnRequest),
        sandbox: Some(SandboxMode::WorkspaceWrite),
    }
}

/// Resumes a thread with the same approval posture as a started one.
pub fn thread_resume_params(thread_id: String) -> (p: ThreadResumeParams)
    ensures
        p.thread_id == thread_id,
        p.approval_policy == Some(AskForApproval::OnRequest),
        p.sandbox == Some(SandboxMode::WorkspaceWrite),
{
    ThreadResumeParams {
        thread_id,
        approval_policy: Some(AskForApproval::OnRequest),
        sandbox: Some(SandboxMode::WorkspaceWrite),
    }
}

/// `thread/list` payload over every provider (an omitted filter would mean
/// only the configured one).
pub fn thread_list_params(archived: Option<bool>) -> (p: ThreadListParams)
    ensures
        p.archived == archived,
        p.model_providers matches Some(v) && v@.len() == 0,
{
    ThreadListParams { archived, model_providers: Some(Vec::new()) }
}

} // verus!
