//! Shell transitions of the commit composer and its AI-drafted message.

use crate::state::indexes_below;
use std::collections::BTreeSet;
use crate::shell::effect_views;
use crate::shell::none;
use crate::shell::one;
use crate::shell::Effect;
use crate::shell::EffectView;
use crate::shell::Shell;
use crate::shell::ShellView;
use crate::state::GitOverlayStatus;
use crate::state::GitStatusView;
use crate::state::GitView;
use crate::text::push_str;
use crate::text::trim;
use crate::text::trim_str;
use vstd::prelude::*;

verus! {

/// The instruction sent on the throwaway thread for a staged diff.
pub open spec fn spec_draft_prompt(diff: Seq<char>) -> Seq<char> {
    "Write one conventional commit message for the following staged diff.Reply with only the commit message body:\n\n"@
        + diff
}

/// The instruction sent on the throwaway thread for a staged diff.
pub fn draft_prompt(diff: &str) -> (prompt: String)
    ensures
        prompt@ == spec_draft_prompt(diff@),
{
    let mut prompt = String::new();
    push_str(
        &mut prompt,
        "Write one conventional commit message for the following staged diff.Reply with only the commit message body:\n\n",
    );
    push_str(&mut prompt, diff);
    prompt
}

/// What a notification on the throwaway draft thread carries.
#[derive(Debug, Clone)]
pub enum DraftNotice {
    /// A completed agent message with its text.
    AgentMessage(String),
    /// The turn completed.
    TurnCompleted,
    /// Anything else.
    Other,
}

impl ShellView {
    /// The shell with only its commit composer replaced.
    pub open spec fn with_git(self, git: GitView) -> ShellView {
        ShellView { git, ..self }
    }

    /// Closing the commit composer cancels a running draft and resets the
    /// form; opening it keeps everything.
    pub open spec fn on_git_overlay_toggled(self) -> ShellView {
        if self.git.open {
            self.with_git(
                GitView {
                    open: false,
                    selected: Set::empty(),
                    status: GitStatusView::Idle,
                    draft_thread: None,
                    draft_diff: None,
                    ..self.git
                },
            )
        } else {
            self.with_git(GitView { open: true, ..self.git })
        }
    }

    /// Asking for an AI draft: with a client, a working directory and a
    /// selection, the draft starts (staging and a throwaway thread);
    /// otherwise the form says why.
    pub open spec fn on_ai_draft_requested(self, cwd: Option<Seq<char>>, paths: Seq<Seq<char>>) -> (
        ShellView,
        Seq<EffectView>,
    ) {
        if !self.session.connected {
            (self, seq![])
        } else {
            match cwd {
                None => (
                    self.with_git(GitView { status: GitStatusView::Failed("no working directory"@), ..self.git }),
                    seq![],
                ),
                Some(c) => if paths.len() == 0 {
                    (
                        self.with_git(
                            GitView { status: GitStatusView::Failed("select files to describe first"@), ..self.git },
                        ),
                        seq![],
                    )
                } else {
                    (
                        self.with_git(GitView { status: GitStatusView::Drafting, ..self.git }),
                        seq![EffectView::BeginCommitDraft { cwd: c, paths }],
                    )
                },
            }
        }
    }

    /// A notification on the running draft thread: a completed agent
    /// message becomes the commit message and the thread is archived; a
    /// completed turn without one fails the draft; anything else is
    /// swallowed. `None` when no draft is running on `thread_id`.
    pub open spec fn on_draft_notice(self, thread_id: Option<Seq<char>>, notice: DraftNotice) -> Option<
        (ShellView, Seq<EffectView>),
    > {
        match (self.git.draft_thread, thread_id) {
            (Some(d), Some(t)) => if d == t {
                match notice {
                    DraftNotice::AgentMessage(text) => Some(
                        (
                            self.with_git(
                                GitView {
                                    message: text@,
                                    draft_diff: None,
                                    draft_thread: None,
                                    status: GitStatusView::Idle,
                                    ..self.git
                                },
                            ),
                            seq![EffectView::ArchiveThread(d)],
                        ),
                    ),
                    DraftNotice::TurnCompleted => Some(
                        (
                            self.with_git(
                                GitView {
                                    draft_diff: None,
                                    draft_thread: None,
                                    status: GitStatusView::Failed("draft turn produced no message"@),
                                    ..self.git
                                },
                            ),
                            seq![],
                        ),
                    ),
                    DraftNotice::Other => Some((self, seq![])),
                }
            } else {
                None
            },
            _ => None,
        }
    }
}

/// The files of `changed` (in working-tree order) whose positions are in
/// `selected`.
pub open spec fn spec_selected_paths(changed: Seq<Seq<char>>, selected: Set<usize>) -> Seq<Seq<char>>
    decreases changed.len(),
{
    if changed.len() == 0 {
        seq![]
    } else {
        let rest = spec_selected_paths(changed.drop_last(), selected);
        if selected.contains((changed.len() - 1) as usize) {
            rest.push(changed.last())
        } else {
            rest
        }
    }
}

impl Shell {
    /// The composer's selected files as paths, in working-tree order;
    /// `changed` lists the changed files of the working tree.
    pub fn selected_paths(&self, changed: &[String]) -> (paths: Vec<String>)
        ensures
            paths@.map_values(|p: String| p@) == spec_selected_paths(
                changed@.map_values(|p: String| p@),
                self@.git.selected,
            ),
    {
        let ghost all = changed@.map_values(|p: String| p@);
        let mut paths: Vec<String> = Vec::new();
        let mut i: usize = 0;
        while i < changed.len()
            invariant
                i <= changed.len(),
                all == changed@.map_values(|p: String| p@),
                paths@.map_values(|p: String| p@) == spec_selected_paths(all.take(i as int), self@.git.selected),
            decreases changed.len() - i,
        {
            proof {
                assert(all.take(i + 1).drop_last() =~= all.take(i as int));
                assert(all.take(i + 1).last() == changed@[i as int]@);
            }
            if self.git_overlay.selected.contains(&i) {
                let ghost before = paths@;
                paths.push(changed[i].clone());
                assert(paths@.map_values(|p: String| p@) =~= before.map_values(|p: String| p@).push(
                    changed@[i as int]@,
                ));
            }
            i = i + 1;
        }
        assert(all.take(changed.len() as int) =~= all);
        paths
    }

    /// Opening or closing the commit composer.
    pub fn git_overlay_toggled(&mut self)
        ensures
            final(self)@ == old(self)@.on_git_overlay_toggled(),
    {
        self.git_overlay.open = !self.git_overlay.open;
        if !self.git_overlay.open {
            self.git_overlay.selected = BTreeSet::new();
            self.git_overlay.status = GitOverlayStatus::Idle;
            self.git_overlay.draft_thread = None;
            self.git_overlay.draft_diff = None;
        }
    }

    /// Toggling one file checkbox.
    pub fn git_file_toggled(&mut self, index: usize)
        ensures
            final(self)@ == old(self)@.with_git(
                GitView {
                    selected: if old(self)@.git.selected.contains(index) {
                        old(self)@.git.selected.remove(index)
                    } else {
                        old(self)@.git.selected.insert(index)
                    },
                    ..old(self)@.git
                },
            ),
    {
        if self.git_overlay.selected.contains(&index) {
            self.git_overlay.selected.remove(&index);
        } else {
            self.git_overlay.selected.insert(index);
        }
    }

    /// Selecting every one of `change_count` files, or clearing the
    /// selection.
    pub fn git_files_select_all(&mut self, select_all: bool, change_count: usize)
        ensures
            final(self)@ == old(self)@.with_git(
                GitView {
                    selected: if select_all {
                        Set::new(|i: usize| i < change_count)
                    } else {
                        Set::empty()
                    },
                    ..old(self)@.git
                },
            ),
    {
        self.git_overlay.selected = if select_all {
            indexes_below(change_count)
        } else {
            BTreeSet::new()
        };
    }

    /// The commit message draft changed.
    pub fn git_commit_draft_changed(&mut self, text: String)
        ensures
            final(self)@ == old(self)@.with_git(GitView { message: text@, ..old(self)@.git }),
    {
        self.git_overlay.message = text;
    }

    /// Asking to commit the selected files (`paths`, in working-tree
    /// order) from `cwd`: nothing happens without a working directory, a
    /// selection, or a non-blank message.
    pub fn git_commit_requested(&self, cwd: Option<String>, paths: Vec<String>) -> (effects: Vec<Effect>)
        ensures
            effect_views(effects@) == match cwd {
                Some(c) => if paths@.len() > 0 && trim(self@.git.message).len() > 0 {
                    seq![
                        EffectView::CommitFiles {
                            cwd: c@,
                            paths: paths@.map_values(|p: String| p@),
                            message: self@.git.message,
                        },
                    ]
                } else {
                    seq![]
                },
                None => seq![],
            },
    {
        match cwd {
            None => none(),
            Some(c) => {
                let blank = trim_str(self.git_overlay.message.as_str()).as_str().is_empty();
                if paths.len() == 0 || blank {
                    none()
                } else {
                    one(Effect::CommitFiles { cwd: c, paths, message: self.git_overlay.message.clone() })
                }
            },
        }
    }

    /// Asking for an AI-drafted message over the selected files.
    pub fn git_ai_draft_requested(&mut self, cwd: Option<String>, paths: Vec<String>) -> (effects: Vec<Effect>)
        ensures
            (final(self)@, effect_views(effects@)) == old(self)@.on_ai_draft_requested(
                crate::state::opt_view(cwd),
                paths@.map_values(|p: String| p@),
            ),
    {
        if !self.session.connected {
            return none();
        }
        match cwd {
            None => {
                self.git_overlay.status = GitOverlayStatus::Failed(String::from_str("no working directory"));
                none()
            },
            Some(c) => {
                if paths.len() == 0 {
                    self.git_overlay.status = GitOverlayStatus::Failed(
                        String::from_str("select files to describe first"),
                    );
                    none()
                } else {
                    self.git_overlay.status = GitOverlayStatus::Drafting;
                    one(Effect::BeginCommitDraft { cwd: c, paths })
                }
            },
        }
    }

    /// A stage-and-commit finished: success closes the composer and
    /// refreshes git; failure shows git's stderr.
    pub fn commit_finished(&mut self, result: Result<(), String>) -> (effects: Vec<Effect>)
        ensures
            match result {
                Ok(()) => final(self)@ == old(self)@.with_git(
                    GitView { open: false, status: GitStatusView::Idle, ..old(self)@.git },
                ) && effect_views(effects@) == seq![EffectView::RefreshGit],
                Err(e) => final(self)@ == old(self)@.with_git(
                    GitView { status: GitStatusView::Failed(e@), ..old(self)@.git },
                ) && effect_views(effects@) == Seq::<EffectView>::empty(),
            },
    {
        match result {
            Ok(()) => {
                self.git_overlay.open = false;
                self.git_overlay.status = GitOverlayStatus::Idle;
                one(Effect::RefreshGit)
            },
            Err(stderr) => {
                self.git_overlay.status = GitOverlayStatus::Failed(stderr);
                none()
            },
        }
    }

    /// The throwaway draft thread opened (or failed to); `diff` is the
    /// staged diff the draft turn describes.
    pub fn draft_thread_started(&mut self, diff: String, result: Result<String, String>) -> (effects: Vec<Effect>)
        ensures
            match result {
                Ok(t) => final(self)@ == old(self)@.with_git(
                    GitView { draft_diff: Some(diff@), draft_thread: Some(t@), ..old(self)@.git },
                ) && effect_views(effects@) == seq![
                    EffectView::StartDraftTurn { thread_id: t@, prompt: spec_draft_prompt(diff@) },
                ],
                Err(e) => final(self)@ == old(self)@.with_git(
                    GitView { status: GitStatusView::Failed("draft thread failed: "@ + e@), ..old(self)@.git },
                ) && effect_views(effects@) == Seq::<EffectView>::empty(),
            },
    {
        match result {
            Ok(thread_id) => {
                let prompt = draft_prompt(diff.as_str());
                self.git_overlay.draft_diff = Some(diff);
                self.git_overlay.draft_thread = Some(thread_id.clone());
                one(Effect::StartDraftTurn { thread_id, prompt })
            },
            Err(error) => {
                let mut text = String::new();
                push_str(&mut text, "draft thread failed: ");
                push_str(&mut text, error.as_str());
                self.git_overlay.status = GitOverlayStatus::Failed(text);
                none()
            },
        }
    }

    /// The AI draft could not even start.
    pub fn commit_draft_failed(&mut self, reason: String)
        ensures
            final(self)@ == old(self)@.with_git(GitView { status: GitStatusView::Failed(reason@), ..old(self)@.git }),
    {
        self.git_overlay.status = GitOverlayStatus::Failed(reason);
    }

    /// Routes a notification on the throwaway draft thread; `None` when it
    /// does not belong to a running draft (it then goes on to the main
    /// transcript).
    pub fn draft_notice(&mut self, thread_id: Option<&str>, notice: DraftNotice) -> (effects: Option<Vec<Effect>>)
        ensures
            match old(self)@.on_draft_notice(
                match thread_id {
                    Some(t) => Some(t@),
                    None => None,
                },
                notice,
            ) {
                Some(r) => effects is Some && final(self)@ == r.0 && effect_views(effects->0@) == r.1,
                None => effects is None && final(self)@ == old(self)@,
            },
    {
        let draft = match &self.git_overlay.draft_thread {
            Some(d) => d.clone(),
            None => {
                return None;
            },
        };
        let on_draft = match thread_id {
            Some(t) => crate::text::eq_str(draft.as_str(), t),
            None => false,
        };
        if !on_draft {
            return None;
        }
        match notice {
            DraftNotice::AgentMessage(text) => {
                self.git_overlay.message = text;
                self.git_overlay.draft_diff = None;
                self.git_overlay.draft_thread = None;
                self.git_overlay.status = GitOverlayStatus::Idle;
                Some(one(Effect::ArchiveThread(draft)))
            },
            DraftNotice::TurnCompleted => {
                self.git_overlay.draft_diff = None;
                self.git_overlay.draft_thread = None;
                self.git_overlay.status = GitOverlayStatus::Failed(
                    String::from_str("draft turn produced no message"),
                );
                Some(none())
            },
            DraftNotice::Other => Some(none()),
        }
    }
}

} // verus!
