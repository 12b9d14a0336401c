//! The shell reducer: every UI-owned state transition of the update loop,
//! as a function from the shell state and one event to the next state and
//! the effects the application layer performs (backend calls, focus
//! moves, clipboard writes, and the conversation panes it owns).

use crate::attachments::Attachments;
use crate::drafts::RequestDrafts;
use crate::drafts::RequestDraftsView;
use crate::status::AccountBadge;
use crate::status::AccountBadgeView;
use crate::attachments::AttachmentsView;
use crate::command_palette::PaletteCommand;
use crate::message::AppMode;
use crate::message::MenuId;
use crate::message::Reaction;
use crate::message::SidebarTab;
use crate::sets::IdSet;
use crate::sets::ReactionTable;
use crate::state::ChatSearch;
use crate::state::EditorPane;
use crate::state::EditorView;
use crate::state::GitOverlayState;
use crate::state::GitView;
use crate::state::PaletteState;
use crate::state::PaletteView;
use crate::state::QuestOverlays;
use crate::state::QuestView;
use crate::state::SearchView;
use crate::state::Status;
use crate::state::GitStatusView;
use crate::state::StatusView;
use crate::state::opt_view;
use vstd::prelude::*;

verus! {

/// How a model pick is carried onto the running thread once the config
/// write lands.
#[derive(Debug, Clone, PartialEq, Eq)]
pub enum PendingModelApply {
    /// Same vendor: flip the model on the running thread in place.
    InPlace { thread_id: String, model: String },
    /// Another vendor: only a forked or fresh thread can run it.
    Retarget { provider_id: String, model: String },
}

/// The abstract value of [`PendingModelApply`].
pub ghost enum PendingView {
    InPlace { thread_id: Seq<char>, model: Seq<char> },
    Retarget { provider_id: Seq<char>, model: Seq<char> },
}

impl View for PendingModelApply {
    type V = PendingView;

    open spec fn view(&self) -> PendingView {
        match self {
            PendingModelApply::InPlace { thread_id, model } => PendingView::InPlace {
                thread_id: thread_id@,
                model: model@,
            },
            PendingModelApply::Retarget { provider_id, model } => PendingView::Retarget {
                provider_id: provider_id@,
                model: model@,
            },
        }
    }
}

/// Work the application layer performs after a transition, in order.
#[derive(Debug, Clone, PartialEq, Eq)]
pub enum Effect {
    /// Hand the keyboard back to the composer input.
    FocusComposer,
    /// Focus the transcript search input.
    FocusSearchInput,
    /// Focus the palette query input.
    FocusPaletteInput,
    /// Focus the rename dialog input.
    FocusRenameInput,
    /// Load the body of a freshly opened preview tab.
    ReadPreview(String),
    /// Probe the remote-explorer facts (SSH hosts, Docker).
    ProbeRemote,
    /// Restore the full directory tree view.
    ClearTreeSearch,
    /// Re-root the directory tree at a picked folder.
    ResetTree(String),
    /// Write text to the clipboard.
    CopyToClipboard(String),
    /// Run one palette command through the regular update path.
    RunPalette(PaletteCommand),
    /// Clear the transcript, the parsed markdown, and the stream buffer.
    ResetConversation,
    /// Open a fresh thread, optionally inside a working directory.
    StartThread(Option<String>),
    /// Resume one thread and replay its history.
    ResumeThread(String),
    /// Reload the sidebar thread list.
    LoadSessions,
    /// Reload the archived thread list.
    LoadArchivedSessions,
    /// Drop one row from the sidebar thread list right away.
    RemoveSessionRow(String),
    /// Delete one thread on the server.
    DeleteThread(String),
    /// Fork one thread.
    ForkThread(String),
    /// Rename one thread on the server.
    SetThreadName { thread_id: String, name: String },
    /// Raise the status-bar error banner.
    RaiseBanner(String),
    /// Show a notice in the settings panel.
    SettingsNotice(String),
    /// Close the `@` mention popup.
    CloseMentions,
    /// Refresh the `@` mention popup from the composer text.
    RefreshMentions,
    /// Insert the highlighted mention into the composer.
    InsertMention,
    /// Start a turn with the given prompt and image attachments.
    StartTurn { prompt: String, images: Vec<String> },
    /// Start a review of the uncommitted changes.
    StartReview,
    /// Compact the thread context.
    CompactThread,
    /// Interrupt the live turn.
    InterruptTurn,
    /// Read the config (vendor groups, effective model).
    LoadConfig,
    /// Read the model catalog.
    LoadModels,
    /// Write a vendor/model pick to the config.
    SelectVendorModel { provider_id: String, model: String },
    /// Switch the running thread's model in place.
    ApplyModelInPlace { thread_id: String, model: String },
    /// Fork the running thread onto another vendor setup.
    ForkThreadWithModel { thread_id: String, provider_id: String, model: String },
    /// Re-probe git facts of the working directory.
    RefreshGit,
    /// Start the AI commit-draft turn on the throwaway thread.
    StartDraftTurn { thread_id: String, prompt: String },
    /// Stage the selected files and commit them with the message.
    CommitFiles { cwd: String, paths: Vec<String>, message: String },
    /// Stage the selected files and open the throwaway draft thread.
    BeginCommitDraft { cwd: String, paths: Vec<String> },
    /// Archive one thread.
    ArchiveThread(String),
    /// Reset every backend-owned pane for a fresh connection.
    ResetBackend,
    /// Run the `initialize` handshake on a fresh connection.
    Initialize,
    /// Read the account for the login badge.
    LoadAccount,
    /// Read the skills inventory.
    LoadSkills,
    /// Mirror a thread's model in the status bar.
    SyncStatusModel(String),
    /// Record the server-confirmed working directory (status bar, recent
    /// projects, git probe).
    ConfirmCwd(String),
    /// Replay the resumed thread's history into the transcript.
    ReplayHistory,
    /// Show a transient notice in the status bar.
    ShowNotice(String),
    /// Replace the login badge.
    SetAccount(AccountBadge),
    /// Unarchive one thread on the server.
    UnarchiveThread(String),
    /// Drop one row from the archived thread list right away.
    RemoveArchivedRow(String),
    /// Ask the server for an MCP server's sign-in link.
    StartMcpLogin(String),
    /// Reload the MCP server inventory.
    LoadMcpServers,
}

/// The abstract value of [`Effect`].
pub ghost enum EffectView {
    FocusComposer,
    FocusSearchInput,
    FocusPaletteInput,
    FocusRenameInput,
    ReadPreview(Seq<char>),
    ProbeRemote,
    ClearTreeSearch,
    ResetTree(Seq<char>),
    CopyToClipboard(Seq<char>),
    RunPalette(PaletteCommand),
    ResetConversation,
    StartThread(Option<Seq<char>>),
    ResumeThread(Seq<char>),
    LoadSessions,
    LoadArchivedSessions,
    RemoveSessionRow(Seq<char>),
    DeleteThread(Seq<char>),
    ForkThread(Seq<char>),
    SetThreadName { thread_id: Seq<char>, name: Seq<char> },
    RaiseBanner(Seq<char>),
    SettingsNotice(Seq<char>),
    CloseMentions,
    RefreshMentions,
    InsertMention,
    StartTurn { prompt: Seq<char>, images: Seq<Seq<char>> },
    StartReview,
    CompactThread,
    InterruptTurn,
    LoadConfig,
    LoadModels,
    SelectVendorModel { provider_id: Seq<char>, model: Seq<char> },
    ApplyModelInPlace { thread_id: Seq<char>, model: Seq<char> },
    ForkThreadWithModel { thread_id: Seq<char>, provider_id: Seq<char>, model: Seq<char> },
    RefreshGit,
    StartDraftTurn { thread_id: Seq<char>, prompt: Seq<char> },
    CommitFiles { cwd: Seq<char>, paths: Seq<Seq<char>>, message: Seq<char> },
    BeginCommitDraft { cwd: Seq<char>, paths: Seq<Seq<char>> },
    ArchiveThread(Seq<char>),
    ResetBackend,
    Initialize,
    LoadAccount,
    LoadSkills,
    SyncStatusModel(Seq<char>),
    ConfirmCwd(Seq<char>),
    ReplayHistory,
    ShowNotice(Seq<char>),
    SetAccount(AccountBadgeView),
    UnarchiveThread(Seq<char>),
    RemoveArchivedRow(Seq<char>),
    StartMcpLogin(Seq<char>),
    LoadMcpServers,
}

impl View for Effect {
    type V = EffectView;

    open spec fn view(&self) -> EffectView {
        match self {
            Effect::FocusComposer => EffectView::FocusComposer,
            Effect::FocusSearchInput => EffectView::FocusSearchInput,
            Effect::FocusPaletteInput => EffectView::FocusPaletteInput,
            Effect::FocusRenameInput => EffectView::FocusRenameInput,
            Effect::ReadPreview(p) => EffectView::ReadPreview(p@),
            Effect::ProbeRemote => EffectView::ProbeRemote,
            Effect::ClearTreeSearch => EffectView::ClearTreeSearch,
            Effect::ResetTree(p) => EffectView::ResetTree(p@),
            Effect::CopyToClipboard(t) => EffectView::CopyToClipboard(t@),
            Effect::RunPalette(c) => EffectView::RunPalette(*c),
            Effect::ResetConversation => EffectView::ResetConversation,
            Effect::StartThread(cwd) => EffectView::StartThread(opt_view(*cwd)),
            Effect::ResumeThread(t) => EffectView::ResumeThread(t@),
            Effect::LoadSessions => EffectView::LoadSessions,
            Effect::LoadArchivedSessions => EffectView::LoadArchivedSessions,
            Effect::RemoveSessionRow(t) => EffectView::RemoveSessionRow(t@),
            Effect::DeleteThread(t) => EffectView::DeleteThread(t@),
            Effect::ForkThread(t) => EffectView::ForkThread(t@),
            Effect::SetThreadName { thread_id, name } => EffectView::SetThreadName {
                thread_id: thread_id@,
                name: name@,
            },
            Effect::RaiseBanner(t) => EffectView::RaiseBanner(t@),
            Effect::SettingsNotice(t) => EffectView::SettingsNotice(t@),
            Effect::CloseMentions => EffectView::CloseMentions,
            Effect::RefreshMentions => EffectView::RefreshMentions,
            Effect::InsertMention => EffectView::InsertMention,
            Effect::StartTurn { prompt, images } => EffectView::StartTurn {
                prompt: prompt@,
                images: images@.map_values(|p: String| p@),
            },
            Effect::StartReview => EffectView::StartReview,
            Effect::CompactThread => EffectView::CompactThread,
            Effect::InterruptTurn => EffectView::InterruptTurn,
            Effect::LoadConfig => EffectView::LoadConfig,
            Effect::LoadModels => EffectView::LoadModels,
            Effect::SelectVendorModel { provider_id, model } => EffectView::SelectVendorModel {
                provider_id: provider_id@,
                model: model@,
            },
            Effect::ApplyModelInPlace { thread_id, model } => EffectView::ApplyModelInPlace {
                thread_id: thread_id@,
                model: model@,
            },
            Effect::ForkThreadWithModel { thread_id, provider_id, model } =>
                EffectView::ForkThreadWithModel {
                thread_id: thread_id@,
                provider_id: provider_id@,
                model: model@,
            },
            Effect::RefreshGit => EffectView::RefreshGit,
            Effect::StartDraftTurn { thread_id, prompt } => EffectView::StartDraftTurn {
                thread_id: thread_id@,
                prompt: prompt@,
            },
            Effect::CommitFiles { cwd, paths, message } => EffectView::CommitFiles {
                cwd: cwd@,
                paths: paths@.map_values(|p: String| p@),
                message: message@,
            },
            Effect::BeginCommitDraft { cwd, paths } => EffectView::BeginCommitDraft {
                cwd: cwd@,
                paths: paths@.map_values(|p: String| p@),
            },
            Effect::ArchiveThread(t) => EffectView::ArchiveThread(t@),
            Effect::ResetBackend => EffectView::ResetBackend,
            Effect::Initialize => EffectView::Initialize,
            Effect::LoadAccount => EffectView::LoadAccount,
            Effect::LoadSkills => EffectView::LoadSkills,
            Effect::SyncStatusModel(m) => EffectView::SyncStatusModel(m@),
            Effect::ConfirmCwd(c) => EffectView::ConfirmCwd(c@),
            Effect::ReplayHistory => EffectView::ReplayHistory,
            Effect::ShowNotice(t) => EffectView::ShowNotice(t@),
            Effect::SetAccount(b) => EffectView::SetAccount(b@),
            Effect::UnarchiveThread(t) => EffectView::UnarchiveThread(t@),
            Effect::RemoveArchivedRow(t) => EffectView::RemoveArchivedRow(t@),
            Effect::StartMcpLogin(n) => EffectView::StartMcpLogin(n@),
            Effect::LoadMcpServers => EffectView::LoadMcpServers,

        }
    }
}

/// The views of a list of effects.
pub open spec fn effect_views(effects: Seq<Effect>) -> Seq<EffectView> {
    effects.map_values(|e: Effect| e@)
}

/// The abstract value of [`Session`].
pub ghost struct SessionView {
    pub connected: bool,
    pub thread_id: Option<Seq<char>>,
    pub composer: Seq<char>,
    pub status: StatusView,
    pub active_binding: Option<(Seq<char>, Seq<char>)>,
    pub active_turn: Option<Seq<char>>,
    pub pending_model_apply: Option<PendingView>,
    pub model_switch_pending: bool,
    pub connection_epoch: u64,
    pub turn_diff: Option<Seq<char>>,
    pub token_usage: Option<TokenUsage>,
    pub codex_home: Option<Seq<char>>,
}

/// The conversation lifecycle: connection, live thread and turn, the
/// composer buffer, and the model binding.
#[derive(Debug)]
pub struct Session {
    /// Whether a backend client is connected.
    pub connected: bool,
    /// Active thread once bootstrap finished.
    pub thread_id: Option<String>,
    /// Composer buffer.
    pub composer: String,
    /// Connection/turn lifecycle for the status bar.
    pub status: Status,
    /// The live thread's `(provider, model)` pair, once known.
    pub active_binding: Option<(String, String)>,
    /// The live turn the stop button interrupts.
    pub active_turn: Option<String>,
    /// How the pending model pick lands on the running thread.
    pub pending_model_apply: Option<PendingModelApply>,
    /// Whether a menu pick's config write is in flight.
    pub model_switch_pending: bool,
    /// Bumped on every user-requested relaunch.
    pub connection_epoch: u64,
    /// Cumulative unified diff of the running turn.
    pub turn_diff: Option<String>,
    /// The live thread's latest token usage, for the context chip.
    pub token_usage: Option<TokenUsage>,
    /// The server-reported `codexHome`, root of the skills page's disk
    /// mutations; unknown until the handshake reports it.
    pub codex_home: Option<String>,
}

/// A thread's token usage, as far as the context chip reads it.
#[derive(Debug, Clone, Copy, PartialEq, Eq, Structural)]
pub struct TokenUsage {
    /// Tokens used over the whole thread.
    pub total_tokens: i64,
    /// The model's context window, when known.
    pub model_context_window: Option<i64>,
}

impl View for Session {
    type V = SessionView;

    open spec fn view(&self) -> SessionView {
        SessionView {
            connected: self.connected,
            thread_id: opt_view(self.thread_id),
            composer: self.composer@,
            status: self.status@,
            active_binding: match self.active_binding {
                Some(b) => Some((b.0@, b.1@)),
                None => None,
            },
            active_turn: opt_view(self.active_turn),
            pending_model_apply: match self.pending_model_apply {
                Some(p) => Some(p@),
                None => None,
            },
            model_switch_pending: self.model_switch_pending,
            connection_epoch: self.connection_epoch,
            turn_diff: opt_view(self.turn_diff),
            token_usage: self.token_usage,
            codex_home: opt_view(self.codex_home),
        }
    }
}

/// The abstract value of [`Panels`].
pub ghost struct PanelsView {
    pub sidebar_tab: SidebarTab,
    pub mode: AppMode,
    pub menu: Option<MenuId>,
    pub copied_id: Option<Seq<char>>,
    pub diff_overlay_open: bool,
    pub diff_selected: Option<usize>,
    pub plan_overlay_open: bool,
    pub sidebar_filter: Seq<char>,
    pub search_replace: Seq<char>,
    pub extension_filter: Seq<char>,
    pub model_menu_open: bool,
    pub archived_open: bool,
    pub archived_loaded: bool,
    pub remote_loaded: bool,
    pub mcp_loaded: bool,
}

/// Which panes, menus and overlays are up, plus their filter texts.
#[derive(Debug)]
pub struct Panels {
    /// Which sidebar pane the activity bar shows.
    pub sidebar_tab: SidebarTab,
    /// The shell currently on screen.
    pub mode: AppMode,
    /// The open top-menu dropdown, when any.
    pub menu: Option<MenuId>,
    /// The message id whose copy button shows "copied" feedback.
    pub copied_id: Option<String>,
    /// Diff overlay visibility.
    pub diff_overlay_open: bool,
    /// Selected file index inside the diff overlay.
    pub diff_selected: Option<usize>,
    /// Plan review overlay visibility.
    pub plan_overlay_open: bool,
    /// Sidebar thread-filter text.
    pub sidebar_filter: String,
    /// Workspace replace-with draft.
    pub search_replace: String,
    /// Extension-marketplace filter text.
    pub extension_filter: String,
    /// Multi-vendor model menu visibility.
    pub model_menu_open: bool,
    /// Whether the archived section is expanded.
    pub archived_open: bool,
    /// Whether the archived list has been loaded.
    pub archived_loaded: bool,
    /// Whether the remote pane has probed its facts.
    pub remote_loaded: bool,
    /// Whether the MCP inventory has been loaded.
    pub mcp_loaded: bool,
}

impl View for Panels {
    type V = PanelsView;

    open spec fn view(&self) -> PanelsView {
        PanelsView {
            sidebar_tab: self.sidebar_tab,
            mode: self.mode,
            menu: self.menu,
            copied_id: opt_view(self.copied_id),
            diff_overlay_open: self.diff_overlay_open,
            diff_selected: self.diff_selected,
            plan_overlay_open: self.plan_overlay_open,
            sidebar_filter: self.sidebar_filter@,
            search_replace: self.search_replace@,
            extension_filter: self.extension_filter@,
            model_menu_open: self.model_menu_open,
            archived_open: self.archived_open,
            archived_loaded: self.archived_loaded,
            remote_loaded: self.remote_loaded,
            mcp_loaded: self.mcp_loaded,
        }
    }
}

/// The abstract value of [`Cards`].
pub ghost struct CardsView {
    pub reactions: Map<Seq<char>, Reaction>,
    pub expanded_commands: Set<Seq<char>>,
    pub collapsed_reasoning: Set<Seq<char>>,
    pub expanded_mcp: Set<Seq<char>>,
    pub expanded_command_groups: Set<Seq<char>>,
}

/// Per-card display state of the transcript.
#[derive(Debug)]
pub struct Cards {
    /// Like/dislike per agent-message id.
    pub reactions: ReactionTable,
    /// Command tool cards showing their output well.
    pub expanded_commands: IdSet,
    /// Reasoning cards collapsed by the user (they open by default).
    pub collapsed_reasoning: IdSet,
    /// MCP call cards expanded by the user (they start collapsed).
    pub expanded_mcp: IdSet,
    /// Expanded runs of consecutive command cards.
    pub expanded_command_groups: IdSet,
}

impl View for Cards {
    type V = CardsView;

    open spec fn view(&self) -> CardsView {
        CardsView {
            reactions: self.reactions@,
            expanded_commands: self.expanded_commands@,
            collapsed_reasoning: self.collapsed_reasoning@,
            expanded_mcp: self.expanded_mcp@,
            expanded_command_groups: self.expanded_command_groups@,
        }
    }
}

/// The abstract value of [`Shell`].
pub ghost struct ShellView {
    pub session: SessionView,
    pub attachments: AttachmentsView,
    pub editor: EditorView,
    pub panels: PanelsView,
    pub cards: CardsView,
    pub git: GitView,
    pub palette: PaletteView,
    pub search: SearchView,
    pub quest: QuestView,
    pub mcp_login: Option<(Seq<char>, Seq<char>)>,
    pub requests: RequestDraftsView,
}

/// The UI-owned part of the application state.
#[derive(Debug)]
pub struct Shell {
    /// Conversation lifecycle and composer.
    pub session: Session,
    /// Image attachments pending the next submission.
    pub attachments: Attachments,
    /// Central file-preview area.
    pub editor: EditorPane,
    /// Panes, menus and overlays.
    pub panels: Panels,
    /// Per-card transcript display state.
    pub cards: Cards,
    /// Commit-composer overlay state.
    pub git_overlay: GitOverlayState,
    /// Command palette visibility and query.
    pub palette: PaletteState,
    /// Transcript search bar state.
    pub chat_search: ChatSearch,
    /// Quest-mode overlay cluster.
    pub quest: QuestOverlays,
    /// The MCP sign-in banner: the server being signed in and its link.
    pub mcp_login: Option<McpLogin>,
    /// Drafts of the question and elicitation dialogs.
    pub requests: RequestDrafts,
}

/// An MCP sign-in in flight: the server and the link the user opens.
#[derive(Debug, Clone, PartialEq, Eq)]
pub struct McpLogin {
    /// The MCP server being signed in.
    pub name: String,
    /// The authorization link.
    pub url: String,
}

impl View for Shell {
    type V = ShellView;

    open spec fn view(&self) -> ShellView {
        ShellView {
            session: self.session@,
            attachments: self.attachments@,
            editor: self.editor@,
            panels: self.panels@,
            cards: self.cards@,
            git: self.git_overlay@,
            palette: self.palette@,
            search: self.chat_search@,
            quest: self.quest@,
            mcp_login: match self.mcp_login {
                Some(l) => Some((l.name@, l.url@)),
                None => None,
            },
            requests: self.requests@,
        }
    }
}

/// `set` with `id` added, or removed when it was already there.
pub open spec fn toggled(set: Set<Seq<char>>, id: Seq<char>) -> Set<Seq<char>> {
    if set.contains(id) {
        set.remove(id)
    } else {
        set.insert(id)
    }
}

/// The reaction table after pressing `reaction` on `id`: the same
/// reaction again clears it, otherwise it replaces.
pub open spec fn reacted(
    m: Map<Seq<char>, Reaction>,
    id: Seq<char>,
    reaction: Reaction,
) -> Map<Seq<char>, Reaction> {
    if m.contains_key(id) && m[id] == reaction {
        m.remove(id)
    } else {
        m.insert(id, reaction)
    }
}

/// No effects.
pub(crate) fn none() -> (v: Vec<Effect>)
    ensures
        effect_views(v@) == Seq::<EffectView>::empty(),
{
    let v: Vec<Effect> = Vec::new();
    assert(effect_views(v@) =~= Seq::<EffectView>::empty());
    v
}

/// Exactly one effect.
pub(crate) fn one(e: Effect) -> (v: Vec<Effect>)
    ensures
        effect_views(v@) == seq![e@],
{
    let v = vec![e];
    assert(effect_views(v@) =~= seq![e@]);
    v
}

/// Two effects, in order.
pub(crate) fn two(a: Effect, b: Effect) -> (v: Vec<Effect>)
    ensures
        effect_views(v@) == seq![a@, b@],
{
    let v = vec![a, b];
    assert(effect_views(v@) =~= seq![a@, b@]);
    v
}

/// Appends the effects of `more` after those of `v`.
pub(crate) fn then(v: Vec<Effect>, more: Vec<Effect>) -> (r: Vec<Effect>)
    ensures
        effect_views(r@) == effect_views(v@) + effect_views(more@),
{
    let mut r = v;
    let mut m = more;
    let ghost a = r@;
    let ghost b = m@;
    r.append(&mut m);
    assert(effect_views(r@) =~= effect_views(a) + effect_views(b));
    r
}


impl ShellView {
    /// The shell at launch: no client, no thread, the editor layout on the
    /// file tree, and every overlay closed.
    pub open spec fn initial() -> ShellView {
        ShellView {
            session: SessionView {
                connected: false,
                thread_id: None,
                composer: Seq::empty(),
                status: StatusView::Bootstrapping,
                active_binding: None,
                active_turn: None,
                pending_model_apply: None,
                model_switch_pending: false,
                connection_epoch: 0,
                turn_diff: None,
                token_usage: None,
                codex_home: None,
            },
            attachments: AttachmentsView { images: Seq::empty(), hovered: false },
            editor: EditorView { tabs: Seq::empty(), active: None, bodies: Seq::empty() },
            panels: PanelsView {
                sidebar_tab: SidebarTab::Files,
                mode: AppMode::Editor,
                menu: None,
                copied_id: None,
                diff_overlay_open: false,
                diff_selected: None,
                plan_overlay_open: false,
                sidebar_filter: Seq::empty(),
                search_replace: Seq::empty(),
                extension_filter: Seq::empty(),
                model_menu_open: false,
                archived_open: false,
                archived_loaded: false,
                remote_loaded: false,
                mcp_loaded: false,
            },
            cards: CardsView {
                reactions: Map::empty(),
                expanded_commands: Set::empty(),
                collapsed_reasoning: Set::empty(),
                expanded_mcp: Set::empty(),
                expanded_command_groups: Set::empty(),
            },
            git: GitView {
                open: false,
                selected: Set::empty(),
                message: Seq::empty(),
                draft_diff: None,
                draft_thread: None,
                status: GitStatusView::Idle,
            },
            palette: PaletteView { open: false, query: Seq::empty(), selected: 0 },
            search: SearchView { open: false, query: Seq::empty(), hit: 0 },
            quest: QuestView {
                picker_open: false,
                scenario: None,
                menu_thread: None,
                confirm_delete: false,
                rename: None,
                board_open: false,
                board_project: None,
                board_filter: Seq::empty(),
                workspace_menu: false,
                list_expanded: false,
            },
            mcp_login: None,
            requests: RequestDraftsView::empty(),
        }
    }

    /// Opening a fresh thread (optionally inside `cwd`): the live one is
    /// dropped along with its turn and binding.
    pub open spec fn restarted(self, cwd: Option<Seq<char>>) -> (ShellView, Seq<EffectView>) {
        (
            ShellView {
                session: SessionView {
                    status: StatusView::Bootstrapping,
                    thread_id: None,
                    active_turn: None,
                    active_binding: None,
                    ..self.session
                },
                ..self
            },
            seq![EffectView::ResetConversation, EffectView::StartThread(cwd)],
        )
    }

    /// Switching to a thread: without a backend client nothing happens;
    /// otherwise the panes clear and the thread's binding is unknown
    /// until its history arrives.
    pub open spec fn resumed(self, thread_id: Seq<char>) -> (ShellView, Seq<EffectView>) {
        if !self.session.connected {
            (self, seq![])
        } else {
            (
                ShellView {
                    session: SessionView {
                        status: StatusView::Bootstrapping,
                        thread_id: Some(thread_id),
                        active_binding: None,
                        ..self.session
                    },
                    ..self
                },
                seq![EffectView::ResetConversation, EffectView::ResumeThread(thread_id)],
            )
        }
    }

}

impl Shell {
    /// The shell at launch.
    pub fn new() -> (s: Shell)
        ensures
            s@ == ShellView::initial(),
    {
        let s = Shell {
            session: Session {
                connected: false,
                thread_id: None,
                composer: String::new(),
                status: Status::Bootstrapping,
                active_binding: None,
                active_turn: None,
                pending_model_apply: None,
                model_switch_pending: false,
                connection_epoch: 0,
                turn_diff: None,
                token_usage: None,
                codex_home: None,
            },
            attachments: Attachments::default(),
            editor: EditorPane::default(),
            panels: Panels {
                sidebar_tab: SidebarTab::Files,
                mode: AppMode::Editor,
                menu: None,
                copied_id: None,
                diff_overlay_open: false,
                diff_selected: None,
                plan_overlay_open: false,
                sidebar_filter: String::new(),
                search_replace: String::new(),
                extension_filter: String::new(),
                model_menu_open: false,
                archived_open: false,
                archived_loaded: false,
                remote_loaded: false,
                mcp_loaded: false,
            },
            cards: Cards {
                reactions: ReactionTable::new(),
                expanded_commands: IdSet::new(),
                collapsed_reasoning: IdSet::new(),
                expanded_mcp: IdSet::new(),
                expanded_command_groups: IdSet::new(),
            },
            git_overlay: GitOverlayState::default(),
            palette: PaletteState::default(),
            chat_search: ChatSearch::default(),
            quest: QuestOverlays::default(),
            mcp_login: None,
            requests: RequestDrafts::new(),
        };
        assert(s@.attachments.images =~= Seq::<Seq<char>>::empty());
        assert(s@.editor.tabs =~= Seq::<Seq<char>>::empty());
        assert(s@.editor.bodies =~= Seq::<(Seq<char>, crate::state::FileBody)>::empty());
        assert(s@.session == ShellView::initial().session);
        assert(s@.panels == ShellView::initial().panels);
        assert(s@.cards == ShellView::initial().cards);
        assert(s@.quest == ShellView::initial().quest);
        assert(s@.git == ShellView::initial().git);
        s
    }

    /// Drops the live conversation and starts a fresh one, optionally
    /// inside a project directory.
    pub(crate) fn restart_thread(&mut self, cwd: Option<String>) -> (effects: Vec<Effect>)
        ensures
            (final(self)@, effect_views(effects@)) == old(self)@.restarted(opt_view(cwd)),
    {
        self.session.status = Status::Bootstrapping;
        self.session.thread_id = None;
        self.session.active_turn = None;
        self.session.active_binding = None;
        two(Effect::ResetConversation, Effect::StartThread(cwd))
    }

    /// Switches to the picked thread.
    pub(crate) fn resume_thread(&mut self, thread_id: String) -> (effects: Vec<Effect>)
        ensures
            (final(self)@, effect_views(effects@)) == old(self)@.resumed(thread_id@),
    {
        if !self.session.connected {
            return none();
        }
        self.session.status = Status::Bootstrapping;
        self.session.thread_id = Some(thread_id.clone());
        self.session.active_binding = None;
        two(Effect::ResetConversation, Effect::ResumeThread(thread_id))
    }

}

} // verus!
