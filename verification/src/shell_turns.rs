//! Shell transitions of the conversation lifecycle: connection and
//! bootstrap, composer submission, turn bookkeeping, and reconnects.

use crate::attachments::Attachments;
use crate::attachments::AttachmentsView;
use crate::commands::slash_action;
use crate::drafts::RequestDrafts;
use crate::drafts::RequestDraftsView;
use crate::commands::spec_slash_action;
use crate::commands::SlashAction;
use crate::shell::effect_views;
use crate::shell::none;
use crate::shell::one;
use crate::shell::two;
use crate::shell::Effect;
use crate::shell::EffectView;
use crate::shell::PanelsView;
use crate::shell::SessionView;
use crate::shell::Shell;
use crate::shell::ShellView;
use crate::shell::TokenUsage;
use crate::state::Status;
use crate::state::StatusView;
use crate::state::opt_view;
use crate::text::push_str;
use crate::text::trim;
use crate::text::trim_str;
use vstd::prelude::*;

verus! {

/// What a settled `thread/start` reported, as plain fields.
#[derive(Debug, Clone)]
pub struct ThreadStarted {
    /// `thread.id`, when present.
    pub thread_id: Option<String>,
    /// `modelProvider`, when present.
    pub model_provider: Option<String>,
    /// `model`, when present.
    pub model: Option<String>,
    /// `cwd`, when present.
    pub cwd: Option<String>,
}

/// What a settled `thread/resume` reported.
#[derive(Debug, Clone)]
pub struct ResumedThread {
    /// The resumed thread.
    pub thread_id: String,
    /// Its provider.
    pub model_provider: String,
    /// Its model.
    pub model: String,
    /// Its working directory.
    pub cwd: String,
}

impl ShellView {
    /// The shell with only its session replaced.
    pub open spec fn with_session(self, session: SessionView) -> ShellView {
        ShellView { session, ..self }
    }

    /// Whether the composer may submit a new turn: a connected client, a
    /// live thread, a ready status, and text or pending images.
    pub open spec fn can_submit(self) -> bool {
        &&& self.session.connected
        &&& self.session.thread_id is Some
        &&& self.session.status == StatusView::Ready
        &&& (trim(self.session.composer).len() > 0 || self.attachments.images.len() > 0)
    }

    /// Enter in the composer: an open mention popup inserts its pick; a
    /// bare slash command runs (when a turn could be submitted) and
    /// clears the composer; anything else submits the text and images
    /// as a turn (when allowed). The keyboard returns to the composer.
    pub open spec fn on_submit(self, mentions_open: bool) -> (ShellView, Seq<EffectView>) {
        if mentions_open {
            (self, seq![EffectView::InsertMention, EffectView::FocusComposer])
        } else {
            match spec_slash_action(self.session.composer) {
                Some(action) => if !self.can_submit() {
                    (self, seq![EffectView::FocusComposer])
                } else {
                    (
                        self.with_session(SessionView { composer: Seq::<char>::empty(), ..self.session }),
                        seq![
                            match action {
                                SlashAction::Review => EffectView::StartReview,
                                SlashAction::Compact => EffectView::CompactThread,
                            },
                            EffectView::FocusComposer,
                        ],
                    )
                },
                None => if !self.can_submit() {
                    (self, seq![EffectView::FocusComposer])
                } else {
                    (
                        ShellView {
                            session: SessionView {
                                composer: Seq::<char>::empty(),
                                status: StatusView::Thinking,
                                ..self.session
                            },
                            attachments: AttachmentsView { images: Seq::empty(), ..self.attachments },
                            ..self
                        },
                        seq![
                            EffectView::StartTurn {
                                prompt: self.session.composer,
                                images: self.attachments.images,
                            },
                            EffectView::FocusComposer,
                        ],
                    )
                },
            }
        }
    }

    /// A failed turn start hands the prompt and images back, reopens the
    /// composer and raises the banner; a started turn changes nothing.
    pub open spec fn on_turn_settled(
        self,
        prompt: Seq<char>,
        images: Seq<Seq<char>>,
        error: Option<Seq<char>>,
    ) -> (ShellView, Seq<EffectView>) {
        match error {
            None => (self, seq![]),
            Some(e) => (
                ShellView {
                    session: SessionView { composer: prompt, status: StatusView::Ready, ..self.session },
                    attachments: AttachmentsView { images, ..self.attachments },
                    ..self
                },
                seq![EffectView::RaiseBanner("turn failed to start: "@ + e)],
            ),
        }
    }

    /// A review or compaction start: success means a turn runs, failure
    /// raises the banner with `label`.
    pub open spec fn on_turn_kind_started(self, label: Seq<char>, error: Option<Seq<char>>) -> (
        ShellView,
        Seq<EffectView>,
    ) {
        match error {
            None => (self.with_session(SessionView { status: StatusView::Thinking, ..self.session }), seq![]),
            Some(e) => (self, seq![EffectView::RaiseBanner(label + " failed to start: "@ + e)]),
        }
    }

    /// A resumed thread: the chip goes, the thread, its binding and the
    /// ready status land, the status bar mirrors its model, its working
    /// directory is confirmed, its history replays and the list reloads.
    pub open spec fn on_session_resumed(self, t: ResumedThread) -> (ShellView, Seq<EffectView>) {
        (
            ShellView {
                session: SessionView {
                    thread_id: Some(t.thread_id@),
                    active_binding: Some((t.model_provider@, t.model@)),
                    status: StatusView::Ready,
                    ..self.session
                },
                quest: crate::state::QuestView { scenario: None, ..self.quest },
                ..self
            },
            seq![
                EffectView::SyncStatusModel(t.model@),
                EffectView::ConfirmCwd(t.cwd@),
                EffectView::ReplayHistory,
                EffectView::LoadSessions,
            ],
        )
    }

    /// A started bootstrap thread: its id and (when both are reported) its
    /// binding land, the status turns ready, and a reported working
    /// directory is confirmed.
    pub open spec fn on_thread_started(self, t: ThreadStarted) -> (ShellView, Seq<EffectView>) {
        (
            self.with_session(
                SessionView {
                    thread_id: crate::state::opt_view(t.thread_id),
                    active_binding: match (t.model_provider, t.model) {
                        (Some(p), Some(m)) => Some((p@, m@)),
                        _ => None,
                    },
                    status: StatusView::Ready,
                    ..self.session
                },
            ),
            match t.cwd {
                Some(c) => seq![EffectView::ConfirmCwd(c@)],
                None => seq![],
            },
        )
    }

    /// A relaunch: the epoch moves on (a fresh connection), the live
    /// thread, turn, binding, pending switch, skills root, attachments,
    /// request-dialog drafts and MCP sign-in banner go, the archived and MCP
    /// lists reload, and the status is back to bootstrapping.
    pub open spec fn on_reconnect(self) -> (ShellView, Seq<EffectView>) {
        (
            ShellView {
                session: SessionView {
                    connection_epoch: (self.session.connection_epoch + 1) as u64,
                    connected: false,
                    thread_id: None,
                    active_turn: None,
                    active_binding: None,
                    pending_model_apply: None,
                    codex_home: None,
                    status: StatusView::Bootstrapping,
                    ..self.session
                },
                attachments: AttachmentsView { images: Seq::empty(), hovered: false },
                panels: PanelsView {
                    archived_open: false,
                    archived_loaded: false,
                    mcp_loaded: false,
                    ..self.panels
                },
                mcp_login: None,
                requests: RequestDraftsView::empty(),
                ..self
            },
            seq![EffectView::ResetBackend],
        )
    }

    /// Whether a notification for `thread_id` concerns the live thread.
    pub open spec fn is_live(self, thread_id: Seq<char>) -> bool {
        self.session.thread_id == Some(thread_id)
    }
}

impl Shell {
    /// Whether the composer may submit a new turn.
    pub fn can_submit(&self) -> (r: bool)
        ensures
            r == self@.can_submit(),
    {
        let text = trim_str(self.session.composer.as_str());
        self.session.connected && self.session.thread_id.is_some() && match self.session.status {
            Status::Ready => true,
            _ => false,
        } && (!text.as_str().is_empty() || self.attachments.images.len() > 0)
    }

    /// A fresh backend connection arrived.
    pub fn connected(&mut self) -> (effects: Vec<Effect>)
        ensures
            final(self)@ == old(self)@.with_session(SessionView { connected: true, ..old(self)@.session }),
            effect_views(effects@) == seq![EffectView::Initialize],
    {
        self.session.connected = true;
        one(Effect::Initialize)
    }

    /// The composer text changed; the mention popup refreshes from it.
    pub fn composer_changed(&mut self, text: String) -> (effects: Vec<Effect>)
        ensures
            final(self)@ == old(self)@.with_session(SessionView { composer: text@, ..old(self)@.session }),
            effect_views(effects@) == seq![EffectView::RefreshMentions],
    {
        self.session.composer = text;
        one(Effect::RefreshMentions)
    }

    /// Clearing the composer closes the mention popup.
    pub fn composer_cleared(&mut self) -> (effects: Vec<Effect>)
        ensures
            final(self)@ == old(self)@.with_session(SessionView { composer: Seq::<char>::empty(), ..old(self)@.session }),
            effect_views(effects@) == seq![EffectView::CloseMentions],
    {
        self.session.composer = String::new();
        one(Effect::CloseMentions)
    }

    /// Enter in the composer; `mentions_open` tells whether the mention
    /// popup is up.
    pub fn submit(&mut self, mentions_open: bool) -> (effects: Vec<Effect>)
        ensures
            (final(self)@, effect_views(effects@)) == old(self)@.on_submit(mentions_open),
    {
        if mentions_open {
            return two(Effect::InsertMention, Effect::FocusComposer);
        }
        match slash_action(self.session.composer.as_str()) {
            Some(action) => {
                if !self.can_submit() {
                    return one(Effect::FocusComposer);
                }
                self.session.composer = String::new();
                let run = match action {
                    SlashAction::Review => Effect::StartReview,
                    SlashAction::Compact => Effect::CompactThread,
                };
                two(run, Effect::FocusComposer)
            },
            None => {
                if !self.can_submit() {
                    return one(Effect::FocusComposer);
                }
                let mut prompt = String::new();
                std::mem::swap(&mut prompt, &mut self.session.composer);
                let mut images: Vec<String> = Vec::new();
                std::mem::swap(&mut images, &mut self.attachments.images);
                self.session.status = Status::Thinking;
                let ghost expected = old(self)@.on_submit(mentions_open);
                assert(self.attachments@.images =~= Seq::<Seq<char>>::empty());
                assert(self.attachments@ == expected.0.attachments);
                assert(self.session@ == expected.0.session);
                two(Effect::StartTurn { prompt, images }, Effect::FocusComposer)
            },
        }
    }

    /// Clicking a `/` command row puts the command in the composer and
    /// submits it.
    pub fn slash_picked(&mut self, command: String, mentions_open: bool) -> (effects: Vec<Effect>)
        ensures
            (final(self)@, effect_views(effects@)) == old(self)@.with_session(
                SessionView { composer: command@, ..old(self)@.session },
            ).on_submit(mentions_open),
    {
        self.session.composer = command;
        self.submit(mentions_open)
    }

    /// The `turn/start` call settled; `prompt` and `images` are what was
    /// submitted.
    pub fn turn_settled(&mut self, prompt: String, images: Vec<String>, result: Result<(), String>) -> (effects: Vec<Effect>)
        ensures
            (final(self)@, effect_views(effects@)) == old(self)@.on_turn_settled(
                prompt@,
                images@.map_values(|p: String| p@),
                match result {
                    Ok(()) => None,
                    Err(e) => Some(e@),
                },
            ),
    {
        match result {
            Ok(()) => none(),
            Err(error) => {
                let ghost expected = old(self)@.on_turn_settled(
                    prompt@,
                    images@.map_values(|p: String| p@),
                    Some(error@),
                );
                self.session.composer = prompt;
                self.attachments.images = images;
                self.session.status = Status::Ready;
                assert(self.attachments@ == expected.0.attachments);
                let mut text = String::new();
                push_str(&mut text, "turn failed to start: ");
                push_str(&mut text, error.as_str());
                one(Effect::RaiseBanner(text))
            },
        }
    }

    /// The stop button: interrupt the live turn.
    pub fn turn_interrupt_requested(&mut self) -> (effects: Vec<Effect>)
        ensures
            final(self)@ == old(self)@,
            effect_views(effects@) == seq![EffectView::InterruptTurn, EffectView::FocusComposer],
    {
        two(Effect::InterruptTurn, Effect::FocusComposer)
    }

    /// The `turn/interrupt` call settled; a failure raises the banner.
    pub fn turn_interrupted(&mut self, result: Result<(), String>) -> (effects: Vec<Effect>)
        ensures
            final(self)@ == old(self)@,
            effect_views(effects@) == match result {
                Ok(()) => Seq::<EffectView>::empty(),
                Err(e) => seq![EffectView::RaiseBanner("turn interrupt failed: "@ + e@)],
            },
    {
        match result {
            Ok(()) => none(),
            Err(error) => {
                let mut text = String::new();
                push_str(&mut text, "turn interrupt failed: ");
                push_str(&mut text, error.as_str());
                one(Effect::RaiseBanner(text))
            },
        }
    }

    /// A review or compaction start settled; `label` names it in the
    /// banner (`review`, `compaction`).
    fn turn_kind_started(&mut self, label: &str, result: Result<(), String>) -> (effects: Vec<Effect>)
        ensures
            (final(self)@, effect_views(effects@)) == old(self)@.on_turn_kind_started(
                label@,
                match result {
                    Ok(()) => None,
                    Err(e) => Some(e@),
                },
            ),
    {
        match result {
            Ok(()) => {
                self.session.status = Status::Thinking;
                none()
            },
            Err(error) => {
                let mut text = String::new();
                push_str(&mut text, label);
                push_str(&mut text, " failed to start: ");
                push_str(&mut text, error.as_str());
                assert(text@ =~= label@ + " failed to start: "@ + error@);
                one(Effect::RaiseBanner(text))
            },
        }
    }

    /// The `review/start` call settled.
    pub fn review_started(&mut self, result: Result<(), String>) -> (effects: Vec<Effect>)
        ensures
            (final(self)@, effect_views(effects@)) == old(self)@.on_turn_kind_started(
                "review"@,
                match result {
                    Ok(()) => None,
                    Err(e) => Some(e@),
                },
            ),
    {
        self.turn_kind_started("review", result)
    }

    /// The `thread/compact/start` call settled.
    pub fn compaction_started(&mut self, result: Result<(), String>) -> (effects: Vec<Effect>)
        ensures
            (final(self)@, effect_views(effects@)) == old(self)@.on_turn_kind_started(
                "compaction"@,
                match result {
                    Ok(()) => None,
                    Err(e) => Some(e@),
                },
            ),
    {
        self.turn_kind_started("compaction", result)
    }

    /// The `initialize` handshake settled: success records the reported
    /// `codexHome`, starts the bootstrap thread and loads the side panels;
    /// failure disconnects.
    pub fn initialized(&mut self, result: Result<Option<String>, String>) -> (effects: Vec<Effect>)
        ensures
            match result {
                Ok(home) => final(self)@ == old(self)@.with_session(
                    SessionView { codex_home: opt_view(home), ..old(self)@.session },
                ) && effect_views(effects@) == seq![
                    EffectView::StartThread(None),
                    EffectView::LoadSessions,
                    EffectView::LoadModels,
                    EffectView::LoadAccount,
                    EffectView::LoadConfig,
                    EffectView::LoadSkills,
                ],
                Err(e) => final(self)@ == old(self)@.with_session(
                    SessionView { status: StatusView::Disconnected(e@), ..old(self)@.session },
                ) && effect_views(effects@) == Seq::<EffectView>::empty(),
            },
    {
        match result {
            Ok(home) => {
                self.session.codex_home = home;
                let effects = vec![
                    Effect::StartThread(None),
                    Effect::LoadSessions,
                    Effect::LoadModels,
                    Effect::LoadAccount,
                    Effect::LoadConfig,
                    Effect::LoadSkills,
                ];
                assert(effect_views(effects@) =~= seq![
                    EffectView::StartThread(None),
                    EffectView::LoadSessions,
                    EffectView::LoadModels,
                    EffectView::LoadAccount,
                    EffectView::LoadConfig,
                    EffectView::LoadSkills,
                ]);
                effects
            },
            Err(error) => {
                self.session.status = Status::Disconnected(error);
                none()
            },
        }
    }

    /// The bootstrap `thread/start` settled.
    pub fn thread_started(&mut self, result: Result<ThreadStarted, String>) -> (effects: Vec<Effect>)
        ensures
            match result {
                Ok(t) => (final(self)@, effect_views(effects@)) == old(self)@.on_thread_started(t),
                Err(e) => final(self)@ == old(self)@.with_session(
                    SessionView { status: StatusView::Disconnected(e@), ..old(self)@.session },
                ) && effect_views(effects@) == Seq::<EffectView>::empty(),
            },
    {
        match result {
            Ok(t) => {
                self.session.thread_id = t.thread_id;
                self.session.active_binding = match (t.model_provider, t.model) {
                    (Some(p), Some(m)) => Some((p, m)),
                    _ => None,
                };
                self.session.status = Status::Ready;
                match t.cwd {
                    Some(c) => one(Effect::ConfirmCwd(c)),
                    None => none(),
                }
            },
            Err(error) => {
                self.session.status = Status::Disconnected(error);
                none()
            },
        }
    }

    /// A `thread/resume` settled.
    pub fn session_resumed(&mut self, result: Result<ResumedThread, String>) -> (effects: Vec<Effect>)
        ensures
            match result {
                Ok(t) => (final(self)@, effect_views(effects@)) == old(self)@.on_session_resumed(t),
                Err(e) => final(self)@ == old(self)@.with_session(
                    SessionView { status: StatusView::Disconnected(e@), ..old(self)@.session },
                ) && effect_views(effects@) == Seq::<EffectView>::empty(),
            },
    {
        match result {
            Ok(t) => {
                self.quest.scenario = None;
                self.session.thread_id = Some(t.thread_id);
                self.session.active_binding = Some((t.model_provider, t.model.clone()));
                self.session.status = Status::Ready;
                let effects = vec![
                    Effect::SyncStatusModel(t.model),
                    Effect::ConfirmCwd(t.cwd),
                    Effect::ReplayHistory,
                    Effect::LoadSessions,
                ];
                assert(effect_views(effects@) =~= old(self)@.on_session_resumed(t).1);
                effects
            },
            Err(error) => {
                self.session.status = Status::Disconnected(error);
                none()
            },
        }
    }

    /// The backend connection is gone.
    pub fn disconnected(&mut self, reason: String)
        ensures
            final(self)@ == old(self)@.with_session(
                SessionView { status: StatusView::Disconnected(reason@), ..old(self)@.session },
            ),
    {
        self.session.status = Status::Disconnected(reason);
    }

    /// Relaunching the backend after a disconnect.
    pub fn reconnect(&mut self) -> (effects: Vec<Effect>)
        requires
            old(self).session.connection_epoch < u64::MAX,
        ensures
            (final(self)@, effect_views(effects@)) == old(self)@.on_reconnect(),
    {
        self.session.connection_epoch = self.session.connection_epoch + 1;
        self.session.connected = false;
        self.session.thread_id = None;
        self.session.active_turn = None;
        self.session.active_binding = None;
        self.session.pending_model_apply = None;
        self.session.codex_home = None;
        self.session.status = Status::Bootstrapping;
        self.attachments = Attachments::default();
        self.panels.archived_open = false;
        self.panels.archived_loaded = false;
        self.panels.mcp_loaded = false;
        self.mcp_login = None;
        self.requests = RequestDrafts::new();
        let ghost expected = old(self)@.on_reconnect();
        assert(self.attachments@.images =~= Seq::<Seq<char>>::empty());
        assert(self.attachments@ == expected.0.attachments);
        one(Effect::ResetBackend)
    }

    /// The root of the skills page's disk mutations: the reported
    /// `codexHome`, or, while the handshake has not reported one, the
    /// notice that every such mutation settles with.
    pub fn skills_home(&self) -> (r: Result<String, String>)
        ensures
            match self@.session.codex_home {
                Some(home) => r matches Ok(h) && h@ == home,
                None => r matches Err(e) && e@ == "app-server 尚未返回 codexHome，等待连接完成后再试"@,
            },
    {
        match &self.session.codex_home {
            Some(home) => Ok(home.clone()),
            None => Err(String::from_str("app-server 尚未返回 codexHome，等待连接完成后再试")),
        }
    }

    /// Whether `thread_id` is the live thread.
    fn is_live(&self, thread_id: &str) -> (r: bool)
        ensures
            r == self@.is_live(thread_id@),
    {
        match &self.session.thread_id {
            Some(t) => crate::text::eq_str(t.as_str(), thread_id),
            None => false,
        }
    }

    /// A turn started; on the live thread it becomes the turn the stop
    /// button interrupts.
    pub fn turn_started(&mut self, thread_id: &str, turn_id: String)
        ensures
            final(self)@ == if old(self)@.is_live(thread_id@) {
                old(self)@.with_session(SessionView { active_turn: Some(turn_id@), ..old(self)@.session })
            } else {
                old(self)@
            },
    {
        if self.is_live(thread_id) {
            self.session.active_turn = Some(turn_id);
        }
    }

    /// A turn completed; a finished turn on the live thread reopens the
    /// composer however it ended.
    pub fn turn_completed(&mut self, thread_id: &str, in_progress: bool)
        ensures
            final(self)@ == if old(self)@.is_live(thread_id@) && !in_progress {
                old(self)@.with_session(
                    SessionView { status: StatusView::Ready, active_turn: None, ..old(self)@.session },
                )
            } else {
                old(self)@
            },
    {
        if self.is_live(thread_id) && !in_progress {
            self.session.status = Status::Ready;
            self.session.active_turn = None;
        }
    }

    /// The running turn's cumulative diff moved; only the live thread's
    /// diff is kept.
    pub fn turn_diff_updated(&mut self, thread_id: &str, diff: String)
        ensures
            final(self)@ == if old(self)@.is_live(thread_id@) {
                old(self)@.with_session(SessionView { turn_diff: Some(diff@), ..old(self)@.session })
            } else {
                old(self)@
            },
    {
        if self.is_live(thread_id) {
            self.session.turn_diff = Some(diff);
        }
    }

    /// Token usage arrived; only the live thread's usage drives the
    /// context chip.
    pub fn token_usage_updated(&mut self, thread_id: &str, usage: TokenUsage)
        ensures
            final(self)@ == if old(self)@.is_live(thread_id@) {
                old(self)@.with_session(SessionView { token_usage: Some(usage), ..old(self)@.session })
            } else {
                old(self)@
            },
    {
        if self.is_live(thread_id) {
            self.session.token_usage = Some(usage);
        }
    }
}

} // verus!
