//! Shell transitions of the Quest shell: scenario picker, row menu, rename dialog, board.

use crate::message::QuestScenario;
use crate::state::QuestView;
use crate::state::opt_view;
use crate::state::QuestMenu;
use crate::state::QuestRename;
use crate::text::trim;
use crate::text::trim_str;
use crate::text::push_str;
use crate::shell::Shell;
use crate::shell::SessionView;
use crate::shell::ShellView;
use crate::shell::Effect;
use crate::shell::EffectView;
use crate::shell::effect_views;
use crate::shell::none;
use crate::shell::one;
use crate::shell::two;
use crate::shell::then;
use vstd::prelude::*;

verus! {

impl ShellView {
    /// The create button raises the scenario picker and closes any row
    /// menu.
    pub open spec fn on_quest_create_pressed(self) -> (ShellView, Seq<EffectView>) {
        (
            ShellView {
                quest: QuestView {
                    picker_open: true,
                    menu_thread: None,
                    confirm_delete: false,
                    ..self.quest
                },
                ..self
            },
            seq![],
        )
    }

    /// Picking a scenario seeds an empty composer with its template and
    /// opens a fresh thread; cancelling only closes the picker.
    pub open spec fn on_quest_scenario_picked(self, scenario: Option<QuestScenario>) -> (
        ShellView,
        Seq<EffectView>,
    ) {
        match scenario {
            None => (ShellView { quest: QuestView { picker_open: false, ..self.quest }, ..self }, seq![]),
            Some(sc) => ShellView {
                quest: QuestView { picker_open: false, scenario: Some(sc), ..self.quest },
                session: SessionView {
                    composer: if self.session.composer.len() == 0 {
                        sc.spec_template()
                    } else {
                        self.session.composer
                    },
                    ..self.session
                },
                ..self
            }.restarted(None),
        }
    }

    /// Pressing a row's menu entry: the open row closes, another row
    /// opens unarmed.
    pub open spec fn on_quest_menu_toggled(self, thread_id: Seq<char>) -> (ShellView, Seq<EffectView>) {
        (
            ShellView {
                quest: if self.quest.menu_thread == Some(thread_id) {
                    QuestView { menu_thread: None, confirm_delete: false, ..self.quest }
                } else {
                    QuestView { menu_thread: Some(thread_id), confirm_delete: false, ..self.quest }
                },
                ..self
            },
            seq![],
        )
    }

    /// The row menu reset to closed and unarmed.
    pub open spec fn menu_dismissed(self) -> ShellView {
        ShellView {
            quest: QuestView { menu_thread: None, confirm_delete: false, ..self.quest },
            ..self
        }
    }

    /// Confirming a quest delete: the row drops at once, the server
    /// deletes and the list reloads; deleting the live quest also opens a
    /// fresh thread.
    pub open spec fn on_quest_delete_requested(self, thread_id: Seq<char>) -> (
        ShellView,
        Seq<EffectView>,
    ) {
        let s = self.menu_dismissed();
        let base = seq![
            EffectView::RemoveSessionRow(thread_id),
            EffectView::DeleteThread(thread_id),
            EffectView::LoadSessions,
        ];
        if self.session.thread_id == Some(thread_id) {
            let r = ShellView { quest: QuestView { scenario: None, ..s.quest }, ..s }.restarted(None);
            (r.0, base + r.1)
        } else {
            (s, base)
        }
    }

    /// A settled fork: success reopens the new thread and reloads the
    /// list, failure raises the banner.
    pub open spec fn on_quest_forked(self, thread_id: Option<Seq<char>>, error: Seq<char>) -> (
        ShellView,
        Seq<EffectView>,
    ) {
        match thread_id {
            Some(t) => {
                let r = ShellView { quest: QuestView { scenario: None, ..self.quest }, ..self }.resumed(t);
                (r.0, r.1 + seq![EffectView::LoadSessions])
            },
            None => (self, seq![EffectView::RaiseBanner("fork failed: "@ + error)]),
        }
    }

    /// Asking to rename a quest opens the dialog seeded with its label.
    pub open spec fn on_quest_rename_requested(self, thread_id: Seq<char>, label: Seq<char>) -> (
        ShellView,
        Seq<EffectView>,
    ) {
        let s = self.menu_dismissed();
        (
            ShellView { quest: QuestView { rename: Some((thread_id, label)), ..s.quest }, ..s },
            seq![EffectView::FocusRenameInput],
        )
    }

    /// Confirming the rename: an empty (trimmed) draft keeps the dialog
    /// open, otherwise it closes and the trimmed name is sent.
    pub open spec fn on_quest_rename_confirmed(self) -> (ShellView, Seq<EffectView>) {
        match self.quest.rename {
            None => (self, seq![]),
            Some(r) => if trim(r.1).len() == 0 {
                (self, seq![])
            } else {
                (
                    ShellView { quest: QuestView { rename: None, ..self.quest }, ..self },
                    seq![EffectView::SetThreadName { thread_id: r.0, name: trim(r.1) }],
                )
            },
        }
    }

    /// Opening the board closes any row menu.
    pub open spec fn on_quest_board_toggled(self) -> (ShellView, Seq<EffectView>) {
        let opened = !self.quest.board_open;
        (
            ShellView {
                quest: if opened {
                    QuestView { board_open: true, menu_thread: None, confirm_delete: false, ..self.quest }
                } else {
                    QuestView { board_open: false, ..self.quest }
                },
                ..self
            },
            seq![],
        )
    }

    /// Picking a thread in the sidebar dismisses the transient overlays
    /// and the scenario chip, then resumes the thread.
    pub open spec fn on_session_selected(self, thread_id: Seq<char>) -> (ShellView, Seq<EffectView>) {
        ShellView {
            quest: QuestView { scenario: None, ..self.quest.closed_transient() },
            ..self
        }.resumed(thread_id)
    }

    /// A fresh conversation thread drops the scenario chip.
    pub open spec fn on_new_thread(self) -> (ShellView, Seq<EffectView>) {
        ShellView { quest: QuestView { scenario: None, ..self.quest }, ..self }.restarted(None)
    }
}


impl Shell {
    /// The Quest rail's create button.
    pub fn quest_create_pressed(&mut self) -> (effects: Vec<Effect>)
        ensures
            (final(self)@, effect_views(effects@)) == old(self)@.on_quest_create_pressed(),
    {
        self.quest.picker_open = true;
        self.quest.menu = QuestMenu::default();
        none()
    }

    /// Picking a scenario for the new Quest (`None` cancels the picker).
    pub fn quest_scenario_picked(&mut self, scenario: Option<QuestScenario>) -> (effects: Vec<Effect>)
        ensures
            (final(self)@, effect_views(effects@)) == old(self)@.on_quest_scenario_picked(scenario),
    {
        match scenario {
            None => {
                self.quest.picker_open = false;
                none()
            },
            Some(sc) => {
                let ghost mid = ShellView {
                    quest: QuestView { picker_open: false, scenario: Some(sc), ..old(self)@.quest },
                    session: SessionView {
                        composer: if old(self)@.session.composer.len() == 0 {
                            sc.spec_template()
                        } else {
                            old(self)@.session.composer
                        },
                        ..old(self)@.session
                    },
                    ..old(self)@
                };
                self.quest.picker_open = false;
                self.quest.scenario = Some(sc);
                if self.session.composer.as_str().is_empty() {
                    let mut seeded = String::new();
                    push_str(&mut seeded, sc.template());
                    assert(seeded@ =~= sc.spec_template());
                    self.session.composer = seeded;
                } else {
                    proof {
                        assert(self.session.composer@.len() > 0) by {
                            if self.session.composer@.len() == 0 {
                                assert(self.session.composer@ =~= Seq::<char>::empty());
                            }
                        }
                    }
                }
                assert(self.quest@ == mid.quest);
                assert(self@ == mid);
                self.restart_thread(None)
            },
        }
    }

    /// Toggling one quest row's action menu.
    pub fn quest_menu_toggled(&mut self, thread_id: String) -> (effects: Vec<Effect>)
        ensures
            (final(self)@, effect_views(effects@)) == old(self)@.on_quest_menu_toggled(thread_id@),
    {
        let ghost exp = old(self)@.on_quest_menu_toggled(thread_id@);
        let same = match &self.quest.menu.thread_id {
            Some(open) => crate::text::eq_str(open.as_str(), thread_id.as_str()),
            None => false,
        };
        let menu = if same {
            QuestMenu::default()
        } else {
            QuestMenu { thread_id: Some(thread_id), confirm_delete: false }
        };
        self.quest.menu = menu;
        assert(self.quest@ == exp.0.quest);
        assert(self@ == exp.0);
        none()
    }

    /// Dismissing the open quest action menu.
    pub fn quest_menu_closed(&mut self) -> (effects: Vec<Effect>)
        ensures
            final(self)@ == old(self)@.menu_dismissed(),
            effect_views(effects@) == Seq::<EffectView>::empty(),
    {
        self.quest.menu = QuestMenu::default();
        none()
    }

    /// Pressing the menu's delete entry once arms the confirmation.
    pub fn quest_delete_armed(&mut self) -> (effects: Vec<Effect>)
        ensures
            final(self)@ == (ShellView {
                quest: QuestView { confirm_delete: true, ..old(self)@.quest },
                ..old(self)@
            }),
            effect_views(effects@) == Seq::<EffectView>::empty(),
    {
        self.quest.menu.confirm_delete = true;
        none()
    }

    /// Confirming a quest delete from the action menu.
    pub fn quest_delete_requested(&mut self, thread_id: String) -> (effects: Vec<Effect>)
        ensures
            (final(self)@, effect_views(effects@)) == old(self)@.on_quest_delete_requested(thread_id@),
    {
        self.quest.menu = QuestMenu::default();
        let live = match &self.session.thread_id {
            Some(t) => crate::text::eq_str(t.as_str(), thread_id.as_str()),
            None => false,
        };
        let base = then(
            two(Effect::RemoveSessionRow(thread_id.clone()), Effect::DeleteThread(thread_id.clone())),
            one(Effect::LoadSessions),
        );
        assert(effect_views(base@) =~= seq![
            EffectView::RemoveSessionRow(thread_id@),
            EffectView::DeleteThread(thread_id@),
            EffectView::LoadSessions,
        ]);
        let ghost dismissed = old(self)@.menu_dismissed();
        assert(self@ == dismissed);
        if live {
            self.quest.scenario = None;
            assert(self@ == (ShellView { quest: QuestView { scenario: None, ..dismissed.quest }, ..dismissed }));
            let restart = self.restart_thread(None);
            then(base, restart)
        } else {
            base
        }
    }

    /// Asking to fork one quest.
    pub fn quest_fork_requested(&mut self, thread_id: String) -> (effects: Vec<Effect>)
        ensures
            final(self)@ == old(self)@.menu_dismissed(),
            effect_views(effects@) == seq![EffectView::ForkThread(thread_id@)],
    {
        self.quest.menu = QuestMenu::default();
        one(Effect::ForkThread(thread_id))
    }

    /// The fork settled: `Ok` carries the new thread id.
    pub fn quest_forked(&mut self, result: Result<String, String>) -> (effects: Vec<Effect>)
        ensures
            (final(self)@, effect_views(effects@)) == match result {
                Ok(t) => old(self)@.on_quest_forked(Some(t@), Seq::<char>::empty()),
                Err(e) => old(self)@.on_quest_forked(None, e@),
            },
    {
        match result {
            Ok(thread_id) => {
                self.quest.scenario = None;
                assert(self@ == (ShellView { quest: QuestView { scenario: None, ..old(self)@.quest }, ..old(self)@ }));
                let resumed = self.resume_thread(thread_id);
                then(resumed, one(Effect::LoadSessions))
            },
            Err(error) => {
                let mut text = String::new();
                push_str(&mut text, "fork failed: ");
                push_str(&mut text, error.as_str());
                one(Effect::RaiseBanner(text))
            },
        }
    }

    /// Asking to rename one quest; `label` is its current name.
    pub fn quest_rename_requested(&mut self, thread_id: String, label: String) -> (effects: Vec<Effect>)
        ensures
            (final(self)@, effect_views(effects@)) == old(self)@.on_quest_rename_requested(thread_id@, label@),
    {
        let ghost exp = old(self)@.on_quest_rename_requested(thread_id@, label@);
        self.quest.menu = QuestMenu::default();
        self.quest.rename = Some(QuestRename { thread_id, draft: label });
        assert(self.quest@ == exp.0.quest);
        assert(self@ == exp.0);
        one(Effect::FocusRenameInput)
    }

    /// The rename dialog draft changed.
    pub fn quest_rename_draft_changed(&mut self, text: String) -> (effects: Vec<Effect>)
        ensures
            final(self)@ == (ShellView {
                quest: QuestView {
                    rename: match old(self)@.quest.rename {
                        Some(r) => Some((r.0, text@)),
                        None => None,
                    },
                    ..old(self)@.quest
                },
                ..old(self)@
            }),
            effect_views(effects@) == Seq::<EffectView>::empty(),
    {
        match &mut self.quest.rename {
            Some(rename) => {
                rename.draft = text;
            },
            None => {},
        }
        none()
    }

    /// Confirming the rename draft.
    pub fn quest_rename_confirmed(&mut self) -> (effects: Vec<Effect>)
        ensures
            (final(self)@, effect_views(effects@)) == old(self)@.on_quest_rename_confirmed(),
    {
        let (thread_id, name) = match &self.quest.rename {
            None => {
                return none();
            },
            Some(rename) => (rename.thread_id.clone(), trim_str(rename.draft.as_str())),
        };
        if name.as_str().is_empty() {
            proof {
                assert(name@.len() == 0) by {
                    if name@.len() > 0 {
                        assert(name@ != Seq::<char>::empty());
                    }
                }
            }
            return none();
        }
        proof {
            assert(name@.len() > 0) by {
                if name@.len() == 0 {
                    assert(name@ =~= Seq::<char>::empty());
                }
            }
        }
        let ghost exp = old(self)@.on_quest_rename_confirmed();
        self.quest.rename = None;
        assert(self.quest@ == exp.0.quest);
        assert(self@ == exp.0);
        one(Effect::SetThreadName { thread_id, name })
    }

    /// Cancelling the rename dialog.
    pub fn quest_rename_cancelled(&mut self) -> (effects: Vec<Effect>)
        ensures
            final(self)@ == (ShellView { quest: QuestView { rename: None, ..old(self)@.quest }, ..old(self)@ }),
            effect_views(effects@) == Seq::<EffectView>::empty(),
    {
        self.quest.rename = None;
        none()
    }

    /// Opening or closing the My Quests board.
    pub fn quest_board_toggled(&mut self) -> (effects: Vec<Effect>)
        ensures
            (final(self)@, effect_views(effects@)) == old(self)@.on_quest_board_toggled(),
    {
        let ghost exp = old(self)@.on_quest_board_toggled();
        self.quest.board_open = !self.quest.board_open;
        if self.quest.board_open {
            self.quest.menu = QuestMenu::default();
        }
        assert(self.quest@ == exp.0.quest);
        assert(self@ == exp.0);
        none()
    }

    /// The launch page's workspace chip toggled its dropdown.
    pub fn quest_workspace_toggled(&mut self) -> (effects: Vec<Effect>)
        ensures
            final(self)@ == (ShellView {
                quest: QuestView { workspace_menu: !old(self)@.quest.workspace_menu, ..old(self)@.quest },
                ..old(self)@
            }),
            effect_views(effects@) == Seq::<EffectView>::empty(),
    {
        self.quest.workspace_menu = !self.quest.workspace_menu;
        none()
    }

    /// The rail's show-more hint expanded or collapsed the quest list.
    pub fn quest_list_expanded(&mut self) -> (effects: Vec<Effect>)
        ensures
            final(self)@ == (ShellView {
                quest: QuestView { list_expanded: !old(self)@.quest.list_expanded, ..old(self)@.quest },
                ..old(self)@
            }),
            effect_views(effects@) == Seq::<EffectView>::empty(),
    {
        self.quest.list_expanded = !self.quest.list_expanded;
        none()
    }

    /// The board search query changed.
    pub fn quest_board_filter_changed(&mut self, text: String) -> (effects: Vec<Effect>)
        ensures
            final(self)@ == (ShellView {
                quest: QuestView { board_filter: text@, ..old(self)@.quest },
                ..old(self)@
            }),
            effect_views(effects@) == Seq::<EffectView>::empty(),
    {
        self.quest.board_filter = text;
        none()
    }

    /// The board project tab changed; `None` is "all projects".
    pub fn quest_board_project_picked(&mut self, project: Option<String>) -> (effects: Vec<Effect>)
        ensures
            final(self)@ == (ShellView {
                quest: QuestView { board_project: opt_view(project), ..old(self)@.quest },
                ..old(self)@
            }),
            effect_views(effects@) == Seq::<EffectView>::empty(),
    {
        self.quest.board_project = project;
        none()
    }

    /// Dismissing every open Quest overlay.
    pub fn quest_overlays_closed(&mut self) -> (effects: Vec<Effect>)
        ensures
            final(self)@ == (ShellView { quest: old(self)@.quest.closed_transient(), ..old(self)@ }),
            effect_views(effects@) == Seq::<EffectView>::empty(),
    {
        self.quest.close_transient();
        none()
    }

    /// Picking a thread in the sidebar.
    pub fn session_selected(&mut self, thread_id: String) -> (effects: Vec<Effect>)
        ensures
            (final(self)@, effect_views(effects@)) == old(self)@.on_session_selected(thread_id@),
    {
        self.quest.close_transient();
        self.quest.scenario = None;
        self.resume_thread(thread_id)
    }

    /// Asking for a fresh conversation thread.
    pub fn new_thread_requested(&mut self) -> (effects: Vec<Effect>)
        ensures
            (final(self)@, effect_views(effects@)) == old(self)@.on_new_thread(),
    {
        self.quest.scenario = None;
        assert(self@ == (ShellView { quest: QuestView { scenario: None, ..old(self)@.quest }, ..old(self)@ }));
        self.restart_thread(None)
    }
}


} // verus!
