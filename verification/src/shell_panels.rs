//! Shell transitions of the panes, menus, overlays, cards and palette.

use crate::chat::step_search_hit;
use crate::chat::stepped_hit;
use crate::command_palette::confirmed_action;
use crate::command_palette::move_selection;
use crate::command_palette::moved_selection;
use crate::command_palette::spec_filtered;
use crate::commands::join;
use crate::message::AppMode;
use crate::message::MenuId;
use crate::message::Reaction;
use crate::message::SidebarTab;
use crate::plan_view::plan_lines;
use crate::plan_view::plan_text;
use crate::plan_view::TurnPlan;
use crate::state::indexes_below;
use crate::shell::effect_views;
use crate::shell::none;
use crate::shell::one;
use crate::shell::reacted;
use crate::shell::then;
use crate::shell::toggled;
use crate::shell::two;
use crate::shell::CardsView;
use crate::shell::Effect;
use crate::shell::EffectView;
use crate::shell::PanelsView;
use crate::shell::SessionView;
use crate::shell::Shell;
use crate::shell::ShellView;
use crate::state::ChatSearch;
use crate::state::GitView;
use crate::state::PaletteView;
use crate::state::SearchView;
use vstd::prelude::*;

verus! {

impl ShellView {
    /// The shell with only its panels replaced.
    pub open spec fn with_panels(self, panels: PanelsView) -> ShellView {
        ShellView { panels, ..self }
    }

    /// Clicking a menu title: the open one closes, another switches over.
    pub open spec fn on_menu_toggled(self, id: MenuId) -> ShellView {
        self.with_panels(
            PanelsView { menu: if self.panels.menu == Some(id) { None } else { Some(id) }, ..self.panels },
        )
    }

    /// Switching shells closes the menu and every transient quest overlay.
    pub open spec fn on_mode_toggled(self) -> ShellView {
        ShellView {
            panels: PanelsView {
                mode: match self.panels.mode {
                    AppMode::Editor => AppMode::Quest,
                    AppMode::Quest => AppMode::Editor,
                },
                menu: None,
                ..self.panels
            },
            quest: self.quest.closed_transient(),
            ..self
        }
    }

    /// The sidebar flips between files and threads (any other pane goes
    /// to files).
    pub open spec fn on_sidebar_toggled(self) -> ShellView {
        self.with_panels(
            PanelsView {
                sidebar_tab: if self.panels.sidebar_tab == SidebarTab::Files {
                    SidebarTab::Threads
                } else {
                    SidebarTab::Files
                },
                ..self.panels
            },
        )
    }

    /// Picking a pane: source control preselects every change when
    /// nothing is selected, the remote pane probes once, and leaving the
    /// search pane restores the full tree.
    pub open spec fn on_sidebar_tab(self, tab: SidebarTab, change_count: usize) -> (
        ShellView,
        Seq<EffectView>,
    ) {
        let select_all = tab == SidebarTab::SourceControl && self.git.selected == Set::<usize>::empty()
            && change_count > 0;
        let probe = tab == SidebarTab::Remote && !self.panels.remote_loaded;
        (
            ShellView {
                panels: PanelsView {
                    sidebar_tab: tab,
                    remote_loaded: self.panels.remote_loaded || probe,
                    ..self.panels
                },
                git: GitView {
                    selected: if select_all {
                        Set::new(|i: usize| i < change_count)
                    } else {
                        self.git.selected
                    },
                    ..self.git
                },
                ..self
            },
            (if probe { seq![EffectView::ProbeRemote] } else { seq![] }) + (if tab
                != SidebarTab::Search {
                seq![EffectView::ClearTreeSearch]
            } else {
                seq![]
            }),
        )
    }

    /// Quoting the live plan (when any) into the composer closes the plan
    /// overlay.
    pub open spec fn on_plan_quoted(self, plan: Option<TurnPlan>) -> ShellView {
        ShellView {
            session: SessionView {
                composer: match plan {
                    Some(p) => join(plan_lines(p), "\n"@),
                    None => self.session.composer,
                },
                ..self.session
            },
            panels: PanelsView { plan_overlay_open: false, ..self.panels },
            ..self
        }
    }

    /// Confirming the highlighted palette row: only while the palette is
    /// open and the cursor is on a row; the palette closes and the row's
    /// command runs.
    pub open spec fn on_palette_confirmed(self) -> (ShellView, Seq<EffectView>) {
        let rows = spec_filtered(self.palette.query);
        if !self.palette.open || self.palette.selected >= rows.len() {
            (self, seq![])
        } else {
            (
                ShellView {
                    palette: PaletteView { open: false, query: Seq::<char>::empty(), selected: 0 },
                    ..self
                },
                seq![EffectView::RunPalette(rows[self.palette.selected as int].1)],
            )
        }
    }
}

impl Shell {
    /// Clicking a menu title.
    pub fn menu_toggled(&mut self, id: MenuId)
        ensures
            final(self)@ == old(self)@.on_menu_toggled(id),
    {
        self.panels.menu = if self.panels.menu == Some(id) { None } else { Some(id) };
    }

    /// Dismissing the open top-menu dropdown.
    pub fn menu_closed(&mut self)
        ensures
            final(self)@ == old(self)@.with_panels(PanelsView { menu: None, ..old(self)@.panels }),
    {
        self.panels.menu = None;
    }

    /// Switching between the editor and Quest shells.
    pub fn mode_toggled(&mut self)
        ensures
            final(self)@ == old(self)@.on_mode_toggled(),
    {
        self.panels.mode = match self.panels.mode {
            AppMode::Editor => AppMode::Quest,
            AppMode::Quest => AppMode::Editor,
        };
        self.panels.menu = None;
        self.quest.close_transient();
    }

    /// Flipping the sidebar between files and threads.
    pub fn sidebar_toggled(&mut self)
        ensures
            final(self)@ == old(self)@.on_sidebar_toggled(),
    {
        self.panels.sidebar_tab = if self.panels.sidebar_tab == SidebarTab::Files {
            SidebarTab::Threads
        } else {
            SidebarTab::Files
        };
    }

    /// Picking a sidebar pane; `change_count` is the number of changed
    /// files in the working tree.
    pub fn sidebar_tab_picked(&mut self, tab: SidebarTab, change_count: usize) -> (effects: Vec<Effect>)
        ensures
            (final(self)@, effect_views(effects@)) == old(self)@.on_sidebar_tab(tab, change_count),
    {
        let ghost expected = old(self)@.on_sidebar_tab(tab, change_count);
        self.panels.sidebar_tab = tab;
        if tab == SidebarTab::SourceControl && self.git_overlay.selected.is_empty() && change_count > 0 {
            self.git_overlay.selected = indexes_below(change_count);
        }
        let probe = tab == SidebarTab::Remote && !self.panels.remote_loaded;
        let first = if probe {
            self.panels.remote_loaded = true;
            one(Effect::ProbeRemote)
        } else {
            none()
        };
        let second = if tab != SidebarTab::Search {
            one(Effect::ClearTreeSearch)
        } else {
            none()
        };
        let effects = then(first, second);
        assert(effect_views(effects@) =~= expected.1);
        assert(self.git_overlay@ == expected.0.git);
        assert(self.panels@ == expected.0.panels);
        effects
    }

    /// Copying one message body to the clipboard.
    pub fn copy_message(&mut self, id: String, text: String) -> (effects: Vec<Effect>)
        ensures
            final(self)@ == old(self)@.with_panels(PanelsView { copied_id: Some(id@), ..old(self)@.panels }),
            effect_views(effects@) == seq![EffectView::CopyToClipboard(text@)],
    {
        self.panels.copied_id = Some(id);
        one(Effect::CopyToClipboard(text))
    }

    /// Toggling like/dislike on one agent message.
    pub fn reaction_toggled(&mut self, id: &str, reaction: Reaction)
        ensures
            final(self)@ == (ShellView {
                cards: CardsView { reactions: reacted(old(self)@.cards.reactions, id@, reaction), ..old(self)@.cards },
                ..old(self)@
            }),
    {
        self.cards.reactions.toggle(id, reaction);
    }

    /// Expanding or collapsing one command tool card.
    pub fn command_card_toggled(&mut self, id: &str)
        ensures
            final(self)@ == (ShellView {
                cards: CardsView {
                    expanded_commands: toggled(old(self)@.cards.expanded_commands, id@),
                    ..old(self)@.cards
                },
                ..old(self)@
            }),
    {
        self.cards.expanded_commands.toggle(id);
    }

    /// Expanding or collapsing one reasoning card (they open by default).
    pub fn reasoning_toggled(&mut self, id: &str)
        ensures
            final(self)@ == (ShellView {
                cards: CardsView {
                    collapsed_reasoning: toggled(old(self)@.cards.collapsed_reasoning, id@),
                    ..old(self)@.cards
                },
                ..old(self)@
            }),
    {
        self.cards.collapsed_reasoning.toggle(id);
    }

    /// Expanding or collapsing one MCP call card (they start collapsed).
    pub fn mcp_card_toggled(&mut self, id: &str)
        ensures
            final(self)@ == (ShellView {
                cards: CardsView { expanded_mcp: toggled(old(self)@.cards.expanded_mcp, id@), ..old(self)@.cards },
                ..old(self)@
            }),
    {
        self.cards.expanded_mcp.toggle(id);
    }

    /// Expanding or collapsing one run of consecutive command cards.
    pub fn command_group_toggled(&mut self, id: &str)
        ensures
            final(self)@ == (ShellView {
                cards: CardsView {
                    expanded_command_groups: toggled(old(self)@.cards.expanded_command_groups, id@),
                    ..old(self)@.cards
                },
                ..old(self)@
            }),
    {
        self.cards.expanded_command_groups.toggle(id);
    }

    /// Opening the transcript search bar.
    pub fn chat_search_opened(&mut self) -> (effects: Vec<Effect>)
        ensures
            final(self)@ == (ShellView { search: SearchView { open: true, ..old(self)@.search }, ..old(self)@ }),
            effect_views(effects@) == seq![EffectView::FocusSearchInput],
    {
        self.chat_search.open = true;
        one(Effect::FocusSearchInput)
    }

    /// Closing the transcript search bar resets it.
    pub fn chat_search_closed(&mut self)
        ensures
            final(self)@ == (ShellView {
                search: SearchView { open: false, query: Seq::<char>::empty(), hit: 0 },
                ..old(self)@
            }),
    {
        self.chat_search = ChatSearch::default();
    }

    /// A new search query starts from the first hit.
    pub fn chat_search_query_changed(&mut self, query: String)
        ensures
            final(self)@ == (ShellView { search: SearchView { query: query@, hit: 0, ..old(self)@.search }, ..old(self)@ }),
    {
        self.chat_search.query = query;
        self.chat_search.hit = 0;
    }

    /// Stepping to the next or previous of `hits` transcript hits.
    pub fn chat_search_stepped(&mut self, delta: i32, hits: usize)
        requires
            old(self).chat_search.hit <= i32::MAX,
            hits <= i32::MAX,
            i32::MIN <= old(self).chat_search.hit + delta <= i32::MAX,
        ensures
            final(self)@ == (ShellView {
                search: SearchView {
                    hit: stepped_hit(old(self)@.search.hit as int, hits as int, delta as int) as usize,
                    ..old(self)@.search
                },
                ..old(self)@
            }),
    {
        step_search_hit(&mut self.chat_search, hits, delta);
    }

    /// The sidebar thread-filter text changed.
    pub fn sidebar_filter_changed(&mut self, filter: String)
        ensures
            final(self)@ == old(self)@.with_panels(PanelsView { sidebar_filter: filter@, ..old(self)@.panels }),
    {
        self.panels.sidebar_filter = filter;
    }

    /// The workspace replace-with draft changed.
    pub fn search_replace_changed(&mut self, replacement: String)
        ensures
            final(self)@ == old(self)@.with_panels(PanelsView { search_replace: replacement@, ..old(self)@.panels }),
    {
        self.panels.search_replace = replacement;
    }

    /// The extension-marketplace filter changed.
    pub fn extension_filter_changed(&mut self, filter: String)
        ensures
            final(self)@ == old(self)@.with_panels(PanelsView { extension_filter: filter@, ..old(self)@.panels }),
    {
        self.panels.extension_filter = filter;
    }

    /// Opening or closing the turn-diff overlay.
    pub fn diff_overlay_toggled(&mut self)
        ensures
            final(self)@ == old(self)@.with_panels(
                PanelsView { diff_overlay_open: !old(self)@.panels.diff_overlay_open, ..old(self)@.panels },
            ),
    {
        self.panels.diff_overlay_open = !self.panels.diff_overlay_open;
    }

    /// Picking a file in the diff overlay.
    pub fn diff_file_selected(&mut self, index: usize)
        ensures
            final(self)@ == old(self)@.with_panels(PanelsView { diff_selected: Some(index), ..old(self)@.panels }),
    {
        self.panels.diff_selected = Some(index);
    }

    /// Opening or closing the plan review overlay.
    pub fn plan_overlay_toggled(&mut self)
        ensures
            final(self)@ == old(self)@.with_panels(
                PanelsView { plan_overlay_open: !old(self)@.panels.plan_overlay_open, ..old(self)@.panels },
            ),
    {
        self.panels.plan_overlay_open = !self.panels.plan_overlay_open;
    }

    /// Quoting the live plan (`None` when there is none) into the composer.
    pub fn plan_quoted(&mut self, plan: Option<&TurnPlan>)
        ensures
            final(self)@ == old(self)@.on_plan_quoted(
                match plan {
                    Some(p) => Some(*p),
                    None => None,
                },
            ),
    {
        match plan {
            Some(p) => {
                self.session.composer = plan_text(p);
            },
            None => {},
        }
        self.panels.plan_overlay_open = false;
    }

    /// Opening or closing the command palette clears its query and cursor.
    pub fn palette_toggled(&mut self) -> (effects: Vec<Effect>)
        ensures
            final(self)@ == (ShellView {
                palette: PaletteView { open: !old(self)@.palette.open, query: Seq::<char>::empty(), selected: 0 },
                ..old(self)@
            }),
            effect_views(effects@) == if !old(self)@.palette.open {
                seq![EffectView::FocusPaletteInput]
            } else {
                seq![]
            },
    {
        self.palette.open = !self.palette.open;
        self.palette.query = String::new();
        self.palette.selected = 0;
        if self.palette.open {
            one(Effect::FocusPaletteInput)
        } else {
            none()
        }
    }

    /// A new palette query starts from the first row.
    pub fn palette_query_changed(&mut self, query: String)
        ensures
            final(self)@ == (ShellView { palette: PaletteView { query: query@, selected: 0, ..old(self)@.palette }, ..old(self)@ }),
    {
        self.palette.query = query;
        self.palette.selected = 0;
    }

    /// Moving the palette cursor within the filtered rows.
    pub fn palette_moved(&mut self, delta: i32)
        requires
            old(self).palette.selected <= i32::MAX,
            i32::MIN <= old(self).palette.selected + delta <= i32::MAX,
        ensures
            final(self)@ == (ShellView {
                palette: PaletteView {
                    selected: moved_selection(
                        old(self)@.palette.selected as int,
                        delta as int,
                        spec_filtered(old(self)@.palette.query).len() as int,
                    ) as usize,
                    ..old(self)@.palette
                },
                ..old(self)@
            }),
    {
        move_selection(&mut self.palette, delta);
    }

    /// Confirming the highlighted palette row.
    pub fn palette_confirmed(&mut self) -> (effects: Vec<Effect>)
        ensures
            (final(self)@, effect_views(effects@)) == old(self)@.on_palette_confirmed(),
    {
        if !self.palette.open {
            return none();
        }
        match confirmed_action(&self.palette) {
            Some(command) => {
                self.palette.open = false;
                self.palette.query = String::new();
                self.palette.selected = 0;
                one(Effect::RunPalette(command))
            },
            None => none(),
        }
    }

    /// Opening the model menu refreshes the config and the catalog.
    pub fn model_menu_toggled(&mut self) -> (effects: Vec<Effect>)
        ensures
            final(self)@ == old(self)@.with_panels(
                PanelsView { model_menu_open: !old(self)@.panels.model_menu_open, ..old(self)@.panels },
            ),
            effect_views(effects@) == if !old(self)@.panels.model_menu_open {
                seq![EffectView::LoadConfig, EffectView::LoadModels]
            } else {
                seq![]
            },
    {
        self.panels.model_menu_open = !self.panels.model_menu_open;
        if self.panels.model_menu_open {
            two(Effect::LoadConfig, Effect::LoadModels)
        } else {
            none()
        }
    }

    /// Dismissing the model menu without a pick.
    pub fn model_menu_closed(&mut self)
        ensures
            final(self)@ == old(self)@.with_panels(PanelsView { model_menu_open: false, ..old(self)@.panels }),
    {
        self.panels.model_menu_open = false;
    }

    /// Expanding the archived section loads it the first time.
    pub fn archived_toggled(&mut self) -> (effects: Vec<Effect>)
        ensures
            final(self)@ == old(self)@.with_panels(
                PanelsView { archived_open: !old(self)@.panels.archived_open, ..old(self)@.panels },
            ),
            effect_views(effects@) == if !old(self)@.panels.archived_open && !old(self)@.panels.archived_loaded {
                seq![EffectView::LoadArchivedSessions]
            } else {
                seq![]
            },
    {
        self.panels.archived_open = !self.panels.archived_open;
        if self.panels.archived_open && !self.panels.archived_loaded {
            one(Effect::LoadArchivedSessions)
        } else {
            none()
        }
    }

    /// An archived-list page settled (either way); the section stops
    /// showing its loading state.
    pub fn archived_sessions_settled(&mut self)
        ensures
            final(self)@ == old(self)@.with_panels(PanelsView { archived_loaded: true, ..old(self)@.panels }),
    {
        self.panels.archived_loaded = true;
    }

    /// An MCP inventory page settled (either way); the panel stops showing
    /// its loading state.
    pub fn mcp_servers_settled(&mut self)
        ensures
            final(self)@ == old(self)@.with_panels(PanelsView { mcp_loaded: true, ..old(self)@.panels }),
    {
        self.panels.mcp_loaded = true;
    }
}

} // verus!
