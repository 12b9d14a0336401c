use codex_gui_ui::message::AppMode;
use codex_gui_ui::message::MenuId;
use codex_gui_ui::message::Reaction;
use codex_gui_ui::message::SidebarTab;
use codex_gui_ui::shell::Effect;
use codex_gui_ui::shell::Shell;
use codex_gui_ui::state::FileBody;
use codex_gui_ui::state::Status;

fn body_of<'a>(shell: &'a Shell, path: &str) -> Option<&'a FileBody> {
    shell
        .editor
        .bodies
        .iter()
        .find(|(p, _)| p == path)
        .map(|(_, body)| body)
}

#[test]
fn dropped_images_attach_and_other_files_are_ignored() {
    let mut shell = Shell::new();

    shell.file_dropped("/tmp/shot.png");
    shell.file_dropped("/tmp/notes.txt");
    // The same image twice stays a single chip.
    shell.file_dropped("/tmp/shot.png");

    assert_eq!(shell.attachments.images, vec![String::from("/tmp/shot.png")]);
    assert!(!shell.attachments.hovered, "the drop settles the hover");
}

#[test]
fn attachment_chips_are_dismissible_by_position() {
    let mut shell = Shell::new();
    shell.attachments.images = vec![String::from("/tmp/a.png"), String::from("/tmp/b.png")];

    shell.attachment_removed(0);
    shell.attachment_removed(9);

    assert_eq!(shell.attachments.images, vec![String::from("/tmp/b.png")]);
}

#[test]
fn picked_images_attach_in_order_and_settle_the_hover() {
    let mut shell = Shell::new();
    shell.drag_hovered();
    assert!(shell.attachments.hovered);

    shell.images_picked(vec![
        String::from("/tmp/a.png"),
        String::from("/tmp/readme.md"),
        String::from("/tmp/b.JPG"),
        String::from("/tmp/a.png"),
    ]);

    assert_eq!(
        shell.attachments.images,
        vec![String::from("/tmp/a.png"), String::from("/tmp/b.JPG")],
    );
    assert!(!shell.attachments.hovered);
}

#[test]
fn drag_leave_clears_the_hover() {
    let mut shell = Shell::new();
    shell.drag_hovered();
    shell.drag_left();
    assert!(!shell.attachments.hovered);
}

#[test]
fn picked_folder_reopens_the_thread_inside_it() {
    let mut shell = Shell::new();
    shell.session.thread_id = Some(String::from("stale"));
    shell.session.status = Status::Ready;
    let _ = shell.editor.open("/tmp/sim-stale-workspace.txt");
    shell.quest.workspace_menu = true;

    let effects = shell.folder_picked(Some(String::from("/tmp/proj")));

    // The stale thread is dropped and a fresh one requested inside the
    // folder; the bootstrapping status stays on until it lands.
    assert!(shell.session.thread_id.is_none());
    assert_eq!(shell.session.status, Status::Bootstrapping);
    assert_eq!(
        effects,
        vec![
            Effect::ResetTree(String::from("/tmp/proj")),
            Effect::ResetConversation,
            Effect::StartThread(Some(String::from("/tmp/proj"))),
        ],
    );
    // Previews from the old workspace go away with it, and the picker
    // closes along with the choice.
    assert_eq!(shell.editor.tabs, Vec::<String>::new());
    assert_eq!(shell.editor.active, None);
    assert!(!shell.quest.workspace_menu);
}

#[test]
fn cancelled_folder_pick_keeps_the_live_session() {
    let mut shell = Shell::new();
    shell.session.thread_id = Some(String::from("live"));
    shell.session.status = Status::Ready;

    let effects = shell.folder_picked(None);

    assert!(effects.is_empty());
    assert_eq!(shell.session.thread_id, Some(String::from("live")));
    assert_eq!(shell.session.status, Status::Ready);
}

#[test]
fn picked_folder_resets_the_tree_root() {
    let mut shell = Shell::new();

    let effects = shell.folder_picked(Some(String::from("/tmp/proj")));

    assert_eq!(effects[0], Effect::ResetTree(String::from("/tmp/proj")));
    assert_eq!(shell.session.status, Status::Bootstrapping);
}

#[test]
fn sidebar_tab_toggles_between_threads_and_files() {
    let mut shell = Shell::new();
    // The editor shell opens on the file tree.
    assert_eq!(shell.panels.sidebar_tab, SidebarTab::Files);

    shell.sidebar_toggled();
    assert_eq!(shell.panels.sidebar_tab, SidebarTab::Threads);

    shell.sidebar_toggled();
    assert_eq!(shell.panels.sidebar_tab, SidebarTab::Files);
}

#[test]
fn tree_file_selection_opens_the_central_preview() {
    let mut shell = Shell::new();
    let file = String::from("/tmp/codex-gui-tree-select.txt");

    let effects = shell.tree_file_selected(file.clone());

    assert_eq!(effects, vec![Effect::ReadPreview(file.clone())]);
    assert_eq!(shell.editor.active, Some(file.clone()));
    assert_eq!(shell.editor.tabs, vec![file.clone()]);
    assert_eq!(body_of(&shell, &file), Some(&FileBody::Loading));

    // Re-selecting the same file keeps a single tab and just focuses it.
    let effects = shell.tree_file_selected(file.clone());
    assert!(effects.is_empty());
    assert_eq!(shell.editor.tabs, vec![file.clone()]);
    assert_eq!(shell.editor.active, Some(file));
}

#[test]
fn a_loaded_preview_body_replaces_the_loading_marker() {
    let mut shell = Shell::new();
    let _ = shell.tree_file_selected(String::from("/tmp/a.rs"));

    shell.file_preview_loaded("/tmp/a.rs", FileBody::Text(String::from("fn main() {}")));

    assert_eq!(
        body_of(&shell, "/tmp/a.rs"),
        Some(&FileBody::Text(String::from("fn main() {}"))),
    );
    assert_eq!(shell.editor.bodies.len(), 1);
}

#[test]
fn selecting_a_preview_tab_focuses_only_open_tabs() {
    let mut shell = Shell::new();
    let _ = shell.tree_file_selected(String::from("/tmp/a.rs"));
    let _ = shell.tree_file_selected(String::from("/tmp/b.rs"));

    shell.file_preview_selected("/tmp/a.rs");
    assert_eq!(shell.editor.active, Some(String::from("/tmp/a.rs")));

    shell.file_preview_selected("/tmp/never-opened.rs");
    assert_eq!(shell.editor.active, Some(String::from("/tmp/a.rs")));
}

#[test]
fn closing_the_active_preview_tab_activates_the_left_neighbor() {
    let mut shell = Shell::new();
    let first = String::from("/tmp/first.rs");
    let second = String::from("/tmp/second.rs");
    assert!(shell.editor.open(&first));
    assert!(shell.editor.open(&second));

    shell.file_preview_closed(&second);

    assert_eq!(shell.editor.tabs, vec![first.clone()]);
    assert_eq!(shell.editor.active, Some(first));
    assert!(body_of(&shell, &second).is_none());
}

#[test]
fn closing_an_inactive_preview_tab_keeps_the_active_one() {
    let mut shell = Shell::new();
    let first = String::from("/tmp/first.rs");
    let second = String::from("/tmp/second.rs");
    assert!(shell.editor.open(&first));
    assert!(shell.editor.open(&second));

    shell.file_preview_closed(&first);

    assert_eq!(shell.editor.tabs, vec![second.clone()]);
    assert_eq!(shell.editor.active, Some(second));
}

#[test]
fn activity_bar_tab_selection_sets_the_sidebar_pane() {
    let mut shell = Shell::new();

    let _ = shell.sidebar_tab_picked(SidebarTab::Files, 0);
    assert_eq!(shell.panels.sidebar_tab, SidebarTab::Files);

    let _ = shell.sidebar_tab_picked(SidebarTab::Threads, 0);
    assert_eq!(shell.panels.sidebar_tab, SidebarTab::Threads);
}

#[test]
fn every_activity_bar_pane_is_reachable() {
    let mut shell = Shell::new();
    for tab in [
        SidebarTab::Search,
        SidebarTab::SourceControl,
        SidebarTab::Wiki,
        SidebarTab::Debug,
        SidebarTab::Remote,
        SidebarTab::Extensions,
    ] {
        let _ = shell.sidebar_tab_picked(tab, 0);
        assert_eq!(shell.panels.sidebar_tab, tab);
    }
}

#[test]
fn source_control_preselects_every_change_once() {
    let mut shell = Shell::new();

    let effects = shell.sidebar_tab_picked(SidebarTab::SourceControl, 3);

    assert_eq!(effects, vec![Effect::ClearTreeSearch]);
    assert_eq!(shell.git_overlay.selected.len(), 3);

    shell.git_file_toggled(1);
    let _ = shell.sidebar_tab_picked(SidebarTab::SourceControl, 3);
    assert_eq!(shell.git_overlay.selected.len(), 2, "a selection is kept");
}

#[test]
fn the_remote_pane_probes_only_on_its_first_visit() {
    let mut shell = Shell::new();

    let effects = shell.sidebar_tab_picked(SidebarTab::Remote, 0);
    assert_eq!(effects, vec![Effect::ProbeRemote, Effect::ClearTreeSearch]);

    let effects = shell.sidebar_tab_picked(SidebarTab::Remote, 0);
    assert_eq!(effects, vec![Effect::ClearTreeSearch]);

    let effects = shell.sidebar_tab_picked(SidebarTab::Search, 0);
    assert!(effects.is_empty(), "the search pane keeps its filtered tree");
}

#[test]
fn mode_toggle_switches_between_editor_and_quest() {
    let mut shell = Shell::new();
    assert_eq!(shell.panels.mode, AppMode::Editor);

    shell.mode_toggled();
    assert_eq!(shell.panels.mode, AppMode::Quest);

    shell.mode_toggled();
    assert_eq!(shell.panels.mode, AppMode::Editor);
}

#[test]
fn menu_toggle_opens_switches_and_closes_dropdowns() {
    let mut shell = Shell::new();
    assert_eq!(shell.panels.menu, None);

    shell.menu_toggled(MenuId::File);
    assert_eq!(shell.panels.menu, Some(MenuId::File), "first click opens");

    shell.menu_toggled(MenuId::View);
    assert_eq!(shell.panels.menu, Some(MenuId::View), "another title takes over");

    shell.menu_toggled(MenuId::View);
    assert_eq!(shell.panels.menu, None, "same title closes");

    shell.menu_toggled(MenuId::Help);
    shell.menu_closed();
    assert_eq!(shell.panels.menu, None, "Esc dismisses the dropdown");
}

#[test]
fn mode_toggle_dismisses_the_open_menu() {
    let mut shell = Shell::new();

    shell.menu_toggled(MenuId::View);
    shell.mode_toggled();

    assert_eq!(shell.panels.menu, None);
    assert_eq!(shell.panels.mode, AppMode::Quest);
}

#[test]
fn mode_toggle_closes_the_quest_overlays() {
    let mut shell = Shell::new();
    shell.panels.mode = AppMode::Quest;
    shell.quest.picker_open = true;
    shell.quest.board_open = true;

    shell.mode_toggled();

    assert_eq!(shell.panels.mode, AppMode::Editor);
    assert!(!shell.quest.picker_open);
    assert!(!shell.quest.board_open);
}

#[test]
fn copy_message_records_the_feedback_target() {
    let mut shell = Shell::new();

    let effects = shell.copy_message(String::from("m1"), String::from("hello world"));

    assert_eq!(shell.panels.copied_id.as_deref(), Some("m1"));
    assert_eq!(effects, vec![Effect::CopyToClipboard(String::from("hello world"))]);

    // A later copy moves the feedback along.
    let _ = shell.copy_message(String::from("m2"), String::from("again"));
    assert_eq!(shell.panels.copied_id.as_deref(), Some("m2"));
}

#[test]
fn reaction_toggle_replaces_then_clears() {
    let mut shell = Shell::new();

    shell.reaction_toggled("m1", Reaction::Up);
    assert_eq!(shell.cards.reactions.get("m1"), Some(Reaction::Up));

    // The opposite reaction replaces rather than stacking.
    shell.reaction_toggled("m1", Reaction::Down);
    assert_eq!(shell.cards.reactions.get("m1"), Some(Reaction::Down));

    // Pressing the same reaction again clears it.
    shell.reaction_toggled("m1", Reaction::Down);
    assert_eq!(shell.cards.reactions.get("m1"), None);
}

#[test]
fn command_card_toggle_expands_then_collapses() {
    let mut shell = Shell::new();

    shell.command_card_toggled("c1");
    assert!(shell.cards.expanded_commands.contains("c1"));

    shell.command_card_toggled("c1");
    assert!(!shell.cards.expanded_commands.contains("c1"));
}

#[test]
fn card_toggles_track_their_expansion_sets() {
    let mut shell = Shell::new();

    shell.reasoning_toggled("reason-1");
    assert!(shell.cards.collapsed_reasoning.contains("reason-1"));
    shell.reasoning_toggled("reason-1");
    assert!(shell.cards.collapsed_reasoning.is_empty());

    shell.mcp_card_toggled("call-1");
    assert!(shell.cards.expanded_mcp.contains("call-1"));
    shell.mcp_card_toggled("call-1");
    assert!(shell.cards.expanded_mcp.is_empty());
}

#[test]
fn command_groups_expand_independently() {
    let mut shell = Shell::new();

    shell.command_group_toggled("g1");
    shell.command_group_toggled("g2");
    shell.command_group_toggled("g1");

    assert!(!shell.cards.expanded_command_groups.contains("g1"));
    assert!(shell.cards.expanded_command_groups.contains("g2"));
}

#[test]
fn palette_toggle_and_query_reset_the_selection() {
    let mut shell = Shell::new();
    assert!(!shell.palette.open);

    let effects = shell.palette_toggled();
    assert!(shell.palette.open);
    assert_eq!(effects, vec![Effect::FocusPaletteInput]);

    shell.palette_query_changed(String::from("se"));
    assert_eq!(shell.palette.query, "se");

    let _ = shell.palette_toggled();
    assert!(!shell.palette.open);
    assert!(shell.palette.query.is_empty(), "closing clears the query");
    assert_eq!(shell.palette.selected, 0, "closing resets the cursor");
}

#[test]
fn a_confirmed_palette_row_runs_its_command_and_closes() {
    let mut shell = Shell::new();
    let _ = shell.palette_toggled();
    shell.palette_query_changed(String::from("settings"));

    let effects = shell.palette_confirmed();

    assert_eq!(effects.len(), 1);
    assert!(matches!(effects[0], Effect::RunPalette(_)));
    assert!(!shell.palette.open);
}

#[test]
fn a_closed_palette_confirms_nothing() {
    let mut shell = Shell::new();

    assert!(shell.palette_confirmed().is_empty());
}

#[test]
fn diff_overlay_toggles_and_selects_files() {
    let mut shell = Shell::new();

    shell.diff_overlay_toggled();
    assert!(shell.panels.diff_overlay_open);

    shell.diff_file_selected(2);
    assert_eq!(shell.panels.diff_selected, Some(2));

    shell.diff_overlay_toggled();
    assert!(!shell.panels.diff_overlay_open);
}

#[test]
fn model_menu_toggles_open_and_closed() {
    let mut shell = Shell::new();

    let effects = shell.model_menu_toggled();
    assert!(shell.panels.model_menu_open);
    assert_eq!(effects, vec![Effect::LoadConfig, Effect::LoadModels]);

    shell.model_menu_closed();
    assert!(!shell.panels.model_menu_open);
}

#[test]
fn chat_search_steps_wrap_and_closing_clears_the_query() {
    let mut shell = Shell::new();
    let effects = shell.chat_search_opened();
    assert!(shell.chat_search.open);
    assert_eq!(effects, vec![Effect::FocusSearchInput]);

    shell.chat_search_query_changed(String::from("needle"));
    shell.chat_search_stepped(-1, 3);
    assert_eq!(shell.chat_search.hit, 2);
    shell.chat_search_stepped(1, 3);
    assert_eq!(shell.chat_search.hit, 0);

    shell.chat_search_closed();
    assert!(!shell.chat_search.open);
    assert!(shell.chat_search.query.is_empty());
}

#[test]
fn every_open_tab_keeps_a_body() {
    let mut shell = Shell::new();
    let _ = shell.tree_file_selected(String::from("/tmp/a.rs"));
    let _ = shell.tree_file_selected(String::from("/tmp/b.rs"));
    let _ = shell.tree_file_selected(String::from("/tmp/c.rs"));
    shell.file_preview_loaded("/tmp/b.rs", FileBody::Binary);
    shell.file_preview_closed("/tmp/a.rs");

    for tab in &shell.editor.tabs {
        assert!(body_of(&shell, tab).is_some(), "{tab} has a body");
    }
    assert_eq!(shell.editor.tabs.len(), 2);
}
