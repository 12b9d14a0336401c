use codex_gui_ui::command_palette::subsequence;
use codex_gui_ui::command_palette::confirmed_action;
use codex_gui_ui::command_palette::filtered_actions;
use codex_gui_ui::command_palette::move_selection;
use codex_gui_ui::command_palette::PaletteCommand;
use codex_gui_ui::message::SidebarTab;
use codex_gui_ui::state::PaletteState;

#[test]
fn an_empty_query_lists_every_action() {
    let actions = filtered_actions("");
    assert!(!actions.is_empty());
    assert_eq!(actions.len(), 14);
}

#[test]
fn the_filter_is_a_case_insensitive_subsequence_match() {
    let labels = |query: &str| -> Vec<String> {
        filtered_actions(query)
            .into_iter()
            .map(|action| action.label.to_string())
            .collect()
    };

    assert!(labels("open fld").first().is_some_and(|label| label.contains("Open folder")));
    assert!(labels("nwtr").iter().any(|label| label.contains("New thread")));
    // Case-insensitive.
    assert!(labels("SETTINGS").iter().any(|label| label.contains("Settings")));
    // Nonsense matches nothing.
    assert!(labels("zzzz").is_empty());
}

#[test]
fn the_cursor_stays_within_the_filtered_list() {
    let mut palette = PaletteState {
        open: true,
        query: String::new(),
        selected: 0,
    };

    move_selection(&mut palette, 1);
    assert_eq!(palette.selected, 1, "down moves within bounds");

    for _ in 0..50 {
        move_selection(&mut palette, 1);
    }
    let last = filtered_actions("").len() - 1;
    assert_eq!(palette.selected, last);

    for _ in 0..50 {
        move_selection(&mut palette, -1);
    }
    assert_eq!(palette.selected, 0);

    palette.query = String::from("zzzz");
    move_selection(&mut palette, 1);
    assert_eq!(palette.selected, 0);
}

#[test]
fn the_confirmed_row_resolves_to_its_command() {
    let palette = PaletteState { open: true, query: String::from("show files"), selected: 0 };
    assert_eq!(
        confirmed_action(&palette),
        Some(PaletteCommand::SidebarTab(SidebarTab::Files))
    );

    let past_the_end = PaletteState { open: true, query: String::from("zzzz"), selected: 0 };
    assert_eq!(confirmed_action(&past_the_end), None);
}

#[test]
fn subsequence_matches_letters_in_order_with_gaps() {
    let needle: Vec<char> = "opf".chars().collect();
    let hay: Vec<char> = "open folder".chars().collect();
    assert!(subsequence(&needle, &hay));
    let reversed: Vec<char> = "fpo".chars().collect();
    assert!(!subsequence(&reversed, &hay));
    assert!(subsequence(&[], &hay));
    assert!(!subsequence(&needle, &[]));
    let upper: Vec<char> = "OPF".chars().collect();
    assert!(!subsequence(&upper, &hay), "case is the caller's to fold");
}
