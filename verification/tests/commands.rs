use codex_gui_ui::commands::batch_import_notice;
use codex_gui_ui::commands::dir_name_of;
use codex_gui_ui::commands::link_import_notice;
use codex_gui_ui::commands::slash_action;
use codex_gui_ui::commands::slash_commands;
use codex_gui_ui::commands::slash_options;
use codex_gui_ui::commands::SlashAction;

#[test]
fn link_import_notice_names_a_single_skill_by_path() {
    let imported = [String::from("/skills/short-drama/SKILL.md")];

    assert_eq!(
        link_import_notice(&imported),
        "已从链接导入 skill（/skills/short-drama/SKILL.md）"
    );
}

#[test]
fn link_import_notice_summarizes_batches_with_the_first_names() {
    let batch = [
        "/skills/short-drama/SKILL.md",
        "/skills/short-drama-write/SKILL.md",
        "/skills/short-drama-storyboard/SKILL.md",
    ]
    .map(String::from);

    assert_eq!(
        link_import_notice(&batch),
        "已从链接导入 3 个 skill：short-drama、short-drama-write、short-drama-storyboard"
    );

    let many: Vec<String> = (0..12)
        .map(|index| format!("/skills/skill-{index:02}/SKILL.md"))
        .collect();

    assert_eq!(
        link_import_notice(&many),
        "已从链接导入 12 个 skill：skill-00、skill-01、skill-02 等"
    );
}

#[test]
fn link_import_notice_skips_entries_without_a_directory_name() {
    let batch = [String::from("SKILL.md"), String::from("/a/b/SKILL.md")];

    assert_eq!(link_import_notice(&batch), "已从链接导入 2 个 skill：b 等");
    assert_eq!(link_import_notice(&[]), "已从链接导入 0 个 skill：");
}

#[test]
fn slash_action_resolves_the_exact_commands() {
    assert_eq!(slash_action("/review"), Some(SlashAction::Review));
    assert_eq!(slash_action("  /compact  "), Some(SlashAction::Compact));
    // An argument or an ordinary draft is not a command.
    assert_eq!(slash_action("/review now"), None);
    assert_eq!(slash_action("hello"), None);
}

#[test]
fn slash_options_filter_by_prefix_while_typing() {
    // A bare slash offers every command; letters narrow the list.
    assert_eq!(slash_options("/").len(), slash_commands().len());

    let narrowed = slash_options("/r");
    assert_eq!(narrowed.len(), 1);
    assert_eq!(narrowed[0].0, "/review");
}

#[test]
fn slash_options_hide_once_the_word_is_committed() {
    // Text after the command word, or a non-slash draft, hides the picker.
    assert!(slash_options("/review ").is_empty());
    assert!(slash_options("hello").is_empty());
}

#[test]
fn slash_options_ignore_leading_blanks_and_unknown_words() {
    assert_eq!(slash_options("  /co").len(), 1);
    assert!(slash_options("/x").is_empty());
}

#[test]
fn dir_name_of_reads_the_directory_of_a_skill_file() {
    assert_eq!(dir_name_of("/skills/short-drama/SKILL.md"), Some(String::from("short-drama")));
    assert_eq!(dir_name_of("SKILL.md"), None, "a bare file name has no directory name");
    assert_eq!(dir_name_of("/"), None);
}

#[test]
fn batch_import_notice_counts_and_joins_the_names() {
    let names = [String::from("a"), String::from("b")];
    assert_eq!(batch_import_notice(2, &names), "已从链接导入 2 个 skill：a、b");
    assert_eq!(batch_import_notice(5, &names), "已从链接导入 5 个 skill：a、b 等");
    assert_eq!(batch_import_notice(0, &[]), "已从链接导入 0 个 skill：");
}
