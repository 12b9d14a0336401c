use codex_gui_ui::menu::menu_entries;
use codex_gui_ui::menu::MenuAction;
use codex_gui_ui::menu::MenuEntry;
use codex_gui_ui::message::AppMode;
use codex_gui_ui::message::MenuId;
use codex_gui_ui::message::SidebarTab;

fn labels(rows: &[MenuEntry]) -> Vec<String> {
    rows.iter()
        .map(|row| match row {
            MenuEntry::Action { label, .. } => label.clone(),
            MenuEntry::Disabled { label, .. } => label.to_string(),
            MenuEntry::Separator => String::from("—"),
        })
        .collect()
}

#[test]
fn editor_menu_bar_offers_all_eight_menus() {
    let titles: Vec<&str> = MenuId::all().iter().map(|id| id.title()).collect();
    assert_eq!(
        titles,
        vec!["文件(F)", "编辑(E)", "选择(S)", "查看(V)", "转到(G)", "运行(R)", "终端(T)", "帮助(H)"],
    );
}

#[test]
fn open_dropdown_renders_its_items() {
    let rows = menu_entries(MenuId::File, AppMode::Editor, &[], &None);

    let labels = labels(&rows);
    assert!(labels.contains(&String::from("新建 Quest")), "File menu lists the new quest item");
    assert!(labels.contains(&String::from("打开文件夹…")), "File menu lists the folder picker");
    assert!(labels.contains(&String::from("关闭菜单")), "File menu offers the close entry");
}

#[test]
fn the_file_menu_lists_up_to_three_recent_projects() {
    let recents = vec![
        String::from("/work/alpha"),
        String::from("/work/beta"),
        String::from("/"),
        String::from("/work/delta"),
    ];

    let rows = menu_entries(MenuId::File, AppMode::Editor, &recents, &None);

    assert_eq!(
        labels(&rows),
        vec!["新建 Quest", "打开文件夹…", "—", "alpha", "beta", "/", "—", "关闭菜单"],
    );
    assert_eq!(
        rows[3],
        MenuEntry::Action {
            label: String::from("alpha"),
            shortcut: None,
            action: MenuAction::OpenFolder(String::from("/work/alpha")),
        },
    );
}

#[test]
fn copying_the_last_reply_is_disabled_until_one_exists() {
    let rows = menu_entries(MenuId::Edit, AppMode::Editor, &[], &None);
    assert_eq!(rows[4], MenuEntry::Disabled { label: "复制最后回复", shortcut: None });

    let last = Some((String::from("a9"), String::from("done")));
    let rows = menu_entries(MenuId::Selection, AppMode::Editor, &[], &last);
    assert_eq!(
        rows[2],
        MenuEntry::Action {
            label: String::from("复制最后一条回复"),
            shortcut: None,
            action: MenuAction::CopyMessage { id: String::from("a9"), text: String::from("done") },
        },
    );
}

#[test]
fn the_view_menu_names_the_other_shell() {
    let editor = menu_entries(MenuId::View, AppMode::Editor, &[], &None);
    let quest = menu_entries(MenuId::View, AppMode::Quest, &[], &None);

    assert_eq!(labels(&editor).last().map(String::as_str), Some("切换到 Quest 模式"));
    assert_eq!(labels(&quest).last().map(String::as_str), Some("返回编辑器"));
    assert_eq!(
        editor[3],
        MenuEntry::Action {
            label: String::from("文件资源管理器"),
            shortcut: None,
            action: MenuAction::ShowPane(SidebarTab::Files),
        },
    );
}

#[test]
fn every_menu_has_rows() {
    for id in MenuId::all() {
        assert!(!menu_entries(id, AppMode::Editor, &[], &None).is_empty());
    }
    assert_eq!(
        labels(&menu_entries(MenuId::Help, AppMode::Editor, &[], &None)),
        vec!["命令面板", "键盘快捷键", "—", "关于 Codex GUI"],
    );
}
