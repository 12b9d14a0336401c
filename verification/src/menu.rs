//! The rows of the eight main-menu dropdowns. Each enabled row names the
//! shell action its regular control runs; commands the shell cannot run
//! yet show greyed out.

use crate::message::AppMode;
use crate::message::MenuId;
use crate::message::SidebarTab;
use crate::paths::file_name;
use crate::paths::path_file_name;
use vstd::prelude::*;

verus! {

/// What an enabled menu row does.
#[derive(Debug, Clone, PartialEq, Eq)]
pub enum MenuAction {
    /// Open a fresh Quest thread.
    NewThread,
    /// Raise the native folder picker.
    PickFolder,
    /// Open a recent project folder.
    OpenFolder(String),
    /// Dismiss the dropdown.
    CloseMenu,
    /// Clear the composer.
    ClearComposer,
    /// Copy one agent message.
    CopyMessage { id: String, text: String },
    /// Raise the transcript search bar.
    ChatSearchOpen,
    /// Toggle the command palette.
    PaletteToggle,
    /// Show one sidebar pane.
    ShowPane(SidebarTab),
    /// Switch between the editor and Quest shells.
    ModeToggle,
    /// Relaunch the backend.
    Reconnect,
    /// Re-probe git facts.
    RefreshGit,
}

/// The abstract value of [`MenuAction`].
pub ghost enum MenuActionView {
    NewThread,
    PickFolder,
    OpenFolder(Seq<char>),
    CloseMenu,
    ClearComposer,
    CopyMessage { id: Seq<char>, text: Seq<char> },
    ChatSearchOpen,
    PaletteToggle,
    ShowPane(SidebarTab),
    ModeToggle,
    Reconnect,
    RefreshGit,
}

impl View for MenuAction {
    type V = MenuActionView;

    open spec fn view(&self) -> MenuActionView {
        match self {
            MenuAction::NewThread => MenuActionView::NewThread,
            MenuAction::PickFolder => MenuActionView::PickFolder,
            MenuAction::OpenFolder(p) => MenuActionView::OpenFolder(p@),
            MenuAction::CloseMenu => MenuActionView::CloseMenu,
            MenuAction::ClearComposer => MenuActionView::ClearComposer,
            MenuAction::CopyMessage { id, text } => MenuActionView::CopyMessage { id: id@, text: text@ },
            MenuAction::ChatSearchOpen => MenuActionView::ChatSearchOpen,
            MenuAction::PaletteToggle => MenuActionView::PaletteToggle,
            MenuAction::ShowPane(t) => MenuActionView::ShowPane(*t),
            MenuAction::ModeToggle => MenuActionView::ModeToggle,
            MenuAction::Reconnect => MenuActionView::Reconnect,
            MenuAction::RefreshGit => MenuActionView::RefreshGit,
        }
    }
}

/// One row of a dropdown.
#[derive(Debug, Clone, PartialEq, Eq)]
pub enum MenuEntry {
    /// A clickable item running `action`.
    Action { label: String, shortcut: Option<&'static str>, action: MenuAction },
    /// A greyed-out placeholder for a command the shell cannot run yet.
    Disabled { label: &'static str, shortcut: Option<&'static str> },
    /// A hairline separator between item groups.
    Separator,
}

/// The abstract value of [`MenuEntry`].
pub ghost enum MenuEntryView {
    Action { label: Seq<char>, shortcut: Option<Seq<char>>, action: MenuActionView },
    Disabled { label: Seq<char>, shortcut: Option<Seq<char>> },
    Separator,
}

/// The text of an optional static string.
pub open spec fn hint_view(h: Option<&'static str>) -> Option<Seq<char>> {
    match h {
        Some(s) => Some(s@),
        None => None,
    }
}

impl View for MenuEntry {
    type V = MenuEntryView;

    open spec fn view(&self) -> MenuEntryView {
        match self {
            MenuEntry::Action { label, shortcut, action } => MenuEntryView::Action {
                label: label@,
                shortcut: hint_view(*shortcut),
                action: action@,
            },
            MenuEntry::Disabled { label, shortcut } => MenuEntryView::Disabled {
                label: label@,
                shortcut: hint_view(*shortcut),
            },
            MenuEntry::Separator => MenuEntryView::Separator,
        }
    }
}

/// The views of a list of rows.
pub open spec fn entry_views(rows: Seq<MenuEntry>) -> Seq<MenuEntryView> {
    rows.map_values(|r: MenuEntry| r@)
}

/// An enabled row.
pub open spec fn act(label: Seq<char>, shortcut: Option<Seq<char>>, action: MenuActionView) -> MenuEntryView {
    MenuEntryView::Action { label, shortcut, action }
}

/// A greyed-out row.
pub open spec fn off(label: Seq<char>, shortcut: Option<Seq<char>>) -> MenuEntryView {
    MenuEntryView::Disabled { label, shortcut }
}

/// The row of one recent project: its folder name (the whole path when it
/// has none) opening it.
pub open spec fn recent_row(path: Seq<char>) -> MenuEntryView {
    act(
        match path_file_name(path) {
            Some(name) => name,
            None => path,
        },
        None,
        MenuActionView::OpenFolder(path),
    )
}

/// The rows of the first three recent projects.
pub open spec fn recent_rows(recents: Seq<Seq<char>>) -> Seq<MenuEntryView> {
    recents.take(if recents.len() < 3 { recents.len() as int } else { 3 }).map_values(
        |p: Seq<char>| recent_row(p),
    )
}

/// The copy-last-reply row, disabled while no agent message exists.
pub open spec fn copy_row(label: Seq<char>, last_reply: Option<(Seq<char>, Seq<char>)>) -> MenuEntryView {
    match last_reply {
        Some(r) => act(label, None, MenuActionView::CopyMessage { id: r.0, text: r.1 }),
        None => off(label, None),
    }
}

/// The rows of each dropdown, in display order. `recents` are the recent
/// project folders (newest first) and `last_reply` the id and text of the
/// latest agent message, when any.
pub open spec fn spec_menu_entries(
    id: MenuId,
    mode: AppMode,
    recents: Seq<Seq<char>>,
    last_reply: Option<(Seq<char>, Seq<char>)>,
) -> Seq<MenuEntryView> {
    match id {
        MenuId::File => seq![
            act("新建 Quest"@, Some("Ctrl+N"@), MenuActionView::NewThread),
            act("打开文件夹…"@, None, MenuActionView::PickFolder),
        ] + (if recents.len() > 0 {
            seq![MenuEntryView::Separator] + recent_rows(recents)
        } else {
            seq![]
        }) + seq![MenuEntryView::Separator, act("关闭菜单"@, Some("Esc"@), MenuActionView::CloseMenu)],
        MenuId::Edit => seq![
            off("撤销"@, Some("Ctrl+Z"@)),
            off("重做"@, Some("Ctrl+Y"@)),
            MenuEntryView::Separator,
            act("清空输入框"@, None, MenuActionView::ClearComposer),
            copy_row("复制最后回复"@, last_reply),
        ],
        MenuId::Selection => seq![
            off("全选"@, Some("Ctrl+A"@)),
            MenuEntryView::Separator,
            copy_row("复制最后一条回复"@, last_reply),
        ],
        MenuId::View => seq![
            act("搜索面板"@, Some("Ctrl+F"@), MenuActionView::ChatSearchOpen),
            act("命令面板"@, Some("Ctrl+Shift+P"@), MenuActionView::PaletteToggle),
            MenuEntryView::Separator,
            act("文件资源管理器"@, None, MenuActionView::ShowPane(SidebarTab::Files)),
            act("线程列表"@, None, MenuActionView::ShowPane(SidebarTab::Threads)),
            act("源代码管理"@, None, MenuActionView::ShowPane(SidebarTab::SourceControl)),
            MenuEntryView::Separator,
            act(
                match mode {
                    AppMode::Editor => "切换到 Quest 模式"@,
                    AppMode::Quest => "返回编辑器"@,
                },
                None,
                MenuActionView::ModeToggle,
            ),
        ],
        MenuId::Go => seq![
            act("转到线程…"@, None, MenuActionView::ShowPane(SidebarTab::Threads)),
            act("转到文件…"@, None, MenuActionView::ShowPane(SidebarTab::Files)),
            MenuEntryView::Separator,
            act("转到搜索…"@, None, MenuActionView::ShowPane(SidebarTab::Search)),
            act("转到源代码管理"@, None, MenuActionView::ShowPane(SidebarTab::SourceControl)),
        ],
        MenuId::Run => seq![
            act("新建会话"@, None, MenuActionView::NewThread),
            act("重新连接后端"@, None, MenuActionView::Reconnect),
            MenuEntryView::Separator,
            act("刷新 Git 状态"@, None, MenuActionView::RefreshGit),
        ],
        MenuId::Terminal => seq![
            off("新建终端"@, Some("Ctrl+Shift+`"@)),
            off("运行任务…"@, None),
            MenuEntryView::Separator,
            act("打开命令面板"@, None, MenuActionView::PaletteToggle),
        ],
        MenuId::Help => seq![
            act("命令面板"@, Some("Ctrl+Shift+P"@), MenuActionView::PaletteToggle),
            off("键盘快捷键"@, None),
            MenuEntryView::Separator,
            off("关于 Codex GUI"@, None),
        ],
    }
}

/// An enabled row.
fn action(label: &str, shortcut: Option<&'static str>, runs: MenuAction) -> (e: MenuEntry)
    ensures
        e@ == act(label@, hint_view(shortcut), runs@),
{
    MenuEntry::Action { label: label.to_string(), shortcut, action: runs }
}

/// The copy-last-reply row.
fn copy_last_reply(label: &'static str, last_reply: &Option<(String, String)>) -> (e: MenuEntry)
    ensures
        e@ == copy_row(
            label@,
            match last_reply {
                Some(r) => Some((r.0@, r.1@)),
                None => None,
            },
        ),
{
    match last_reply {
        Some(r) => action(label, None, MenuAction::CopyMessage { id: r.0.clone(), text: r.1.clone() }),
        None => MenuEntry::Disabled { label, shortcut: None },
    }
}

/// The row of one recent project.
fn recent_entry(path: &String) -> (e: MenuEntry)
    ensures
        e@ == recent_row(path@),
{
    let label = match file_name(path.as_str()) {
        Some(name) => name,
        None => path.clone(),
    };
    MenuEntry::Action { label, shortcut: None, action: MenuAction::OpenFolder(path.clone()) }
}

/// Appends `e` to `rows`.
fn push_row(rows: &mut Vec<MenuEntry>, e: MenuEntry)
    ensures
        entry_views(final(rows)@) == entry_views(old(rows)@).push(e@),
{
    let ghost before = rows@;
    rows.push(e);
    assert(entry_views(rows@) =~= entry_views(before).push(e@));
}

/// The rows of one dropdown, in display order.
pub fn menu_entries(
    id: MenuId,
    mode: AppMode,
    recents: &[String],
    last_reply: &Option<(String, String)>,
) -> (rows: Vec<MenuEntry>)
    ensures
        entry_views(rows@) == spec_menu_entries(
            id,
            mode,
            recents@.map_values(|p: String| p@),
            match last_reply {
                Some(r) => Some((r.0@, r.1@)),
                None => None,
            },
        ),
{
    let ghost last = match last_reply {
        Some(r) => Some((r.0@, r.1@)),
        None => None,
    };
    let ghost paths = recents@.map_values(|p: String| p@);
    let mut rows: Vec<MenuEntry> = Vec::new();
    assert(entry_views(rows@) =~= Seq::<MenuEntryView>::empty());
    match id {
        MenuId::File => {
            push_row(&mut rows, action("新建 Quest", Some("Ctrl+N"), MenuAction::NewThread));
            push_row(&mut rows, action("打开文件夹…", None, MenuAction::PickFolder));
            let ghost head = entry_views(rows@);
            if recents.len() > 0 {
                push_row(&mut rows, MenuEntry::Separator);
                let shown = if recents.len() < 3 { recents.len() } else { 3 };
                let mut i: usize = 0;
                while i < shown
                    invariant
                        shown <= recents.len(),
                        shown == if recents.len() < 3 { recents.len() } else { 3 },
                        i <= shown,
                        paths == recents@.map_values(|p: String| p@),
                        entry_views(rows@) == head + seq![MenuEntryView::Separator] + paths.take(
                            i as int,
                        ).map_values(|p: Seq<char>| recent_row(p)),
                    decreases shown - i,
                {
                    let e = recent_entry(&recents[i]);
                    push_row(&mut rows, e);
                    assert(paths.take(i + 1).map_values(|p: Seq<char>| recent_row(p)) =~= paths.take(
                        i as int,
                    ).map_values(|p: Seq<char>| recent_row(p)).push(recent_row(paths[i as int])));
                    i = i + 1;
                }
                assert(entry_views(rows@) =~= head + (seq![MenuEntryView::Separator] + recent_rows(paths)));
            } else {
                assert(head =~= head + Seq::<MenuEntryView>::empty());
            }
            let ghost mid = entry_views(rows@);
            push_row(&mut rows, MenuEntry::Separator);
            push_row(&mut rows, action("关闭菜单", Some("Esc"), MenuAction::CloseMenu));
            assert(entry_views(rows@) =~= mid + seq![
                MenuEntryView::Separator,
                act("关闭菜单"@, Some("Esc"@), MenuActionView::CloseMenu),
            ]);
        },
        MenuId::Edit => {
            push_row(&mut rows, MenuEntry::Disabled { label: "撤销", shortcut: Some("Ctrl+Z") });
            push_row(&mut rows, MenuEntry::Disabled { label: "重做", shortcut: Some("Ctrl+Y") });
            push_row(&mut rows, MenuEntry::Separator);
            push_row(&mut rows, action("清空输入框", None, MenuAction::ClearComposer));
            push_row(&mut rows, copy_last_reply("复制最后回复", last_reply));
        },
        MenuId::Selection => {
            push_row(&mut rows, MenuEntry::Disabled { label: "全选", shortcut: Some("Ctrl+A") });
            push_row(&mut rows, MenuEntry::Separator);
            push_row(&mut rows, copy_last_reply("复制最后一条回复", last_reply));
        },
        MenuId::View => {
            let mode_label = match mode {
                AppMode::Editor => "切换到 Quest 模式",
                AppMode::Quest => "返回编辑器",
            };
            push_row(&mut rows, action("搜索面板", Some("Ctrl+F"), MenuAction::ChatSearchOpen));
            push_row(&mut rows, action("命令面板", Some("Ctrl+Shift+P"), MenuAction::PaletteToggle));
            push_row(&mut rows, MenuEntry::Separator);
            push_row(&mut rows, action("文件资源管理器", None, MenuAction::ShowPane(SidebarTab::Files)));
            push_row(&mut rows, action("线程列表", None, MenuAction::ShowPane(SidebarTab::Threads)));
            push_row(&mut rows, action("源代码管理", None, MenuAction::ShowPane(SidebarTab::SourceControl)));
            push_row(&mut rows, MenuEntry::Separator);
            push_row(&mut rows, action(mode_label, None, MenuAction::ModeToggle));
        },
        MenuId::Go => {
            push_row(&mut rows, action("转到线程…", None, MenuAction::ShowPane(SidebarTab::Threads)));
            push_row(&mut rows, action("转到文件…", None, MenuAction::ShowPane(SidebarTab::Files)));
            push_row(&mut rows, MenuEntry::Separator);
            push_row(&mut rows, action("转到搜索…", None, MenuAction::ShowPane(SidebarTab::Search)));
            push_row(&mut rows, action("转到源代码管理", None, MenuAction::ShowPane(SidebarTab::SourceControl)));
        },
        MenuId::Run => {
            push_row(&mut rows, action("新建会话", None, MenuAction::NewThread));
            push_row(&mut rows, action("重新连接后端", None, MenuAction::Reconnect));
            push_row(&mut rows, MenuEntry::Separator);
            push_row(&mut rows, action("刷新 Git 状态", None, MenuAction::RefreshGit));
        },
        MenuId::Terminal => {
            push_row(&mut rows, MenuEntry::Disabled { label: "新建终端", shortcut: Some("Ctrl+Shift+`") });
            push_row(&mut rows, MenuEntry::Disabled { label: "运行任务…", shortcut: None });
            push_row(&mut rows, MenuEntry::Separator);
            push_row(&mut rows, action("打开命令面板", None, MenuAction::PaletteToggle));
        },
        MenuId::Help => {
            push_row(&mut rows, action("命令面板", Some("Ctrl+Shift+P"), MenuAction::PaletteToggle));
            push_row(&mut rows, MenuEntry::Disabled { label: "键盘快捷键", shortcut: None });
            push_row(&mut rows, MenuEntry::Separator);
            push_row(&mut rows, MenuEntry::Disabled { label: "关于 Codex GUI", shortcut: None });
        },
    }
    rows
}

} // verus!
