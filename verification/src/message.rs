//! Plain enums shared by the shell state and its reducer.

use vstd::prelude::*;

verus! {

/// Which sidebar pane the activity bar shows.
#[derive(Debug, Clone, Copy, PartialEq, Eq, Structural)]
pub enum SidebarTab {
    /// The resumable-thread list.
    Threads,
    /// The working-directory tree.
    Files,
    /// The search pane.
    Search,
    /// The source-control (git changes) pane.
    SourceControl,
    /// The repository wiki pane.
    Wiki,
    /// The run-and-debug pane.
    Debug,
    /// The remote-explorer pane.
    Remote,
    /// The extensions pane.
    Extensions,
}

/// Which shell the window shows: the editor chrome or the Quest layout.
#[derive(Debug, Clone, Copy, PartialEq, Eq, Structural)]
pub enum AppMode {
    /// Editor mode: menu bar, activity rail, sidebar panes.
    Editor,
    /// Quest mode: quest list rail plus the task dialog.
    Quest,
}

/// Which native picker the Skills page's import button opens.
#[derive(Debug, Clone, Copy, PartialEq, Eq, Structural)]
pub enum SkillImportTarget {
    /// A whole skill directory holding a `SKILL.md`.
    Directory,
    /// A single `SKILL.md`-shaped file.
    File,
}

/// The scenario picked when starting a Quest; the launch template seeds
/// the composer so the first turn carries the intent.
#[derive(Debug, Clone, Copy, PartialEq, Eq, Structural)]
pub enum QuestScenario {
    /// Let the agent decide from the first prompt.
    Auto,
    /// Spec-driven: agree on a spec first, then implement.
    Spec,
    /// Prototype: explore a throwaway prototype first.
    Prototype,
    /// Tool building: create a reusable tool or script.
    Tool,
}

/// The picker order of the scenarios.
pub open spec fn spec_scenario_order() -> Seq<QuestScenario> {
    seq![QuestScenario::Auto, QuestScenario::Spec, QuestScenario::Prototype, QuestScenario::Tool]
}

impl QuestScenario {
    /// The picker order.
    pub fn all() -> (order: [QuestScenario; 4])
        ensures
            order@ == spec_scenario_order(),
    {
        let order = [
            QuestScenario::Auto,
            QuestScenario::Spec,
            QuestScenario::Prototype,
            QuestScenario::Tool,
        ];
        assert(order@ =~= spec_scenario_order());
        order
    }

    /// The visible title.
    pub fn title(self) -> (title: &'static str)
        ensures
            self == QuestScenario::Auto ==> title@ == "自动判断"@,
            self == QuestScenario::Spec ==> title@ == "Spec 驱动"@,
            self == QuestScenario::Prototype ==> title@ == "原型探索"@,
            self == QuestScenario::Tool ==> title@ == "创建工具"@,
    {
        match self {
            QuestScenario::Auto => "自动判断",
            QuestScenario::Spec => "Spec 驱动",
            QuestScenario::Prototype => "原型探索",
            QuestScenario::Tool => "创建工具",
        }
    }

    /// The one-line explanation under the title.
    pub fn hint(self) -> (hint: &'static str)
        ensures
            self == QuestScenario::Auto ==> hint@ == "根据首条消息自动选择处理方式"@,
            self == QuestScenario::Spec ==> hint@ == "先达成规格，再按规格实现"@,
            self == QuestScenario::Prototype ==> hint@ == "先快速验证原型，再决定是否完善"@,
            self == QuestScenario::Tool ==> hint@ == "构建可复用的工具或脚本"@,
    {
        match self {
            QuestScenario::Auto => "根据首条消息自动选择处理方式",
            QuestScenario::Spec => "先达成规格，再按规格实现",
            QuestScenario::Prototype => "先快速验证原型，再决定是否完善",
            QuestScenario::Tool => "构建可复用的工具或脚本",
        }
    }

    /// The composer seed; blank for [`QuestScenario::Auto`].
    pub fn template(self) -> (template: &'static str)
        ensures
            template@ == self.spec_template(),
    {
        match self {
            QuestScenario::Auto => "",
            QuestScenario::Spec => "请先为以下任务写一份实现规格，确认后再按规格实现：\n",
            QuestScenario::Prototype => "请先做一个可快速验证的原型来探索这个想法：\n",
            QuestScenario::Tool => "请帮我构建一个可复用的工具/脚本，需求：\n",
        }
    }

    /// The composer seed of each scenario.
    pub open spec fn spec_template(self) -> Seq<char> {
        match self {
            QuestScenario::Auto => ""@,
            QuestScenario::Spec => "请先为以下任务写一份实现规格，确认后再按规格实现：\n"@,
            QuestScenario::Prototype => "请先做一个可快速验证的原型来探索这个想法：\n"@,
            QuestScenario::Tool => "请帮我构建一个可复用的工具/脚本，需求：\n"@,
        }
    }
}

/// One dropdown of the main menu bar.
#[derive(Debug, Clone, Copy, PartialEq, Eq, Structural)]
pub enum MenuId {
    File,
    Edit,
    Selection,
    View,
    Go,
    Run,
    Terminal,
    Help,
}

/// The eight menus in display order.
pub open spec fn spec_menu_order() -> Seq<MenuId> {
    seq![
        MenuId::File,
        MenuId::Edit,
        MenuId::Selection,
        MenuId::View,
        MenuId::Go,
        MenuId::Run,
        MenuId::Terminal,
        MenuId::Help,
    ]
}

impl MenuId {
    /// The eight menus in display order.
    pub fn all() -> (order: [MenuId; 8])
        ensures
            order@ == spec_menu_order(),
    {
        let order = [
            MenuId::File,
            MenuId::Edit,
            MenuId::Selection,
            MenuId::View,
            MenuId::Go,
            MenuId::Run,
            MenuId::Terminal,
            MenuId::Help,
        ];
        assert(order@ =~= spec_menu_order());
        order
    }

    /// The visible title, with the mnemonic hints.
    pub fn title(self) -> (title: &'static str)
        ensures
            self == MenuId::File ==> title@ == "文件(F)"@,
            self == MenuId::Edit ==> title@ == "编辑(E)"@,
            self == MenuId::Selection ==> title@ == "选择(S)"@,
            self == MenuId::View ==> title@ == "查看(V)"@,
            self == MenuId::Go ==> title@ == "转到(G)"@,
            self == MenuId::Run ==> title@ == "运行(R)"@,
            self == MenuId::Terminal ==> title@ == "终端(T)"@,
            self == MenuId::Help ==> title@ == "帮助(H)"@,
    {
        match self {
            MenuId::File => "文件(F)",
            MenuId::Edit => "编辑(E)",
            MenuId::Selection => "选择(S)",
            MenuId::View => "查看(V)",
            MenuId::Go => "转到(G)",
            MenuId::Run => "运行(R)",
            MenuId::Terminal => "终端(T)",
            MenuId::Help => "帮助(H)",
        }
    }
}

/// Feedback on one agent message; one direction at a time per message.
#[derive(Debug, Clone, Copy, PartialEq, Eq, Structural)]
pub enum Reaction {
    Up,
    Down,
}

} // verus!
