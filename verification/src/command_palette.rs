//! The command palette: a fuzzily filtered action catalog and its cursor.

use crate::message::SidebarTab;
use crate::state::PaletteState;
use crate::text::chars_of;
use crate::text::lowercase;
use crate::text::str_lowercase;
use vstd::prelude::*;

verus! {

/// What one palette row runs; each maps onto the regular UI control's
/// message.
#[derive(Debug, Clone, Copy, PartialEq, Eq, Structural)]
pub enum PaletteCommand {
    /// Open a folder and start a session inside it.
    FolderPickRequested,
    /// Start a fresh conversation thread.
    NewThreadRequested,
    /// Switch between the editor and Quest shells.
    ModeToggled,
    /// Show one sidebar pane.
    SidebarTab(SidebarTab),
    /// Flip the sidebar between threads and files.
    SidebarToggled,
    /// Open or close the composer skill picker.
    SkillsPickerToggled,
    /// Open or close the settings panel.
    SettingsToggled,
}

/// The full action catalog; filter order follows this order.
pub open spec fn spec_catalog() -> Seq<(Seq<char>, PaletteCommand)> {
    seq![
        ("Open folder…"@, PaletteCommand::FolderPickRequested),
        ("New thread"@, PaletteCommand::NewThreadRequested),
        ("Toggle Quest mode"@, PaletteCommand::ModeToggled),
        ("Show threads"@, PaletteCommand::SidebarTab(SidebarTab::Threads)),
        ("Show files"@, PaletteCommand::SidebarTab(SidebarTab::Files)),
        ("Show search"@, PaletteCommand::SidebarTab(SidebarTab::Search)),
        ("Show source control"@, PaletteCommand::SidebarTab(SidebarTab::SourceControl)),
        ("Show repo wiki"@, PaletteCommand::SidebarTab(SidebarTab::Wiki)),
        ("Show run and debug"@, PaletteCommand::SidebarTab(SidebarTab::Debug)),
        ("Show remote explorer"@, PaletteCommand::SidebarTab(SidebarTab::Remote)),
        ("Show extensions"@, PaletteCommand::SidebarTab(SidebarTab::Extensions)),
        ("Toggle sidebar"@, PaletteCommand::SidebarToggled),
        ("Skill picker"@, PaletteCommand::SkillsPickerToggled),
        ("Settings"@, PaletteCommand::SettingsToggled),
    ]
}

/// One filtered palette row: the label plus the command it will run.
#[derive(Debug, Clone, Copy)]
pub struct PaletteAction {
    pub label: &'static str,
    pub command: PaletteCommand,
}

/// The views of a list of palette rows.
pub open spec fn action_views(rows: Seq<PaletteAction>) -> Seq<(Seq<char>, PaletteCommand)> {
    rows.map_values(|a: PaletteAction| (a.label@, a.command))
}

/// The catalog rows.
fn catalog() -> (rows: Vec<PaletteAction>)
    ensures
        action_views(rows@) == spec_catalog(),
{
    let rows = vec![
        PaletteAction { label: "Open folder…", command: PaletteCommand::FolderPickRequested },
        PaletteAction { label: "New thread", command: PaletteCommand::NewThreadRequested },
        PaletteAction { label: "Toggle Quest mode", command: PaletteCommand::ModeToggled },
        PaletteAction { label: "Show threads", command: PaletteCommand::SidebarTab(SidebarTab::Threads) },
        PaletteAction { label: "Show files", command: PaletteCommand::SidebarTab(SidebarTab::Files) },
        PaletteAction { label: "Show search", command: PaletteCommand::SidebarTab(SidebarTab::Search) },
        PaletteAction {
            label: "Show source control",
            command: PaletteCommand::SidebarTab(SidebarTab::SourceControl),
        },
        PaletteAction { label: "Show repo wiki", command: PaletteCommand::SidebarTab(SidebarTab::Wiki) },
        PaletteAction {
            label: "Show run and debug",
            command: PaletteCommand::SidebarTab(SidebarTab::Debug),
        },
        PaletteAction {
            label: "Show remote explorer",
            command: PaletteCommand::SidebarTab(SidebarTab::Remote),
        },
        PaletteAction {
            label: "Show extensions",
            command: PaletteCommand::SidebarTab(SidebarTab::Extensions),
        },
        PaletteAction { label: "Toggle sidebar", command: PaletteCommand::SidebarToggled },
        PaletteAction { label: "Skill picker", command: PaletteCommand::SkillsPickerToggled },
        PaletteAction { label: "Settings", command: PaletteCommand::SettingsToggled },
    ];
    assert(action_views(rows@) =~= spec_catalog());
    rows
}

/// Whether `needle` occurs in `hay` as a (not necessarily contiguous)
/// subsequence, matched greedily from the left.
pub open spec fn is_subsequence(needle: Seq<char>, hay: Seq<char>) -> bool
    decreases hay.len(),
{
    if needle.len() == 0 {
        true
    } else if hay.len() == 0 {
        false
    } else if needle[0] == hay[0] {
        is_subsequence(needle.drop_first(), hay.drop_first())
    } else {
        is_subsequence(needle, hay.drop_first())
    }
}

/// Whether a catalog label survives the query: the lower-cased query is a
/// subsequence of the lower-cased label.
pub open spec fn label_matches(query: Seq<char>, label: Seq<char>) -> bool {
    is_subsequence(str_lowercase(query), str_lowercase(label))
}

/// The catalog rows the query keeps, in catalog order.
pub open spec fn spec_filtered(query: Seq<char>) -> Seq<(Seq<char>, PaletteCommand)> {
    spec_catalog().filter(|row: (Seq<char>, PaletteCommand)| label_matches(query, row.0))
}

/// Whether `needle` is a subsequence of `hay`.
pub fn subsequence(needle: &[char], hay: &[char]) -> (r: bool)
    ensures
        r == is_subsequence(needle@, hay@),
{
    let mut i: usize = 0;
    let mut j: usize = 0;
    assert(needle@.subrange(0, needle@.len() as int) =~= needle@);
    assert(hay@.subrange(0, hay@.len() as int) =~= hay@);
    while i < needle.len() && j < hay.len()
        invariant
            i <= needle.len(),
            j <= hay.len(),
            is_subsequence(
                needle@.subrange(i as int, needle@.len() as int),
                hay@.subrange(j as int, hay@.len() as int),
            ) == is_subsequence(needle@, hay@),
        decreases hay.len() - j,
    {
        let ghost n = needle@.subrange(i as int, needle@.len() as int);
        let ghost h = hay@.subrange(j as int, hay@.len() as int);
        assert(n[0] == needle@[i as int] && h[0] == hay@[j as int]);
        assert(n.drop_first() =~= needle@.subrange(i + 1, needle@.len() as int));
        assert(h.drop_first() =~= hay@.subrange(j + 1, hay@.len() as int));
        if needle[i] == hay[j] {
            i = i + 1;
        }
        j = j + 1;
    }
    i == needle.len()
}

/// Subsequence filter over the catalog; empty queries keep every action.
pub fn filtered_actions(query: &str) -> (rows: Vec<PaletteAction>)
    ensures
        action_views(rows@) == spec_filtered(query@),
{
    let needle_text = lowercase(query);
    let needle = chars_of(needle_text.as_str());
    let all = catalog();
    let mut rows: Vec<PaletteAction> = Vec::new();
    let ghost f = |row: (Seq<char>, PaletteCommand)| label_matches(query@, row.0);
    let mut i: usize = 0;
    while i < all.len()
        invariant
            i <= all.len(),
            needle@ == str_lowercase(query@),
            f == (|row: (Seq<char>, PaletteCommand)| label_matches(query@, row.0)),
            action_views(all@) == spec_catalog(),
            action_views(rows@) == action_views(all@).take(i as int).filter(f),
        decreases all.len() - i,
    {
        let row = all[i];
        let hay_text = lowercase(row.label);
        let hay = chars_of(hay_text.as_str());
        let ghost v = action_views(all@);
        proof {
            assert(v.take(i + 1).drop_last() =~= v.take(i as int));
            assert(v.take(i + 1).last() == (row.label@, row.command));
            reveal_with_fuel(Seq::filter, 1);
        }
        if subsequence(needle.as_slice(), hay.as_slice()) {
            let ghost old_rows = rows@;
            rows.push(row);
            assert(action_views(rows@) =~= action_views(old_rows).push((row.label@, row.command)));
        }
        i = i + 1;
    }
    assert(action_views(all@).take(all.len() as int) =~= action_views(all@));
    rows
}

/// The cursor after moving by `delta` within `len` rows: clamped to the
/// list, reset when the list is empty.
pub open spec fn moved_selection(selected: int, delta: int, len: int) -> int {
    if len == 0 {
        0
    } else if selected + delta < 0 {
        0
    } else if selected + delta > len - 1 {
        len - 1
    } else {
        selected + delta
    }
}

/// Advances the palette cursor within the filtered list.
pub fn move_selection(palette: &mut PaletteState, delta: i32)
    requires
        old(palette).selected <= i32::MAX,
        i32::MIN <= old(palette).selected + delta <= i32::MAX,
    ensures
        final(palette).selected == moved_selection(
            old(palette).selected as int,
            delta as int,
            spec_filtered(old(palette).query@).len() as int,
        ),
        final(palette).open == old(palette).open,
        final(palette).query == old(palette).query,
{
    let len = filtered_actions(palette.query.as_str()).len();
    proof {
        assert(spec_filtered(palette.query@).len() <= spec_catalog().len()) by {
            spec_catalog().filter_lemma(|row: (Seq<char>, PaletteCommand)| label_matches(palette.query@, row.0));
        }
    }
    if len == 0 {
        palette.selected = 0;
        return;
    }
    let selected: i64 = palette.selected as i64 + delta as i64;
    let last: i64 = len as i64 - 1;
    palette.selected = if selected < 0 {
        0
    } else if selected > last {
        last as usize
    } else {
        selected as usize
    };
}

/// The command the confirmed row resolves to, if any.
pub fn confirmed_action(palette: &PaletteState) -> (r: Option<PaletteCommand>)
    ensures
        r == if palette.selected < spec_filtered(palette.query@).len() {
            Some(spec_filtered(palette.query@)[palette.selected as int].1)
        } else {
            None
        },
{
    let rows = filtered_actions(palette.query.as_str());
    if palette.selected < rows.len() {
        assert(action_views(rows@)[palette.selected as int] == (
            rows@[palette.selected as int].label@,
            rows@[palette.selected as int].command,
        ));
        Some(rows[palette.selected].command)
    } else {
        None
    }
}

} // verus!
