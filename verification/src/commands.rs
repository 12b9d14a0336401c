//! Composer slash commands and the notices the skill import reports.

use crate::paths::file_name;
use crate::paths::parent;
use crate::paths::path_file_name;
use crate::paths::path_parent;
use crate::text::chars_of;
use crate::text::contains_whitespace;
use crate::text::decimal;
use crate::text::eq_str;
use crate::text::has_prefix;
use crate::text::has_ws;
use crate::text::push_decimal;
use crate::text::push_str;
use crate::text::starts_with_str;
use crate::text::string_of;
use crate::text::trim;
use crate::text::trim_chars;
use crate::text::trim_start;
use crate::text::trim_start_chars;
use vstd::prelude::*;

verus! {

/// Slash commands the composer understands in place.
#[derive(Debug, Clone, Copy, PartialEq, Eq, Structural)]
pub enum SlashAction {
    /// `/review` — review the uncommitted changes.
    Review,
    /// `/compact` — compact the context.
    Compact,
}

/// The `/` command rows: `(command, hint)`, in render order.
pub open spec fn spec_slash_commands() -> Seq<(Seq<char>, Seq<char>)> {
    seq![
        ("/review"@, "审查未提交的变更（review/start）"@),
        ("/compact"@, "压缩当前上下文（thread/compact/start）"@),
    ]
}

/// The views of a list of command rows.
pub open spec fn row_views(rows: Seq<(&'static str, &'static str)>) -> Seq<(Seq<char>, Seq<char>)> {
    rows.map_values(|r: (&'static str, &'static str)| (r.0@, r.1@))
}

/// The `/` command rows, in render order.
pub fn slash_commands() -> (rows: Vec<(&'static str, &'static str)>)
    ensures
        row_views(rows@) == spec_slash_commands(),
{
    let rows = vec![
        ("/review", "审查未提交的变更（review/start）"),
        ("/compact", "压缩当前上下文（thread/compact/start）"),
    ];
    assert(row_views(rows@) =~= spec_slash_commands());
    rows
}

/// The slash action a submitted text names: the trimmed text must be the
/// bare command.
pub open spec fn spec_slash_action(text: Seq<char>) -> Option<SlashAction> {
    if trim(text) == "/review"@ {
        Some(SlashAction::Review)
    } else if trim(text) == "/compact"@ {
        Some(SlashAction::Compact)
    } else {
        None
    }
}

/// Resolves a composer submission into a slash action; `None` means the
/// text is an ordinary prompt.
pub fn slash_action(text: &str) -> (r: Option<SlashAction>)
    ensures
        r == spec_slash_action(text@),
{
    let cs = chars_of(text);
    let t = string_of(trim_chars(cs.as_slice()).as_slice());
    if eq_str(t.as_str(), "/review") {
        Some(SlashAction::Review)
    } else if eq_str(t.as_str(), "/compact") {
        Some(SlashAction::Compact)
    } else {
        None
    }
}

/// The rows whose command extends `word`.
pub open spec fn rows_extending(
    rows: Seq<(Seq<char>, Seq<char>)>,
    word: Seq<char>,
) -> Seq<(Seq<char>, Seq<char>)> {
    rows.filter(|r: (Seq<char>, Seq<char>)| has_prefix(r.0, word))
}

/// The rows offered while the user types a bare `/word`: none unless the
/// text (leading white space aside) starts with `/` and holds no white
/// space, otherwise every command the word is a prefix of.
pub open spec fn spec_slash_options(text: Seq<char>) -> Seq<(Seq<char>, Seq<char>)> {
    let word = trim_start(text);
    if !has_prefix(word, "/"@) || has_ws(word) {
        seq![]
    } else {
        rows_extending(spec_slash_commands(), word)
    }
}

/// The rows matching the composer text while the user types a bare
/// `/word`; an empty vec hides the picker.
pub fn slash_options(text: &str) -> (rows: Vec<(&'static str, &'static str)>)
    ensures
        row_views(rows@) == spec_slash_options(text@),
{
    let cs = chars_of(text);
    let word = trim_start_chars(cs.as_slice());
    if !starts_with_str(word.as_slice(), "/") || contains_whitespace(word.as_slice()) {
        let empty: Vec<(&'static str, &'static str)> = Vec::new();
        assert(row_views(empty@) =~= Seq::<(Seq<char>, Seq<char>)>::empty());
        return empty;
    }
    let all = slash_commands();
    let mut rows: Vec<(&'static str, &'static str)> = Vec::new();
    let mut i: usize = 0;
    while i < all.len()
        invariant
            i <= all.len(),
            row_views(all@) == spec_slash_commands(),
            row_views(rows@) == rows_extending(row_views(all@).take(i as int), word@),
        decreases all.len() - i,
    {
        let row = all[i];
        let command = chars_of(row.0);
        proof {
            let v = row_views(all@);
            assert(v.take(i + 1).drop_last() =~= v.take(i as int));
            assert(v.take(i + 1).last() == (row.0@, row.1@));
            reveal_with_fuel(Seq::filter, 1);
        }
        if has_prefix_chars(command.as_slice(), word.as_slice()) {
            let ghost old_rows = rows@;
            rows.push(row);
            proof {
                let v = row_views(all@);
                let f = |r: (Seq<char>, Seq<char>)| has_prefix(r.0, word@);
                assert(v.take(i + 1).filter(f) == v.take(i as int).filter(f).push(v.take(i + 1).last()));
                assert(row_views(rows@) =~= row_views(old_rows).push((row.0@, row.1@)));
            }
            assert(row_views(rows@) =~= rows_extending(row_views(all@).take(i + 1), word@));
        } else {
            assert(row_views(rows@) =~= rows_extending(row_views(all@).take(i + 1), word@));
        }
        i = i + 1;
    }
    assert(row_views(all@).take(all.len() as int) =~= row_views(all@));
    rows
}

/// Whether `cs` starts with `prefix`.
fn has_prefix_chars(cs: &[char], prefix: &[char]) -> (r: bool)
    ensures
        r == has_prefix(cs@, prefix@),
{
    if prefix.len() > cs.len() {
        return false;
    }
    let mut i: usize = 0;
    while i < prefix.len()
        invariant
            prefix.len() <= cs.len(),
            i <= prefix.len(),
            forall|j: int| 0 <= j < i ==> cs@[j] == prefix@[j],
        decreases prefix.len() - i,
    {
        if cs[i] != prefix[i] {
            assert(cs@.subrange(0, prefix@.len() as int)[i as int] != prefix@[i as int]);
            return false;
        }
        i = i + 1;
    }
    assert(cs@.subrange(0, prefix@.len() as int) =~= prefix@);
    true
}

/// The directory name a `SKILL.md` path sits in: the final component of
/// its parent.
pub open spec fn skill_dir_name(skill_md: Seq<char>) -> Option<Seq<char>> {
    match path_parent(skill_md) {
        Some(dir) => path_file_name(dir),
        None => None,
    }
}

/// The directory names of `paths`, skipping paths without one.
pub open spec fn dir_names(paths: Seq<Seq<char>>) -> Seq<Seq<char>>
    decreases paths.len(),
{
    if paths.len() == 0 {
        seq![]
    } else {
        dir_names(paths.drop_last()) + match skill_dir_name(paths.last()) {
            Some(name) => seq![name],
            None => seq![],
        }
    }
}

/// `parts` joined with `sep` between neighbors.
pub open spec fn join(parts: Seq<Seq<char>>, sep: Seq<char>) -> Seq<char>
    decreases parts.len(),
{
    if parts.len() == 0 {
        seq![]
    } else if parts.len() == 1 {
        parts[0]
    } else {
        join(parts.drop_last(), sep) + sep + parts.last()
    }
}

/// The success notice for one link import: a single skill is named by
/// its `SKILL.md` path, a batch by count and the directory names of its
/// first three entries, with ` 等` when some were left unnamed.
pub open spec fn spec_link_import_notice(imported: Seq<Seq<char>>) -> Seq<char> {
    if imported.len() == 1 {
        "已从链接导入 skill（"@ + imported[0] + "）"@
    } else {
        spec_batch_notice(
            imported.len(),
            dir_names(imported.take(if imported.len() < 3 { imported.len() as int } else { 3 })),
        )
    }
}

/// The notice of a batch import of `count` skills whose first entries sit
/// in the directories `names`.
pub open spec fn spec_batch_notice(count: nat, names: Seq<Seq<char>>) -> Seq<char> {
    "已从链接导入 "@ + decimal(count) + " 个 skill："@ + join(names, "、"@) + if count > names.len() {
        " 等"@
    } else {
        ""@
    }
}

/// The directory name a `SKILL.md` path sits in.
pub fn dir_name_of(skill_md: &str) -> (r: Option<String>)
    ensures
        match r {
            Some(n) => skill_dir_name(skill_md@) == Some(n@),
            None => skill_dir_name(skill_md@) is None,
        },
{
    match parent(skill_md) {
        Some(dir) => file_name(dir.as_str()),
        None => None,
    }
}

/// The notice of a batch import of `count` skills, naming the directories
/// in `names` and ending in ` 等` when `count` exceeds them.
pub fn batch_import_notice(count: u64, names: &[String]) -> (notice: String)
    ensures
        notice@ == spec_batch_notice(count as nat, names@.map_values(|n: String| n@)),
{
    let ghost views = names@.map_values(|n: String| n@);
    let mut joined = String::new();
    let mut i: usize = 0;
    while i < names.len()
        invariant
            i <= names.len(),
            views == names@.map_values(|n: String| n@),
            joined@ == join(views.take(i as int), "、"@),
        decreases names.len() - i,
    {
        if i > 0 {
            push_str(&mut joined, "、");
        }
        push_str(&mut joined, names[i].as_str());
        proof {
            let after = views.take(i + 1);
            assert(after.drop_last() =~= views.take(i as int));
            assert(after.last() == names@[i as int]@);
            if i == 0 {
                assert(after =~= seq![names@[0]@]);
            }
            assert(joined@ =~= join(after, "、"@));
        }
        i = i + 1;
    }
    assert(views.take(names.len() as int) =~= views);
    let mut notice = String::new();
    push_str(&mut notice, "已从链接导入 ");
    push_decimal(&mut notice, count);
    push_str(&mut notice, " 个 skill：");
    push_str(&mut notice, joined.as_str());
    if count > names.len() as u64 {
        push_str(&mut notice, " 等");
    } else {
        push_str(&mut notice, "");
    }
    notice
}

/// The success notice for one link import: a single skill is named by
/// its `SKILL.md` path, a batch by count and its first directory names.
pub fn link_import_notice(imported: &[String]) -> (notice: String)
    ensures
        notice@ == spec_link_import_notice(imported@.map_values(|p: String| p@)),
{
    let ghost paths = imported@.map_values(|p: String| p@);
    if imported.len() == 1 {
        let mut notice = String::new();
        push_str(&mut notice, "已从链接导入 skill（");
        push_str(&mut notice, imported[0].as_str());
        push_str(&mut notice, "）");
        return notice;
    }
    let first = if imported.len() < 3 { imported.len() } else { 3 };
    let ghost head = paths.take(first as int);
    let mut names: Vec<String> = Vec::new();
    let mut i: usize = 0;
    while i < first
        invariant
            first <= imported.len(),
            first == if imported.len() < 3 { imported.len() } else { 3 },
            paths == imported@.map_values(|p: String| p@),
            head == paths.take(first as int),
            i <= first,
            names@.map_values(|n: String| n@) == dir_names(head.take(i as int)),
        decreases first - i,
    {
        let ghost before = dir_names(head.take(i as int));
        proof {
            assert(head.take(i + 1).drop_last() =~= head.take(i as int));
            assert(head.take(i + 1).last() == imported@[i as int]@);
        }
        match dir_name_of(imported[i].as_str()) {
            Some(name) => {
                names.push(name);
                assert(names@.map_values(|n: String| n@) =~= before + seq![name@]);
            },
            None => {
                assert(dir_names(head.take(i + 1)) =~= before);
            },
        }
        i = i + 1;
    }
    assert(head.take(first as int) =~= head);
    batch_import_notice(imported.len() as u64, names.as_slice())
}

} // verus!
