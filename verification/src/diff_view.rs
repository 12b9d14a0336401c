//! Classification of unified diffs into display lines, with the render
//! cap that keeps huge diffs snappy.

use crate::text::chars_of;
use crate::text::has_prefix;
use crate::text::starts_with_str;
use crate::text::string_of;
use vstd::prelude::*;

verus! {

/// Diff lines above this count are truncated to keep rendering snappy.
pub const MAX_DIFF_LINES: usize = 2000;

/// One classified line of a unified diff.
#[derive(Debug, Clone, Copy, PartialEq, Eq, Structural)]
pub enum DiffLineKind {
    Add,
    Delete,
    Hunk,
    Meta,
    Context,
}

/// One rendered diff line.
#[derive(Debug, Clone, PartialEq, Eq)]
pub struct DiffLine {
    pub kind: DiffLineKind,
    pub text: String,
}

impl View for DiffLine {
    type V = (DiffLineKind, Seq<char>);

    open spec fn view(&self) -> (DiffLineKind, Seq<char>) {
        (self.kind, self.text@)
    }
}

/// `line` without one trailing carriage return.
pub open spec fn strip_cr(line: Seq<char>) -> Seq<char> {
    if line.len() > 0 && line.last() == '\r' {
        line.drop_last()
    } else {
        line
    }
}

/// The lines of `s` after the partial line `cur`, split as `str::lines`
/// does: at `\n` or `\r\n`, with the final line ending optional and a
/// bare `\r` kept.
pub open spec fn lines_after(s: Seq<char>, cur: Seq<char>) -> Seq<Seq<char>>
    decreases s.len(),
{
    if s.len() == 0 {
        if cur.len() == 0 {
            seq![]
        } else {
            seq![cur]
        }
    } else if s[0] == '\n' {
        seq![strip_cr(cur)] + lines_after(s.drop_first(), seq![])
    } else {
        lines_after(s.drop_first(), cur.push(s[0]))
    }
}

/// The lines of `s`, as `str::lines` yields them.
pub open spec fn split_lines(s: Seq<char>) -> Seq<Seq<char>> {
    lines_after(s, seq![])
}

/// The kind of one diff line: file headers are meta, `@@` opens a hunk,
/// `+`/`-` add and delete, anything else is context.
pub open spec fn classify(line: Seq<char>) -> DiffLineKind {
    if has_prefix(line, "diff --git"@) || has_prefix(line, "index "@) || has_prefix(line, "--- "@)
        || has_prefix(line, "+++ "@) {
        DiffLineKind::Meta
    } else if has_prefix(line, "@@"@) {
        DiffLineKind::Hunk
    } else if has_prefix(line, "+"@) {
        DiffLineKind::Add
    } else if has_prefix(line, "-"@) {
        DiffLineKind::Delete
    } else {
        DiffLineKind::Context
    }
}

/// The classified lines of a unified diff.
pub open spec fn spec_parse(diff: Seq<char>) -> Seq<(DiffLineKind, Seq<char>)> {
    split_lines(diff).map_values(|l: Seq<char>| (classify(l), l))
}

/// The views of a list of diff lines.
pub open spec fn line_views(lines: Seq<DiffLine>) -> Seq<(DiffLineKind, Seq<char>)> {
    lines.map_values(|l: DiffLine| l@)
}

/// Appending a classified line extends the classified views.
proof fn lemma_views_push(out: Seq<DiffLine>, l: DiffLine, done: Seq<Seq<char>>, line: Seq<char>)
    requires
        line_views(out) == done.map_values(|x: Seq<char>| (classify(x), x)),
        l@ == (classify(line), line),
    ensures
        line_views(out.push(l)) == done.push(line).map_values(|x: Seq<char>| (classify(x), x)),
{
    let a = line_views(out.push(l));
    let b = done.push(line).map_values(|x: Seq<char>| (classify(x), x));
    assert(out.len() == done.len()) by {
        assert(line_views(out).len() == out.len());
    }
    assert forall|i: int| 0 <= i < a.len() implies a[i] == b[i] by {
        if i < out.len() {
            assert(a[i] == out[i]@);
            assert(line_views(out)[i] == out[i]@);
        }
    }
    assert(a =~= b);
}

/// Classifies one line.
fn classify_line(line: &[char]) -> (kind: DiffLineKind)
    ensures
        kind == classify(line@),
{
    if starts_with_str(line, "diff --git") || starts_with_str(line, "index ")
        || starts_with_str(line, "--- ") || starts_with_str(line, "+++ ") {
        DiffLineKind::Meta
    } else if starts_with_str(line, "@@") {
        DiffLineKind::Hunk
    } else if starts_with_str(line, "+") {
        DiffLineKind::Add
    } else if starts_with_str(line, "-") {
        DiffLineKind::Delete
    } else {
        DiffLineKind::Context
    }
}

/// Turns one finished line into its classified display line.
fn finish_line(line: &[char]) -> (l: DiffLine)
    ensures
        l@ == (classify(line@), line@),
{
    DiffLine { kind: classify_line(line), text: string_of(line) }
}

/// Classifies a unified diff into display lines; a pure function.
pub fn parse_unified_diff(diff: &str) -> (lines: Vec<DiffLine>)
    ensures
        line_views(lines@) == spec_parse(diff@),
{
    let cs = chars_of(diff);
    let n = cs.len();
    let mut out: Vec<DiffLine> = Vec::new();
    let mut cur: Vec<char> = Vec::new();
    let ghost mut done: Seq<Seq<char>> = seq![];
    let mut i: usize = 0;
    assert(cs@.subrange(0, n as int) =~= diff@);
    assert(done + split_lines(diff@) =~= split_lines(diff@));
    assert(line_views(out@) =~= done.map_values(|l: Seq<char>| (classify(l), l)));
    while i < n
        invariant
            n == cs.len(),
            cs@ == diff@,
            i <= n,
            done + lines_after(cs@.subrange(i as int, n as int), cur@) == split_lines(diff@),
            line_views(out@) == done.map_values(|l: Seq<char>| (classify(l), l)),
        decreases n - i,
    {
        let c = cs[i];
        let ghost rest = cs@.subrange(i as int, n as int);
        assert(rest[0] == c);
        assert(rest.drop_first() =~= cs@.subrange(i + 1, n as int));
        if c == '\n' {
            let ghost before = cur@;
            if cur.len() > 0 && cur[cur.len() - 1] == '\r' {
                cur.pop();
                assert(cur@ =~= before.drop_last());
            }
            let ghost line = cur@;
            assert(line == strip_cr(before));
            let l = finish_line(cur.as_slice());
            let ghost l_copy = l;
            let ghost old_out = out@;
            out.push(l);
            proof {
                assert(done.push(line) + lines_after(rest.drop_first(), seq![]) =~= done + (seq![
                    line,
                ] + lines_after(rest.drop_first(), seq![])));
                lemma_views_push(old_out, l_copy, done, line);
                done = done.push(line);
            }
            cur = Vec::new();
        } else {
            cur.push(c);
        }
        i = i + 1;
    }
    assert(cs@.subrange(n as int, n as int) =~= Seq::<char>::empty());
    if cur.len() > 0 {
        let l = finish_line(cur.as_slice());
        let ghost l_copy = l;
        let ghost old_out = out@;
        out.push(l);
        proof {
            lemma_views_push(old_out, l_copy, done, cur@);
            assert(done.push(cur@) =~= done + seq![cur@]);
        }
    } else {
        assert(done =~= done + Seq::<Seq<char>>::empty());
    }
    out
}

/// The classified lines shown for a diff and how many were cut: past
/// [`MAX_DIFF_LINES`] only the first lines show.
pub open spec fn spec_visible(diff: Seq<char>) -> (Seq<(DiffLineKind, Seq<char>)>, nat) {
    let parsed = spec_parse(diff);
    if parsed.len() <= MAX_DIFF_LINES {
        (parsed, 0)
    } else {
        (parsed.take(MAX_DIFF_LINES as int), (parsed.len() - MAX_DIFF_LINES) as nat)
    }
}

/// Parses and caps a diff for rendering; returns the visible lines and
/// how many were cut.
pub fn visible_lines(diff: &str) -> (r: (Vec<DiffLine>, usize))
    ensures
        (line_views(r.0@), r.1 as nat) == spec_visible(diff@),
{
    let parsed = parse_unified_diff(diff);
    if parsed.len() <= MAX_DIFF_LINES {
        (parsed, 0)
    } else {
        let omitted = parsed.len() - MAX_DIFF_LINES;
        let mut kept = parsed;
        kept.truncate(MAX_DIFF_LINES);
        proof {
            assert(line_views(kept@) =~= spec_parse(diff@).take(MAX_DIFF_LINES as int));
        }
        (kept, omitted)
    }
}

} // verus!
