//! Chat-pane helpers: relative timestamps and the transcript search cursor.

use crate::state::ChatSearch;
use crate::text::decimal;
use crate::text::push_decimal;
use crate::text::push_str;
use vstd::prelude::*;

verus! {

/// How long ago `sent_at` was at `now`, in seconds; a timestamp from the
/// future counts as zero.
pub open spec fn age(sent_at: int, now: int) -> int {
    if now - sent_at < 0 {
        0
    } else {
        now - sent_at
    }
}

/// Human-short relative age: `just now`, `5m ago`, `3h ago`, `2d ago`.
pub open spec fn spec_relative_time(sent_at: int, now: int) -> Seq<char> {
    let seconds = age(sent_at, now);
    if seconds < 60 {
        "just now"@
    } else if seconds < 3600 {
        decimal((seconds / 60) as nat) + "m ago"@
    } else if seconds < 86_400 {
        decimal((seconds / 3600) as nat) + "h ago"@
    } else {
        decimal((seconds / 86_400) as nat) + "d ago"@
    }
}

/// Human-short relative age: `just now`, `5m ago`, `3h ago`, `2d ago`.
pub fn relative_time(sent_at: i64, now: i64) -> (label: String)
    requires
        i64::MIN <= now - sent_at <= i64::MAX,
    ensures
        label@ == spec_relative_time(sent_at as int, now as int),
{
    let diff = now - sent_at;
    let seconds: u64 = if diff < 0 { 0 } else { diff as u64 };
    let mut label = String::new();
    if seconds < 60 {
        push_str(&mut label, "just now");
    } else if seconds < 3600 {
        push_decimal(&mut label, seconds / 60);
        push_str(&mut label, "m ago");
    } else if seconds < 86_400 {
        push_decimal(&mut label, seconds / 3600);
        push_str(&mut label, "h ago");
    } else {
        push_decimal(&mut label, seconds / 86_400);
        push_str(&mut label, "d ago");
    }
    label
}

/// The hit cursor after stepping by `delta` through `hits` hits, wrapping
/// at both ends; no hits resets it.
pub open spec fn stepped_hit(hit: int, hits: int, delta: int) -> int {
    if hits == 0 {
        0
    } else {
        (hit + delta) % hits
    }
}

/// Moves the highlighted search hit among `hits` hits, wrapping at both
/// ends; a query with no hits resets the cursor.
pub fn step_search_hit(search: &mut ChatSearch, hits: usize, delta: i32)
    requires
        old(search).hit <= i32::MAX,
        hits <= i32::MAX,
        i32::MIN <= old(search).hit + delta <= i32::MAX,
    ensures
        final(search).hit == stepped_hit(old(search).hit as int, hits as int, delta as int),
        final(search).open == old(search).open,
        final(search).query == old(search).query,
{
    if hits == 0 {
        search.hit = 0;
        return;
    }
    let m: i64 = hits as i64;
    let x: i64 = search.hit as i64 + delta as i64;
    let r: i64 = if x >= 0 {
        x % m
    } else {
        let back: i64 = (-x) % m;
        if back == 0 { 0 } else { m - back }
    };
    proof {
        let xi = x as int;
        let mi = m as int;
        if xi >= 0 {
            assert(r as int == xi % mi);
        } else {
            let b = (-xi) % mi;
            assert(0 <= b < mi) by (nonlinear_arith)
                requires mi > 0, b == (-xi) % mi;
            let q = (-xi) / mi;
            assert(-xi == q * mi + b) by (nonlinear_arith)
                requires mi > 0, b == (-xi) % mi, q == (-xi) / mi;
            if b == 0 {
                assert(xi == (-q) * mi) by (nonlinear_arith)
                    requires -xi == q * mi;
                assert(xi % mi == 0) by (nonlinear_arith)
                    requires xi == (-q) * mi, mi > 0;
            } else {
                assert(xi == (-q - 1) * mi + (mi - b)) by (nonlinear_arith)
                    requires -xi == q * mi + b;
                assert(xi % mi == mi - b) by (nonlinear_arith)
                    requires xi == (-q - 1) * mi + (mi - b), 0 < mi - b < mi;
            }
        }
    }
    search.hit = r as usize;
}

/// The shape of one transcript entry, as far as the row layout reads it.
#[derive(Debug, Clone, Copy, PartialEq, Eq, Structural)]
pub enum EntryKind {
    /// A user message.
    UserMessage,
    /// An agent message (or one streaming segment of it).
    AgentMessage,
    /// A command run; `finished` once its exit code is known.
    CommandExecution { finished: bool },
    /// A file change.
    FileChange,
}

/// Whether `e` is a command run that has finished.
pub open spec fn is_finished_command(e: EntryKind) -> bool {
    e matches EntryKind::CommandExecution { finished: true }
}

/// One render row of the unfiltered transcript: a single entry (by its
/// transcript index), or a run of consecutive finished command entries
/// shown as one collapsed card.
#[derive(Debug, Clone, Copy, PartialEq, Eq, Structural)]
pub enum TranscriptRow {
    /// One entry.
    Entry(usize),
    /// Half-open `[start, end)` range into the transcript entries.
    Group(usize, usize),
}

/// The first entry a row covers.
pub open spec fn row_start(r: TranscriptRow) -> int {
    match r {
        TranscriptRow::Entry(i) => i as int,
        TranscriptRow::Group(a, _) => a as int,
    }
}

/// One past the last entry a row covers.
pub open spec fn row_end(r: TranscriptRow) -> int {
    match r {
        TranscriptRow::Entry(i) => i + 1,
        TranscriptRow::Group(_, b) => b as int,
    }
}

/// Whether entry `i` belongs to a run of two or more finished commands.
pub open spec fn in_long_run(s: Seq<EntryKind>, i: int) -> bool {
    &&& is_finished_command(s[i])
    &&& ((i > 0 && is_finished_command(s[i - 1])) || (i + 1 < s.len() && is_finished_command(s[i + 1])))
}

/// Whether `[a, b)` is a whole run of finished commands: every entry in it
/// finished, and neither neighbour a finished command.
pub open spec fn whole_run(s: Seq<EntryKind>, a: int, b: int) -> bool {
    &&& 0 <= a < b <= s.len()
    &&& forall|k: int| a <= k < b ==> is_finished_command(#[trigger] s[k])
    &&& (a == 0 || !is_finished_command(s[a - 1]))
    &&& (b == s.len() || !is_finished_command(s[b]))
}

/// Whether one row is laid out right: a group is a whole run of at least
/// two finished commands, a single row is an entry outside such a run.
pub open spec fn row_fits(s: Seq<EntryKind>, r: TranscriptRow) -> bool {
    match r {
        TranscriptRow::Entry(i) => i < s.len() && !in_long_run(s, i as int),
        TranscriptRow::Group(a, b) => b >= a + 2 && whole_run(s, a as int, b as int),
    }
}

/// Whether `rows` cover the first `n` entries of `s` in order, each row
/// laid out right.
pub open spec fn rows_cover(s: Seq<EntryKind>, rows: Seq<TranscriptRow>, n: int) -> bool {
    &&& (rows.len() == 0 <==> n == 0)
    &&& rows.len() > 0 ==> row_start(rows[0]) == 0 && row_end(rows.last()) == n
    &&& forall|k: int| 0 <= k < rows.len() - 1 ==> row_end(#[trigger] rows[k]) == row_start(rows[k + 1])
    &&& forall|k: int| 0 <= k < rows.len() ==> row_fits(s, #[trigger] rows[k])
}

/// Whether the entry is a finished command.
fn finished_command(e: EntryKind) -> (r: bool)
    ensures
        r == is_finished_command(e),
{
    match e {
        EntryKind::CommandExecution { finished } => finished,
        _ => false,
    }
}

/// Groups runs of two-or-more finished command entries; anything else
/// (and a still-running command) renders row by row.
pub fn transcript_rows(entries: &[EntryKind]) -> (rows: Vec<TranscriptRow>)
    ensures
        rows_cover(entries@, rows@, entries@.len() as int),
{
    let n = entries.len();
    let ghost s = entries@;
    let mut rows: Vec<TranscriptRow> = Vec::new();
    let mut index: usize = 0;
    while index < n
        invariant
            n == entries.len(),
            s == entries@,
            index <= n,
            index == 0 || index == n || !(is_finished_command(s[index - 1]) && is_finished_command(
                s[index as int],
            )),
            rows_cover(s, rows@, index as int),
        decreases n - index,
    {
        let run_end = if finished_command(entries[index]) {
            let mut end = index + 1;
            while end < n && finished_command(entries[end])
                invariant
                    n == entries.len(),
                    s == entries@,
                    index < end <= n,
                    forall|k: int| index <= k < end ==> is_finished_command(#[trigger] s[k]),
                decreases n - end,
            {
                end = end + 1;
            }
            end
        } else {
            index + 1
        };
        let ghost old_rows = rows@;
        let row = if run_end - index > 1 {
            TranscriptRow::Group(index, run_end)
        } else {
            TranscriptRow::Entry(index)
        };
        assert(row_fits(s, row));
        rows.push(row);
        assert(rows@ == old_rows.push(row));
        assert(forall|k: int| 0 <= k < old_rows.len() ==> rows@[k] == old_rows[k]);
        index = run_end;
    }
    rows
}

/// Whether the agent message at `index` closes its turn: every later agent
/// message comes after a new user message (or there is none).
pub open spec fn spec_closes_turn(s: Seq<EntryKind>, index: int) -> bool {
    forall|j: int|
        index < j < s.len() && #[trigger] s[j] == EntryKind::AgentMessage ==> exists|k: int|
            index < k < j && s[k] == EntryKind::UserMessage
}

/// Whether the agent message at `index` closes its turn: it is the last
/// agent message before the next user message (or the end of the
/// transcript). Only the closer renders the copy/react action bar.
pub fn agent_message_closes_turn(entries: &[EntryKind], index: usize) -> (r: bool)
    requires
        index < entries.len(),
    ensures
        r == spec_closes_turn(entries@, index as int),
{
    let n = entries.len();
    let mut j: usize = index + 1;
    while j < n
        invariant
            n == entries.len(),
            index < j <= n,
            forall|k: int|
                index < k < j ==> #[trigger] entries@[k] != EntryKind::UserMessage && entries@[k]
                    != EntryKind::AgentMessage,
        decreases n - j,
    {
        match entries[j] {
            EntryKind::UserMessage => {
                assert forall|a: int|
                    index < a < entries@.len() && #[trigger] entries@[a] == EntryKind::AgentMessage implies exists|k: int|
                    index < k < a && entries@[k] == EntryKind::UserMessage by {
                    assert(a > j);
                    assert(entries@[j as int] == EntryKind::UserMessage);
                }
                return true;
            },
            EntryKind::AgentMessage => {
                assert(entries@[j as int] == EntryKind::AgentMessage);
                return false;
            },
            _ => {},
        }
        j = j + 1;
    }
    true
}

} // verus!
