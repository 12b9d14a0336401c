//! The My Quests board: which threads a project tab and the search filter
//! keep, and the sorted project tabs.

use crate::text::chars_of;
use crate::text::lowercase;
use crate::text::str_lowercase;
use crate::text::trim;
use crate::text::trim_str;
use vstd::prelude::*;

verus! {

/// One thread row as the board reads it.
#[derive(Debug, Clone, PartialEq, Eq)]
pub struct BoardThread {
    /// The row label (the thread name, or its preview).
    pub label: String,
    /// The thread's project directory.
    pub cwd: String,
}

/// Whether `needle` occurs in `hay` as a contiguous run.
pub open spec fn has_substring(hay: Seq<char>, needle: Seq<char>) -> bool {
    exists|i: int| 0 <= i && i + needle.len() <= hay.len() && #[trigger] hay.subrange(i, i + needle.len()) == needle
}

/// Whether the board keeps a row with `label` in `cwd`: the project tab
/// (`None` is "all") must match, and the trimmed, lower-cased filter must
/// be empty or occur in the lower-cased label or directory.
pub open spec fn board_keeps(label: Seq<char>, cwd: Seq<char>, project: Option<Seq<char>>, filter: Seq<char>) -> bool {
    let needle = str_lowercase(trim(filter));
    &&& (project is None || project == Some(cwd))
    &&& (needle.len() == 0 || has_substring(str_lowercase(label), needle) || has_substring(
        str_lowercase(cwd),
        needle,
    ))
}

/// The positions of the rows the board keeps, in list order.
pub open spec fn spec_visible_threads(
    threads: Seq<BoardThread>,
    project: Option<Seq<char>>,
    filter: Seq<char>,
) -> Seq<usize>
    decreases threads.len(),
{
    if threads.len() == 0 {
        seq![]
    } else {
        let rest = spec_visible_threads(threads.drop_last(), project, filter);
        let t = threads.last();
        if board_keeps(t.label@, t.cwd@, project, filter) {
            rest.push((threads.len() - 1) as usize)
        } else {
            rest
        }
    }
}

/// Whether `needle` occurs in `hay`.
pub fn contains_chars(hay: &[char], needle: &[char]) -> (r: bool)
    ensures
        r == has_substring(hay@, needle@),
{
    if needle.len() > hay.len() {
        return false;
    }
    let last = hay.len() - needle.len();
    let mut i: usize = 0;
    while i <= last
        invariant
            last == hay.len() - needle.len(),
            needle.len() <= hay.len(),
            i <= last + 1,
            forall|p: int| 0 <= p < i ==> #[trigger] hay@.subrange(p, p + needle@.len()) != needle@,
        decreases last + 1 - i,
    {
        let mut k: usize = 0;
        while k < needle.len() && hay[i + k] == needle[k]
            invariant
                i <= last,
                last == hay.len() - needle.len(),
                k <= needle.len(),
                forall|q: int| 0 <= q < k ==> hay@[i + q] == needle@[q],
            decreases needle.len() - k,
        {
            k = k + 1;
        }
        if k == needle.len() {
            assert(hay@.subrange(i as int, i + needle@.len()) =~= needle@);
            return true;
        }
        assert(hay@.subrange(i as int, i + needle@.len())[k as int] != needle@[k as int]);
        i = i + 1;
    }
    assert forall|p: int| 0 <= p && p + needle@.len() <= hay@.len() implies #[trigger] hay@.subrange(
        p,
        p + needle@.len(),
    ) != needle@ by {
        assert(p < i);
    }
    false
}

/// The threads the board shows (their positions): project tab plus
/// search filter applied.
pub fn visible_threads(threads: &[BoardThread], project: Option<&str>, filter: &str) -> (kept: Vec<usize>)
    ensures
        kept@ == spec_visible_threads(
            threads@,
            match project {
                Some(p) => Some(p@),
                None => None,
            },
            filter@,
        ),
{
    let ghost proj = match project {
        Some(p) => Some(p@),
        None => None,
    };
    let trimmed = trim_str(filter);
    let needle_text = lowercase(trimmed.as_str());
    let needle = chars_of(needle_text.as_str());
    let mut kept: Vec<usize> = Vec::new();
    let mut i: usize = 0;
    while i < threads.len()
        invariant
            i <= threads.len(),
            needle@ == str_lowercase(trim(filter@)),
            kept@ == spec_visible_threads(threads@.take(i as int), proj, filter@),
            proj == match project {
                Some(p) => Some(p@),
                None => None,
            },
        decreases threads.len() - i,
    {
        let t = &threads[i];
        let project_ok = match project {
            None => true,
            Some(p) => crate::text::eq_str(t.cwd.as_str(), p),
        };
        let keep = project_ok && (needle.len() == 0 || {
            let label = lowercase(t.label.as_str());
            contains_chars(chars_of(label.as_str()).as_slice(), needle.as_slice())
        } || {
            let cwd = lowercase(t.cwd.as_str());
            contains_chars(chars_of(cwd.as_str()).as_slice(), needle.as_slice())
        });
        proof {
            let prefix = threads@.take(i + 1);
            assert(prefix.drop_last() =~= threads@.take(i as int));
            assert(prefix.last() == threads@[i as int]);
            assert(keep == board_keeps(t.label@, t.cwd@, proj, filter@));
        }
        if keep {
            kept.push(i);
        }
        i = i + 1;
    }
    assert(threads@.take(threads@.len() as int) =~= threads@);
    kept
}

/// Lexicographic order on character sequences (what `String`'s `Ord`
/// gives: UTF-8 keeps code-point order).
pub open spec fn lex_lt(a: Seq<char>, b: Seq<char>) -> bool
    decreases a.len(),
{
    if a.len() == 0 {
        b.len() > 0
    } else if b.len() == 0 {
        false
    } else if a[0] != b[0] {
        a[0] < b[0]
    } else {
        lex_lt(a.drop_first(), b.drop_first())
    }
}

/// `lex_lt` is transitive.
proof fn lemma_lex_lt_transitive(a: Seq<char>, b: Seq<char>, c: Seq<char>)
    requires
        lex_lt(a, b),
        lex_lt(b, c),
    ensures
        lex_lt(a, c),
    decreases a.len(),
{
    if a.len() > 0 && b.len() > 0 && c.len() > 0 && a[0] == b[0] && b[0] == c[0] {
        lemma_lex_lt_transitive(a.drop_first(), b.drop_first(), c.drop_first());
    }
}

/// `lex_lt` is total on distinct sequences and irreflexive.
proof fn lemma_lex_lt_total(a: Seq<char>, b: Seq<char>)
    ensures
        a != b ==> lex_lt(a, b) || lex_lt(b, a),
        !(lex_lt(a, b) && lex_lt(b, a)),
    decreases a.len(),
{
    if a.len() > 0 && b.len() > 0 {
        if a[0] == b[0] {
            lemma_lex_lt_total(a.drop_first(), b.drop_first());
            if a != b {
                assert(a.drop_first() != b.drop_first()) by {
                    if a.drop_first() == b.drop_first() {
                        assert(a =~= seq![a[0]] + a.drop_first());
                        assert(b =~= seq![b[0]] + b.drop_first());
                    }
                }
            }
        }
    } else if a.len() == 0 && b.len() == 0 {
        assert(a =~= b);
    }
}

/// Whether `s` is strictly increasing in `lex_lt`.
pub open spec fn strictly_sorted(s: Seq<Seq<char>>) -> bool {
    forall|i: int, j: int| 0 <= i < j < s.len() ==> lex_lt(#[trigger] s[i], #[trigger] s[j])
}

/// Whether `a` orders before `b`.
fn str_lt(a: &str, b: &str) -> (r: bool)
    ensures
        r == lex_lt(a@, b@),
{
    let ca = chars_of(a);
    let cb = chars_of(b);
    let mut i: usize = 0;
    proof {
        assert(a@.skip(0) =~= a@);
        assert(b@.skip(0) =~= b@);
    }
    while i < ca.len() && i < cb.len() && ca[i] == cb[i]
        invariant
            ca@ == a@,
            cb@ == b@,
            i <= ca.len(),
            i <= cb.len(),
            lex_lt(a@, b@) == lex_lt(a@.skip(i as int), b@.skip(i as int)),
        decreases ca.len() - i,
    {
        proof {
            assert(a@.skip(i as int).drop_first() =~= a@.skip(i + 1));
            assert(b@.skip(i as int).drop_first() =~= b@.skip(i + 1));
        }
        i = i + 1;
    }
    proof {
        assert(a@.skip(i as int).len() == 0 ==> i == ca.len());
        if i < ca.len() && i < cb.len() {
            assert(a@.skip(i as int)[0] == ca@[i as int]);
            assert(b@.skip(i as int)[0] == cb@[i as int]);
        }
    }
    if i == ca.len() {
        i < cb.len()
    } else if i == cb.len() {
        false
    } else {
        ca[i] < cb[i]
    }
}

/// The texts of a list of strings.
pub open spec fn text_views(v: Seq<String>) -> Seq<Seq<char>> {
    v.map_values(|s: String| s@)
}

/// The distinct project directories of the rows, sorted for stable tabs.
pub fn projects(threads: &[BoardThread]) -> (tabs: Vec<String>)
    ensures
        strictly_sorted(text_views(tabs@)),
        forall|p: Seq<char>|
            #[trigger] text_views(tabs@).contains(p) <==> exists|i: int|
                0 <= i < threads@.len() && #[trigger] threads@[i].cwd@ == p,
{
    let mut tabs: Vec<String> = Vec::new();
    let mut i: usize = 0;
    while i < threads.len()
        invariant
            i <= threads.len(),
            strictly_sorted(text_views(tabs@)),
            forall|p: Seq<char>|
                #[trigger] text_views(tabs@).contains(p) <==> exists|k: int|
                    0 <= k < i && #[trigger] threads@[k].cwd@ == p,
        decreases threads.len() - i,
    {
        let cwd = &threads[i].cwd;
        let ghost v = text_views(tabs@);
        let mut p: usize = 0;
        while p < tabs.len() && str_lt(tabs[p].as_str(), cwd.as_str())
            invariant
                v == text_views(tabs@),
                p <= tabs.len(),
                forall|q: int| 0 <= q < p ==> lex_lt(#[trigger] v[q], cwd@),
            decreases tabs.len() - p,
        {
            p = p + 1;
        }
        let present = p < tabs.len() && crate::text::eq_str(tabs[p].as_str(), cwd.as_str());
        if !present {
            proof {
                if p < v.len() {
                    lemma_lex_lt_total(v[p as int], cwd@);
                }
            }
            tabs.insert(p, cwd.clone());
            proof {
                let w = text_views(tabs@);
                assert(w =~= v.insert(p as int, cwd@));
                assert forall|a: int, b: int| 0 <= a < b < w.len() implies lex_lt(#[trigger] w[a], #[trigger] w[b]) by {
                    if b == p {
                        assert(w[a] == v[a]);
                    } else if a == p {
                        assert(w[b] == v[b - 1]);
                        if b - 1 > p {
                            lemma_lex_lt_transitive(cwd@, v[p as int], v[b - 1]);
                        }
                    } else {
                        let oa = if a < p { a } else { a - 1 };
                        let ob = if b < p { b } else { b - 1 };
                        assert(w[a] == v[oa] && w[b] == v[ob]);
                    }
                }
                assert forall|x: Seq<char>| #[trigger] w.contains(x) <==> exists|k: int|
                    0 <= k < i + 1 && #[trigger] threads@[k].cwd@ == x by {
                    if w.contains(x) {
                        let j = choose|j: int| 0 <= j < w.len() && w[j] == x;
                        if j != p {
                            let oj = if j < p { j } else { j - 1 };
                            assert(v[oj] == x);
                            assert(v.contains(x));
                        } else {
                            assert(threads@[i as int].cwd@ == x);
                        }
                    }
                    if exists|k: int| 0 <= k < i + 1 && #[trigger] threads@[k].cwd@ == x {
                        let k = choose|k: int| 0 <= k < i + 1 && #[trigger] threads@[k].cwd@ == x;
                        if k == i {
                            assert(w[p as int] == x);
                        } else {
                            assert(v.contains(x));
                            let j = choose|j: int| 0 <= j < v.len() && v[j] == x;
                            let nj = if j < p { j } else { j + 1 };
                            assert(w[nj] == x);
                        }
                    }
                }
            }
        } else {
            proof {
                assert(v[p as int] == cwd@);
                assert forall|x: Seq<char>| #[trigger] v.contains(x) <==> exists|k: int|
                    0 <= k < i + 1 && #[trigger] threads@[k].cwd@ == x by {
                    if exists|k: int| 0 <= k < i + 1 && #[trigger] threads@[k].cwd@ == x {
                        let k = choose|k: int| 0 <= k < i + 1 && #[trigger] threads@[k].cwd@ == x;
                        if k == i {
                            assert(v[p as int] == x);
                        }
                    }
                }
            }
        }
        i = i + 1;
    }
    tabs
}

} // verus!
