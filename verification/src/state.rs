//! The shell's plain state pieces: palette, search, quest overlays, the
//! central preview tabs, status, and the commit composer.

use crate::message::QuestScenario;
use crate::paths::path_eq;
use crate::paths::paths_equal;
use std::collections::BTreeSet;
use vstd::prelude::*;

verus! {

/// The command palette's runtime bits: open flag, query, cursor.
#[derive(Debug, Clone, PartialEq, Eq)]
pub struct PaletteState {
    /// Whether the palette overlay is up.
    pub open: bool,
    /// Current query typed into the palette input.
    pub query: String,
    /// Highlighted row into the filtered action list.
    pub selected: usize,
}

impl Default for PaletteState {
    fn default() -> (r: Self)
        ensures
            !r.open,
            r.query@ == Seq::<char>::empty(),
            r.selected == 0,
    {
        PaletteState { open: false, query: String::new(), selected: 0 }
    }
}

/// The transcript search bar: open flag, query, and the highlighted hit.
#[derive(Debug, Clone, PartialEq, Eq)]
pub struct ChatSearch {
    /// Whether the search bar is shown above the transcript.
    pub open: bool,
    /// Current query; blank means the transcript renders unfiltered.
    pub query: String,
    /// Index of the highlighted hit inside the hit list.
    pub hit: usize,
}

impl Default for ChatSearch {
    fn default() -> (r: Self)
        ensures
            !r.open,
            r.query@ == Seq::<char>::empty(),
            r.hit == 0,
    {
        ChatSearch { open: false, query: String::new(), hit: 0 }
    }
}

/// The per-quest action menu: which row is open and whether its delete
/// entry awaits confirmation.
#[derive(Debug, Clone, PartialEq, Eq)]
pub struct QuestMenu {
    /// The thread whose menu is open, when any.
    pub thread_id: Option<String>,
    /// Whether the delete entry shows its confirm state.
    pub confirm_delete: bool,
}

impl Default for QuestMenu {
    fn default() -> (r: Self)
        ensures
            r.thread_id is None,
            !r.confirm_delete,
    {
        QuestMenu { thread_id: None, confirm_delete: false }
    }
}

/// The rename dialog: the target thread plus the draft text.
#[derive(Debug, Clone, PartialEq, Eq)]
pub struct QuestRename {
    /// Thread being renamed.
    pub thread_id: String,
    /// Draft name bound to the dialog input.
    pub draft: String,
}

/// The Quest-mode overlay cluster: scenario picker, per-row action menu,
/// rename dialog, and the My Quests board.
#[derive(Debug, Clone, PartialEq, Eq)]
pub struct QuestOverlays {
    /// Scenario picker visibility (the create button's menu).
    pub picker_open: bool,
    /// The scenario picked for the live quest, shown as a header chip.
    pub scenario: Option<QuestScenario>,
    /// The per-row action menu.
    pub menu: QuestMenu,
    /// The rename dialog, when open.
    pub rename: Option<QuestRename>,
    /// My Quests board visibility.
    pub board_open: bool,
    /// Board project tab; `None` is "all projects".
    pub board_project: Option<String>,
    /// Board search query.
    pub board_filter: String,
    /// The launch page's workspace dropdown visibility.
    pub workspace_menu: bool,
    /// Whether the rail quest list shows past its row cap.
    pub list_expanded: bool,
}

impl Default for QuestOverlays {
    fn default() -> (r: Self)
        ensures
            !r.spec_any_open(),
            r.scenario is None,
            r.board_project is None,
            r.board_filter@ == Seq::<char>::empty(),
            !r.list_expanded,
            !r.menu.confirm_delete,
    {
        QuestOverlays {
            picker_open: false,
            scenario: None,
            menu: QuestMenu::default(),
            rename: None,
            board_open: false,
            board_project: None,
            board_filter: String::new(),
            workspace_menu: false,
            list_expanded: false,
        }
    }
}

impl QuestOverlays {
    /// Whether any overlay currently owns the keyboard.
    pub open spec fn spec_any_open(&self) -> bool {
        ||| self.picker_open
        ||| self.menu.thread_id is Some
        ||| self.rename is Some
        ||| self.board_open
        ||| self.workspace_menu
    }

    /// Dismisses every transient overlay (Esc, mode switches, resumes);
    /// the scenario chip, board tab and filter, and the list cap stay.
    pub fn close_transient(&mut self)
        ensures
            !final(self).spec_any_open(),
            !final(self).menu.confirm_delete,
            final(self).scenario == old(self).scenario,
            final(self).board_project == old(self).board_project,
            final(self).board_filter == old(self).board_filter,
            final(self).list_expanded == old(self).list_expanded,
    {
        self.picker_open = false;
        self.menu = QuestMenu::default();
        self.rename = None;
        self.board_open = false;
        self.workspace_menu = false;
    }

    /// Whether any overlay currently owns the keyboard.
    pub fn any_open(&self) -> (r: bool)
        ensures
            r == self.spec_any_open(),
    {
        self.picker_open || self.menu.thread_id.is_some() || self.rename.is_some()
            || self.board_open || self.workspace_menu
    }
}

/// The body shown for one preview tab.
#[derive(Debug, Clone, PartialEq, Eq)]
pub enum FileBody {
    /// The read is still running.
    Loading,
    /// Decodable UTF-8 text, truncated at the preview size cap.
    Text(String),
    /// Not valid UTF-8; there is nothing readable to show.
    Binary,
    /// Larger than the preview size cap.
    TooLarge,
    /// The read itself failed; the payload is the reason.
    Failed(String),
}

/// The index of the first entry of `s` equal to `p` as a path, or -1.
pub open spec fn first_match(s: Seq<Seq<char>>, p: Seq<char>) -> int
    decreases s.len(),
{
    if s.len() == 0 {
        -1
    } else {
        let r = first_match(s.drop_last(), p);
        if r >= 0 {
            r
        } else if path_eq(s.last(), p) {
            s.len() - 1
        } else {
            -1
        }
    }
}

/// [`first_match`] is the least matching index, or -1 when none matches.
pub proof fn lemma_first_match(s: Seq<Seq<char>>, p: Seq<char>)
    ensures
        -1 <= first_match(s, p) < s.len(),
        first_match(s, p) >= 0 ==> path_eq(s[first_match(s, p)], p),
        forall|j: int| 0 <= j < s.len() && (first_match(s, p) < 0 || j < first_match(s, p))
            ==> !path_eq(#[trigger] s[j], p),
    decreases s.len(),
{
    if s.len() > 0 {
        lemma_first_match(s.drop_last(), p);
        assert forall|j: int| 0 <= j < s.len() - 1 implies #[trigger] s[j] == s.drop_last()[j] by {}
    }
}

/// A path equal to some entry has a first match no later than that entry.
pub proof fn lemma_match_found(s: Seq<Seq<char>>, p: Seq<char>, i: int)
    requires
        0 <= i < s.len(),
        path_eq(s[i], p),
    ensures
        0 <= first_match(s, p) <= i,
{
    lemma_first_match(s, p);
}

/// The keys of a body table.
pub open spec fn body_keys(b: Seq<(Seq<char>, FileBody)>) -> Seq<Seq<char>> {
    b.map_values(|e: (Seq<char>, FileBody)| e.0)
}

/// The body table after storing `body` under `p`: an entry with an equal
/// path keeps its key and takes the new body, otherwise one is appended.
pub open spec fn bodies_insert(
    b: Seq<(Seq<char>, FileBody)>,
    p: Seq<char>,
    body: FileBody,
) -> Seq<(Seq<char>, FileBody)> {
    let k = first_match(body_keys(b), p);
    if k >= 0 {
        b.update(k, (b[k].0, body))
    } else {
        b.push((p, body))
    }
}

/// The body table without the entry stored under `p`.
pub open spec fn bodies_remove(b: Seq<(Seq<char>, FileBody)>, p: Seq<char>) -> Seq<
    (Seq<char>, FileBody),
> {
    let k = first_match(body_keys(b), p);
    if k >= 0 {
        b.remove(k)
    } else {
        b
    }
}

/// The abstract value of [`EditorPane`].
pub ghost struct EditorView {
    pub tabs: Seq<Seq<char>>,
    pub active: Option<Seq<char>>,
    pub bodies: Seq<(Seq<char>, FileBody)>,
}

/// No two entries of `s` are the same path.
pub open spec fn distinct_paths(s: Seq<Seq<char>>) -> bool {
    forall|i: int, j: int| 0 <= i < j < s.len() ==> !path_eq(#[trigger] s[i], #[trigger] s[j])
}

/// Every tab of `tabs` has an entry in the body table.
pub open spec fn every_tab_has_a_body(tabs: Seq<Seq<char>>, bodies: Seq<(Seq<char>, FileBody)>) -> bool {
    forall|i: int| 0 <= i < tabs.len() ==> first_match(body_keys(bodies), #[trigger] tabs[i]) >= 0
}

/// Appending an entry keeps every earlier match where it was.
proof fn lemma_first_match_push(s: Seq<Seq<char>>, x: Seq<char>, q: Seq<char>)
    requires
        first_match(s, q) >= 0,
    ensures
        first_match(s.push(x), q) == first_match(s, q),
{
    assert(s.push(x).drop_last() =~= s);
}

/// Removing another entry keeps a match found.
proof fn lemma_first_match_remove(s: Seq<Seq<char>>, q: Seq<char>, k: int)
    requires
        first_match(s, q) >= 0,
        0 <= k < s.len(),
        !path_eq(s[k], q),
    ensures
        first_match(s.remove(k), q) >= 0,
{
    lemma_first_match(s, q);
    let m = first_match(s, q);
    assert(m != k);
    let nm = if m < k { m } else { m - 1 };
    assert(s.remove(k)[nm] == s[m]);
    lemma_match_found(s.remove(k), q, nm);
}

/// Storing a body never loses the body of a tab.
proof fn lemma_bodies_insert_keeps(b: Seq<(Seq<char>, FileBody)>, p: Seq<char>, body: FileBody, q: Seq<char>)
    requires
        first_match(body_keys(b), q) >= 0,
    ensures
        first_match(body_keys(bodies_insert(b, p, body)), q) >= 0,
{
    let keys = body_keys(b);
    if first_match(keys, p) >= 0 {
        lemma_first_match(keys, p);
        assert(body_keys(bodies_insert(b, p, body)) =~= keys);
    } else {
        assert(body_keys(bodies_insert(b, p, body)) =~= keys.push(p));
        lemma_first_match_push(keys, p, q);
    }
}

impl EditorView {
    /// Tabs and body keys are distinct paths, the active tab (when any) is
    /// one of the open tabs, and every open tab has a body.
    pub open spec fn well_formed(self) -> bool {
        &&& distinct_paths(self.tabs)
        &&& distinct_paths(body_keys(self.bodies))
        &&& (self.active matches Some(a) ==> first_match(self.tabs, a) >= 0)
        &&& every_tab_has_a_body(self.tabs, self.bodies)
    }

    /// The pane after opening `p`.
    pub open spec fn after_open(self, p: Seq<char>) -> EditorView {
        if first_match(self.tabs, p) >= 0 {
            EditorView { active: Some(p), ..self }
        } else {
            EditorView {
                tabs: self.tabs.push(p),
                active: Some(p),
                bodies: bodies_insert(self.bodies, p, FileBody::Loading),
            }
        }
    }

    /// The pane after focusing `p`.
    pub open spec fn after_select(self, p: Seq<char>) -> EditorView {
        if first_match(self.tabs, p) >= 0 {
            EditorView { active: Some(p), ..self }
        } else {
            self
        }
    }

    /// The pane after closing `p`: the tab and its body leave; closing the
    /// active tab activates its left neighbor (none for the first tab).
    pub open spec fn after_close(self, p: Seq<char>) -> EditorView {
        let k = first_match(self.tabs, p);
        if k < 0 {
            self
        } else {
            EditorView {
                tabs: self.tabs.remove(k),
                bodies: bodies_remove(self.bodies, p),
                active: match self.active {
                    Some(a) => if path_eq(a, p) {
                        if k == 0 { None } else { Some(self.tabs[k - 1]) }
                    } else {
                        Some(a)
                    },
                    None => None,
                },
            }
        }
    }
}

/// Body tables keep their keys distinct under inserts and removals.
proof fn lemma_bodies_distinct(b: Seq<(Seq<char>, FileBody)>, p: Seq<char>, body: FileBody)
    requires
        distinct_paths(body_keys(b)),
    ensures
        distinct_paths(body_keys(bodies_insert(b, p, body))),
        distinct_paths(body_keys(bodies_remove(b, p))),
{
    let keys = body_keys(b);
    lemma_first_match(keys, p);
    let k = first_match(keys, p);
    let ins = body_keys(bodies_insert(b, p, body));
    if k >= 0 {
        assert(ins =~= keys);
    } else {
        assert(ins =~= keys.push(p));
    }
    let rem = body_keys(bodies_remove(b, p));
    if k >= 0 {
        assert(rem =~= keys.remove(k));
        assert forall|i: int, j: int| 0 <= i < j < rem.len() implies !path_eq(
            #[trigger] rem[i],
            #[trigger] rem[j],
        ) by {
            let oi = if i < k { i } else { i + 1 };
            let oj = if j < k { j } else { j + 1 };
            assert(rem[i] == keys[oi]);
            assert(rem[j] == keys[oj]);
        }
    }
}

/// Opening, focusing, closing tabs and storing bodies keep the preview
/// pane well formed: tabs and body keys stay distinct paths, the active
/// tab stays one of the open tabs, and every open tab keeps a body.
pub proof fn lemma_editor_stays_well_formed(v: EditorView, p: Seq<char>, body: FileBody)
    requires
        v.well_formed(),
    ensures
        v.after_open(p).well_formed(),
        v.after_select(p).well_formed(),
        v.after_close(p).well_formed(),
        (EditorView { bodies: bodies_insert(v.bodies, p, body), ..v }).well_formed(),
{
    lemma_first_match(v.tabs, p);
    lemma_bodies_distinct(v.bodies, p, body);
    lemma_bodies_distinct(v.bodies, p, FileBody::Loading);
    let keys = body_keys(v.bodies);
    assert forall|i: int| 0 <= i < v.tabs.len() implies first_match(
        body_keys(bodies_insert(v.bodies, p, body)),
        #[trigger] v.tabs[i],
    ) >= 0 by {
        lemma_bodies_insert_keeps(v.bodies, p, body, v.tabs[i]);
    }
    let k = first_match(v.tabs, p);
    if k < 0 {
        let o = v.after_open(p);
        assert forall|i: int| 0 <= i < o.tabs.len() implies first_match(body_keys(o.bodies), #[trigger] o.tabs[i])
            >= 0 by {
            if i < v.tabs.len() {
                assert(o.tabs[i] == v.tabs[i]);
                lemma_bodies_insert_keeps(v.bodies, p, FileBody::Loading, v.tabs[i]);
            } else {
                assert(o.tabs[i] == p);
                if first_match(keys, p) >= 0 {
                    lemma_first_match(keys, p);
                    assert(body_keys(o.bodies) =~= keys);
                } else {
                    assert(body_keys(o.bodies) =~= keys.push(p));
                    lemma_match_found(keys.push(p), p, keys.len() as int);
                }
            }
        }
        let t = v.tabs.push(p);
        lemma_match_found(t, p, v.tabs.len() as int);
        assert forall|i: int, j: int| 0 <= i < j < t.len() implies !path_eq(
            #[trigger] t[i],
            #[trigger] t[j],
        ) by {
            if j == v.tabs.len() {
                assert(t[i] == v.tabs[i]);
            }
        }
    } else {
        let t = v.tabs.remove(k);
        let km = first_match(keys, p);
        lemma_first_match(keys, p);
        assert forall|i: int| 0 <= i < t.len() implies first_match(
            body_keys(bodies_remove(v.bodies, p)),
            #[trigger] t[i],
        ) >= 0 by {
            let oi = if i < k { i } else { i + 1 };
            assert(t[i] == v.tabs[oi]);
            assert(!path_eq(v.tabs[oi], p)) by {
                if oi < k {
                    assert(!path_eq(v.tabs[oi], v.tabs[k]));
                } else {
                    assert(!path_eq(v.tabs[k], v.tabs[oi]));
                }
            }
            assert(first_match(keys, v.tabs[oi]) >= 0);
            if km >= 0 {
                assert(body_keys(bodies_remove(v.bodies, p)) =~= keys.remove(km));
                lemma_first_match(keys, v.tabs[oi]);
                lemma_first_match_remove(keys, v.tabs[oi], km);
            }
        }
        assert forall|i: int, j: int| 0 <= i < j < t.len() implies !path_eq(
            #[trigger] t[i],
            #[trigger] t[j],
        ) by {
            let oi = if i < k { i } else { i + 1 };
            let oj = if j < k { j } else { j + 1 };
            assert(t[i] == v.tabs[oi]);
            assert(t[j] == v.tabs[oj]);
        }
        let c = v.after_close(p);
        match v.active {
            Some(a) => {
                if path_eq(a, p) {
                    if k > 0 {
                        assert(t[k - 1] == v.tabs[k - 1]);
                        lemma_match_found(t, v.tabs[k - 1], k - 1);
                    }
                } else {
                    lemma_first_match(v.tabs, a);
                    let m = first_match(v.tabs, a);
                    assert(m != k);
                    let nm = if m < k { m } else { m - 1 };
                    assert(t[nm] == v.tabs[m]);
                    lemma_match_found(t, a, nm);
                }
            },
            None => {},
        }
    }
}

/// Opening a path that has no tab and no stored body, then closing it,
/// gives back the tab list and body table from before.
pub proof fn lemma_open_then_close_restores(v: EditorView, p: Seq<char>)
    requires
        v.well_formed(),
        first_match(v.tabs, p) < 0,
        first_match(body_keys(v.bodies), p) < 0,
    ensures
        v.after_open(p).after_close(p).tabs == v.tabs,
        v.after_open(p).after_close(p).bodies == v.bodies,
{
    let o = v.after_open(p);
    lemma_first_match(v.tabs, p);
    lemma_match_found(o.tabs, p, v.tabs.len() as int);
    lemma_first_match(o.tabs, p);
    assert(first_match(o.tabs, p) == v.tabs.len());
    assert(o.tabs.remove(v.tabs.len() as int) =~= v.tabs);
    let keys = body_keys(v.bodies);
    lemma_first_match(keys, p);
    assert(o.bodies == v.bodies.push((p, FileBody::Loading)));
    let okeys = body_keys(o.bodies);
    assert(okeys =~= keys.push(p));
    lemma_match_found(okeys, p, keys.len() as int);
    lemma_first_match(okeys, p);
    assert(first_match(okeys, p) == keys.len());
    assert(o.bodies.remove(keys.len() as int) =~= v.bodies);
}

/// The central file-preview area: open tabs in click order, the active
/// tab, and the body loaded per tab.
#[derive(Debug, Clone, PartialEq, Eq)]
pub struct EditorPane {
    /// Open preview tabs, oldest first.
    pub tabs: Vec<String>,
    /// The tab whose body is on screen.
    pub active: Option<String>,
    /// Loaded body per tab; [`FileBody::Loading`] until the read settles.
    pub bodies: Vec<(String, FileBody)>,
}

impl View for EditorPane {
    type V = EditorView;

    open spec fn view(&self) -> EditorView {
        EditorView {
            tabs: self.tabs@.map_values(|s: String| s@),
            active: match self.active {
                Some(a) => Some(a@),
                None => None,
            },
            bodies: self.bodies@.map_values(|e: (String, FileBody)| (e.0@, e.1)),
        }
    }
}

impl Default for EditorPane {
    fn default() -> (r: Self)
        ensures
            r@.tabs.len() == 0,
            r@.active is None,
            r@.bodies.len() == 0,
            r@.well_formed(),
    {
        EditorPane { tabs: Vec::new(), active: None, bodies: Vec::new() }
    }
}

/// The position of the first tab equal to `path` as a path.
fn tab_position(tabs: &Vec<String>, path: &str) -> (r: Option<usize>)
    ensures
        match r {
            Some(k) => k < tabs.len() && k as int == first_match(
                tabs@.map_values(|s: String| s@),
                path@,
            ),
            None => first_match(tabs@.map_values(|s: String| s@), path@) < 0,
        },
{
    let ghost v = tabs@.map_values(|s: String| s@);
    proof {
        lemma_first_match(v, path@);
    }
    let mut i: usize = 0;
    while i < tabs.len()
        invariant
            v == tabs@.map_values(|s: String| s@),
            i <= tabs.len(),
            -1 <= first_match(v, path@) < v.len(),
            first_match(v, path@) >= 0 ==> path_eq(v[first_match(v, path@)], path@),
            forall|j: int| 0 <= j < v.len() && (first_match(v, path@) < 0 || j < first_match(v, path@))
                ==> !path_eq(#[trigger] v[j], path@),
            forall|j: int| 0 <= j < i ==> !path_eq(#[trigger] v[j], path@),
        decreases tabs.len() - i,
    {
        assert(v[i as int] == tabs@[i as int]@);
        if paths_equal(tabs[i].as_str(), path) {
            return Some(i);
        }
        i = i + 1;
    }
    None
}

/// The position of the body entry stored under `path`.
fn body_position(bodies: &Vec<(String, FileBody)>, path: &str) -> (r: Option<usize>)
    ensures
        match r {
            Some(k) => k < bodies.len() && k as int == first_match(
                body_keys(bodies@.map_values(|e: (String, FileBody)| (e.0@, e.1))),
                path@,
            ),
            None => first_match(
                body_keys(bodies@.map_values(|e: (String, FileBody)| (e.0@, e.1))),
                path@,
            ) < 0,
        },
{
    let ghost v = body_keys(bodies@.map_values(|e: (String, FileBody)| (e.0@, e.1)));
    proof {
        lemma_first_match(v, path@);
    }
    let mut i: usize = 0;
    while i < bodies.len()
        invariant
            v == body_keys(bodies@.map_values(|e: (String, FileBody)| (e.0@, e.1))),
            i <= bodies.len(),
            -1 <= first_match(v, path@) < v.len(),
            first_match(v, path@) >= 0 ==> path_eq(v[first_match(v, path@)], path@),
            forall|j: int| 0 <= j < v.len() && (first_match(v, path@) < 0 || j < first_match(v, path@))
                ==> !path_eq(#[trigger] v[j], path@),
            forall|j: int| 0 <= j < i ==> !path_eq(#[trigger] v[j], path@),
        decreases bodies.len() - i,
    {
        assert(v[i as int] == bodies@[i as int].0@);
        if paths_equal(bodies[i].0.as_str(), path) {
            return Some(i);
        }
        i = i + 1;
    }
    None
}

impl EditorPane {
    /// Stores the body loaded for `path`.
    pub fn store_body(&mut self, path: &str, body: FileBody)
        ensures
            final(self)@ == (EditorView {
                bodies: bodies_insert(old(self)@.bodies, path@, body),
                ..old(self)@
            }),
    {
        match body_position(&self.bodies, path) {
            Some(k) => {
                let key = self.bodies[k].0.clone();
                self.bodies.set(k, (key, body));
            },
            None => {
                self.bodies.push((path.to_string(), body));
            },
        }
        assert(final(self)@.bodies =~= bodies_insert(old(self)@.bodies, path@, body));
    }

    /// Opens the file or focuses its existing tab; returns `true` when a
    /// fresh tab was created (the caller loads the body).
    pub fn open(&mut self, path: &str) -> (fresh: bool)
        ensures
            fresh == (first_match(old(self)@.tabs, path@) < 0),
            final(self)@ == old(self)@.after_open(path@),
    {
        if tab_position(&self.tabs, path).is_some() {
            self.active = Some(path.to_string());
            return false;
        }
        self.store_body(path, FileBody::Loading);
        self.tabs.push(path.to_string());
        self.active = Some(path.to_string());
        assert(final(self)@.tabs =~= old(self)@.tabs.push(path@));
        true
    }

    /// Focuses an already-open tab.
    pub fn select(&mut self, path: &str)
        ensures
            final(self)@ == old(self)@.after_select(path@),
    {
        if tab_position(&self.tabs, path).is_some() {
            self.active = Some(path.to_string());
        }
    }

    /// Closes a tab; closing the active one activates its left neighbor.
    pub fn close(&mut self, path: &str)
        ensures
            final(self)@ == old(self)@.after_close(path@),
    {
        let index = match tab_position(&self.tabs, path) {
            Some(k) => k,
            None => {
                return;
            },
        };
        let ghost old_tabs = self@.tabs;
        self.tabs.remove(index);
        assert(self@.tabs =~= old_tabs.remove(index as int));
        match body_position(&self.bodies, path) {
            Some(k) => {
                let ghost old_bodies = self@.bodies;
                self.bodies.remove(k);
                assert(self@.bodies =~= old_bodies.remove(k as int));
            },
            None => {},
        }
        let active_closed = match &self.active {
            Some(a) => paths_equal(a.as_str(), path),
            None => false,
        };
        if active_closed {
            if index == 0 {
                self.active = None;
            } else {
                self.active = Some(self.tabs[index - 1].clone());
                assert(self@.active == Some(old_tabs[index - 1]));
            }
        }
    }
}

/// High-level lifecycle indicator.
#[derive(Debug, Clone, PartialEq, Eq)]
pub enum Status {
    /// Spawning and handshaking with the backend.
    Bootstrapping,
    /// Ready for user input.
    Ready,
    /// A turn is streaming.
    Thinking,
    /// The backend is gone; the payload describes why.
    Disconnected(String),
}

/// The AI commit draft lifecycle.
#[derive(Debug, Clone, PartialEq, Eq)]
pub enum GitOverlayStatus {
    /// Nothing running.
    Idle,
    /// A draft turn is running on the throwaway thread.
    Drafting,
    /// The last commit or draft failed; the payload is the reason.
    Failed(String),
}

impl Default for GitOverlayStatus {
    fn default() -> (r: Self)
        ensures
            r == GitOverlayStatus::Idle,
    {
        GitOverlayStatus::Idle
    }
}

/// Every working-tree row index below `n`.
pub fn indexes_below(n: usize) -> (r: BTreeSet<usize>)
    ensures
        r@ == Set::new(|i: usize| i < n),
{
    let mut r: BTreeSet<usize> = BTreeSet::new();
    let mut i: usize = 0;
    assert(r@ =~= Set::new(|j: usize| j < 0));
    while i < n
        invariant
            i <= n,
            r@ == Set::new(|j: usize| j < i),
        decreases n - i,
    {
        r.insert(i);
        assert(r@ =~= Set::new(|j: usize| j < i + 1));
        i = i + 1;
    }
    r
}

/// The commit-composer overlay state.
#[derive(Debug)]
pub struct GitOverlayState {
    /// Overlay visibility.
    pub open: bool,
    /// Selected file indexes from the working-tree list.
    pub selected: BTreeSet<usize>,
    /// Draft commit message.
    pub message: String,
    /// Staged diff captured for the running AI draft.
    pub draft_diff: Option<String>,
    /// The throwaway thread drafting an AI commit message.
    pub draft_thread: Option<String>,
    /// Where the AI draft stands.
    pub status: GitOverlayStatus,
}

impl Default for GitOverlayState {
    fn default() -> (r: Self)
        ensures
            !r.open,
            r.selected@ == Set::<usize>::empty(),
            r.message@ == Seq::<char>::empty(),
            r.draft_diff is None,
            r.draft_thread is None,
            r.status == GitOverlayStatus::Idle,
    {
        GitOverlayState {
            open: false,
            selected: BTreeSet::new(),
            message: String::new(),
            draft_diff: None,
            draft_thread: None,
            status: GitOverlayStatus::Idle,
        }
    }
}

/// The abstract value of [`PaletteState`].
pub ghost struct PaletteView {
    pub open: bool,
    pub query: Seq<char>,
    pub selected: usize,
}

impl View for PaletteState {
    type V = PaletteView;

    open spec fn view(&self) -> PaletteView {
        PaletteView { open: self.open, query: self.query@, selected: self.selected }
    }
}

/// The abstract value of [`ChatSearch`].
pub ghost struct SearchView {
    pub open: bool,
    pub query: Seq<char>,
    pub hit: usize,
}

impl View for ChatSearch {
    type V = SearchView;

    open spec fn view(&self) -> SearchView {
        SearchView { open: self.open, query: self.query@, hit: self.hit }
    }
}

/// The text of an optional string.
pub open spec fn opt_view(o: Option<String>) -> Option<Seq<char>> {
    match o {
        Some(s) => Some(s@),
        None => None,
    }
}

/// The abstract value of [`QuestOverlays`].
pub ghost struct QuestView {
    pub picker_open: bool,
    pub scenario: Option<QuestScenario>,
    pub menu_thread: Option<Seq<char>>,
    pub confirm_delete: bool,
    pub rename: Option<(Seq<char>, Seq<char>)>,
    pub board_open: bool,
    pub board_project: Option<Seq<char>>,
    pub board_filter: Seq<char>,
    pub workspace_menu: bool,
    pub list_expanded: bool,
}

impl QuestView {
    /// Whether any overlay currently owns the keyboard.
    pub open spec fn any_open(self) -> bool {
        ||| self.picker_open
        ||| self.menu_thread is Some
        ||| self.rename is Some
        ||| self.board_open
        ||| self.workspace_menu
    }

    /// Every transient overlay dismissed; scenario chip, board tab and
    /// filter, and the list cap kept.
    pub open spec fn closed_transient(self) -> QuestView {
        QuestView {
            picker_open: false,
            menu_thread: None,
            confirm_delete: false,
            rename: None,
            board_open: false,
            workspace_menu: false,
            ..self
        }
    }
}

impl View for QuestOverlays {
    type V = QuestView;

    open spec fn view(&self) -> QuestView {
        QuestView {
            picker_open: self.picker_open,
            scenario: self.scenario,
            menu_thread: opt_view(self.menu.thread_id),
            confirm_delete: self.menu.confirm_delete,
            rename: match self.rename {
                Some(r) => Some((r.thread_id@, r.draft@)),
                None => None,
            },
            board_open: self.board_open,
            board_project: opt_view(self.board_project),
            board_filter: self.board_filter@,
            workspace_menu: self.workspace_menu,
            list_expanded: self.list_expanded,
        }
    }
}

/// The abstract value of [`Status`].
pub ghost enum StatusView {
    Bootstrapping,
    Ready,
    Thinking,
    Disconnected(Seq<char>),
}

impl View for Status {
    type V = StatusView;

    open spec fn view(&self) -> StatusView {
        match self {
            Status::Bootstrapping => StatusView::Bootstrapping,
            Status::Ready => StatusView::Ready,
            Status::Thinking => StatusView::Thinking,
            Status::Disconnected(r) => StatusView::Disconnected(r@),
        }
    }
}

/// The abstract value of [`GitOverlayStatus`].
pub ghost enum GitStatusView {
    Idle,
    Drafting,
    Failed(Seq<char>),
}

impl View for GitOverlayStatus {
    type V = GitStatusView;

    open spec fn view(&self) -> GitStatusView {
        match self {
            GitOverlayStatus::Idle => GitStatusView::Idle,
            GitOverlayStatus::Drafting => GitStatusView::Drafting,
            GitOverlayStatus::Failed(r) => GitStatusView::Failed(r@),
        }
    }
}

/// The abstract value of [`GitOverlayState`].
pub ghost struct GitView {
    pub open: bool,
    pub selected: Set<usize>,
    pub message: Seq<char>,
    pub draft_diff: Option<Seq<char>>,
    pub draft_thread: Option<Seq<char>>,
    pub status: GitStatusView,
}

impl View for GitOverlayState {
    type V = GitView;

    open spec fn view(&self) -> GitView {
        GitView {
            open: self.open,
            selected: self.selected@,
            message: self.message@,
            draft_diff: opt_view(self.draft_diff),
            draft_thread: opt_view(self.draft_thread),
            status: self.status@,
        }
    }
}

} // verus!
