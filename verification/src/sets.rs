//! Small text-keyed sets backing the shell's toggles: card ids and the
//! reactions left on them.

use crate::message::Reaction;
use crate::text::eq_str;
use vstd::prelude::*;

verus! {

/// Removing one entry of a duplicate-free sequence removes exactly that
/// element from its set.
pub(crate) proof fn lemma_remove_unique<T>(s: Seq<T>, k: int)
    requires
        s.no_duplicates(),
        0 <= k < s.len(),
    ensures
        s.remove(k).no_duplicates(),
        s.remove(k).to_set() == s.to_set().remove(s[k]),
{
    let r = s.remove(k);
    assert forall|i: int, j: int| 0 <= i < r.len() && 0 <= j < r.len() && i != j implies r[i]
        != r[j] by {
        let oi = if i < k { i } else { i + 1 };
        let oj = if j < k { j } else { j + 1 };
        assert(r[i] == s[oi] && r[j] == s[oj]);
    }
    assert forall|x: T| r.to_set().contains(x) <==> s.to_set().remove(s[k]).contains(x) by {
        if r.to_set().contains(x) {
            let j = choose|j: int| 0 <= j < r.len() && r[j] == x;
            let oj = if j < k { j } else { j + 1 };
            assert(s[oj] == x);
        }
        if s.to_set().remove(s[k]).contains(x) {
            let j = choose|j: int| 0 <= j < s.len() && s[j] == x;
            assert(j != k);
            let nj = if j < k { j } else { j - 1 };
            assert(r[nj] == x);
        }
    }
    assert(r.to_set() =~= s.to_set().remove(s[k]));
}

/// Appending a fresh element to a duplicate-free sequence adds it to the
/// set.
pub(crate) proof fn lemma_push_fresh<T>(s: Seq<T>, x: T)
    requires
        s.no_duplicates(),
        !s.contains(x),
    ensures
        s.push(x).no_duplicates(),
        s.push(x).to_set() == s.to_set().insert(x),
{
    let r = s.push(x);
    assert forall|i: int, j: int| 0 <= i < r.len() && 0 <= j < r.len() && i != j implies r[i]
        != r[j] by {
        if i == s.len() {
            assert(s[j] == r[j]);
        } else if j == s.len() {
            assert(s[i] == r[i]);
        } else {
            assert(s[i] == r[i] && s[j] == r[j]);
        }
    }
    assert forall|y: T| r.to_set().contains(y) <==> s.to_set().insert(x).contains(y) by {
        if r.to_set().contains(y) {
            let j = choose|j: int| 0 <= j < r.len() && r[j] == y;
            if j < s.len() {
                assert(s[j] == y);
            }
        }
        if s.to_set().contains(y) {
            let j = choose|j: int| 0 <= j < s.len() && s[j] == y;
            assert(r[j] == y);
        }
        if y == x {
            assert(r[s.len() as int] == y);
        }
    }
    assert(r.to_set() =~= s.to_set().insert(x));
}

/// The text ids of a list of strings.
pub open spec fn id_seq(items: Seq<String>) -> Seq<Seq<char>> {
    items.map_values(|s: String| s@)
}

/// A set of text ids (expanded cards, collapsed groups, ...).
#[derive(Debug)]
pub struct IdSet {
    items: Vec<String>,
}

impl View for IdSet {
    type V = Set<Seq<char>>;

    closed spec fn view(&self) -> Set<Seq<char>> {
        id_seq(self.items@).to_set()
    }
}

impl IdSet {
    #[verifier::type_invariant]
    closed spec fn distinct(&self) -> bool {
        id_seq(self.items@).no_duplicates()
    }

    /// The empty set.
    pub fn new() -> (r: Self)
        ensures
            r@ == Set::<Seq<char>>::empty(),
    {
        let r = IdSet { items: Vec::new() };
        assert(id_seq(r.items@) =~= Seq::<Seq<char>>::empty());
        assert(id_seq(r.items@).to_set() =~= Set::<Seq<char>>::empty());
        r
    }

    /// A copy holding the same ids.
    pub fn duplicate(&self) -> (r: Self)
        ensures
            r@ == self@,
    {
        proof {
            use_type_invariant(self);
        }
        let mut items: Vec<String> = Vec::new();
        let mut i: usize = 0;
        while i < self.items.len()
            invariant
                i <= self.items.len(),
                items@.len() == i,
                id_seq(items@) == id_seq(self.items@).subrange(0, i as int),
            decreases self.items.len() - i,
        {
            let copy = self.items[i].clone();
            assert(copy@ == self.items@[i as int]@);
            items.push(copy);
            i = i + 1;
            assert(id_seq(items@) =~= id_seq(self.items@).subrange(0, i as int));
        }
        assert(id_seq(items@) =~= id_seq(self.items@));
        IdSet { items }
    }

    /// Whether no id is held.
    pub fn is_empty(&self) -> (r: bool)
        ensures
            r == (self@ == Set::<Seq<char>>::empty()),
    {
        if self.items.len() == 0 {
            assert(self@ =~= Set::<Seq<char>>::empty());
            true
        } else {
            assert(self@.contains(id_seq(self.items@)[0]));
            false
        }
    }

    /// The position of `id` among the held items.
    fn position(&self, id: &str) -> (r: Option<usize>)
        ensures
            match r {
                Some(k) => k < self.items.len() && id_seq(self.items@)[k as int] == id@,
                None => !self@.contains(id@),
            },
    {
        let mut i: usize = 0;
        while i < self.items.len()
            invariant
                i <= self.items.len(),
                forall|j: int| 0 <= j < i ==> #[trigger] id_seq(self.items@)[j] != id@,
            decreases self.items.len() - i,
        {
            assert(id_seq(self.items@)[i as int] == self.items@[i as int]@);
            if eq_str(self.items[i].as_str(), id) {
                return Some(i);
            }
            i = i + 1;
        }
        None
    }

    /// Whether `id` is held.
    pub fn contains(&self, id: &str) -> (r: bool)
        ensures
            r == self@.contains(id@),
    {
        match self.position(id) {
            Some(k) => true,
            None => false,
        }
    }

    /// Adds `id`, or removes it when already held; returns whether it is
    /// held afterwards.
    pub fn toggle(&mut self, id: &str) -> (held: bool)
        ensures
            held == !old(self)@.contains(id@),
            final(self)@ == if held {
                old(self)@.insert(id@)
            } else {
                old(self)@.remove(id@)
            },
    {
        proof {
            use_type_invariant(&*self);
        }
        let ghost old_v = id_seq(self.items@);
        match self.position(id) {
            Some(k) => {
                let mut items: Vec<String> = Vec::new();
                std::mem::swap(&mut items, &mut self.items);
                items.remove(k);
                proof {
                    lemma_remove_unique(old_v, k as int);
                    assert(id_seq(items@) =~= old_v.remove(k as int));
                }
                self.items = items;
                false
            },
            None => {
                let mut items: Vec<String> = Vec::new();
                std::mem::swap(&mut items, &mut self.items);
                items.push(id.to_string());
                proof {
                    lemma_push_fresh(old_v, id@);
                    assert(id_seq(items@) =~= old_v.push(id@));
                }
                self.items = items;
                true
            },
        }
    }
}

/// The keys of a reaction table.
pub open spec fn reaction_keys(entries: Seq<(String, Reaction)>) -> Seq<Seq<char>> {
    entries.map_values(|e: (String, Reaction)| e.0@)
}

/// Like/dislike per agent-message id; an absent id has no reaction.
#[derive(Debug)]
pub struct ReactionTable {
    entries: Vec<(String, Reaction)>,
}

impl View for ReactionTable {
    type V = Map<Seq<char>, Reaction>;

    closed spec fn view(&self) -> Map<Seq<char>, Reaction> {
        Map::new(
            |k: Seq<char>| reaction_keys(self.entries@).contains(k),
            |k: Seq<char>| self.entries@[reaction_keys(self.entries@).index_of(k)].1,
        )
    }
}

impl ReactionTable {
    #[verifier::type_invariant]
    closed spec fn distinct(&self) -> bool {
        reaction_keys(self.entries@).no_duplicates()
    }

    /// The empty table.
    pub fn new() -> (r: Self)
        ensures
            r@ == Map::<Seq<char>, Reaction>::empty(),
    {
        let r = ReactionTable { entries: Vec::new() };
        assert(reaction_keys(r.entries@) =~= Seq::<Seq<char>>::empty());
        assert(r@ =~= Map::<Seq<char>, Reaction>::empty());
        r
    }

    /// The position of `id` among the entries.
    fn position(&self, id: &str) -> (r: Option<usize>)
        ensures
            match r {
                Some(k) => k < self.entries.len() && reaction_keys(self.entries@)[k as int] == id@,
                None => !reaction_keys(self.entries@).contains(id@),
            },
    {
        let mut i: usize = 0;
        while i < self.entries.len()
            invariant
                i <= self.entries.len(),
                forall|j: int| 0 <= j < i ==> #[trigger] reaction_keys(self.entries@)[j] != id@,
            decreases self.entries.len() - i,
        {
            assert(reaction_keys(self.entries@)[i as int] == self.entries@[i as int].0@);
            if eq_str(self.entries[i].0.as_str(), id) {
                return Some(i);
            }
            i = i + 1;
        }
        None
    }

    /// The reaction recorded for `id`.
    pub fn get(&self, id: &str) -> (r: Option<Reaction>)
        ensures
            r == if self@.contains_key(id@) { Some(self@[id@]) } else { None },
    {
        proof {
            use_type_invariant(self);
        }
        match self.position(id) {
            Some(k) => {
                proof {
                    lemma_index_of_unique(reaction_keys(self.entries@), k as int);
                }
                Some(self.entries[k].1)
            },
            None => None,
        }
    }

    /// Same reaction pressed again clears it; otherwise it replaces.
    pub fn toggle(&mut self, id: &str, reaction: Reaction)
        ensures
            final(self)@ == if old(self)@.contains_key(id@) && old(self)@[id@] == reaction {
                old(self)@.remove(id@)
            } else {
                old(self)@.insert(id@, reaction)
            },
    {
        proof {
            use_type_invariant(&*self);
        }
        let ghost old_entries = self.entries@;
        let ghost old_keys = reaction_keys(old_entries);
        let ghost old_map = self@;
        match self.position(id) {
            Some(k) => {
                proof {
                    lemma_index_of_unique(old_keys, k as int);
                }
                let mut entries: Vec<(String, Reaction)> = Vec::new();
                std::mem::swap(&mut entries, &mut self.entries);
                if entries[k].1 == reaction {
                    entries.remove(k);
                    proof {
                        lemma_remove_unique(old_keys, k as int);
                        assert(reaction_keys(entries@) =~= old_keys.remove(k as int));
                    }
                    self.entries = entries;
                    proof {
                        let nk = reaction_keys(self.entries@);
                        assert forall|x: Seq<char>| #[trigger] nk.contains(x) implies self.entries@[nk.index_of(x)].1
                            == old_map[x] by {
                            let j = choose|j: int| 0 <= j < nk.len() && nk[j] == x;
                            lemma_index_of_unique(nk, j);
                            let oj = if j < k { j } else { j + 1 };
                            assert(old_keys[oj] == x);
                            lemma_index_of_unique(old_keys, oj);
                        }
                        assert(nk.to_set() == old_keys.to_set().remove(id@));
                        assert forall|x: Seq<char>| nk.contains(x) <==> old_keys.contains(x) && x != id@ by {
                            assert(nk.to_set().contains(x) <==> nk.contains(x));
                            assert(old_keys.to_set().contains(x) <==> old_keys.contains(x));
                        }
                        assert(self@ =~= old_map.remove(id@));
                    }
                } else {
                    let key = entries[k].0.clone();
                    entries.set(k, (key, reaction));
                    proof {
                        assert(reaction_keys(entries@) =~= old_keys);
                    }
                    self.entries = entries;
                    proof {
                        assert forall|x: Seq<char>| #[trigger] old_keys.contains(x) implies self.entries@[old_keys.index_of(x)].1
                            == old_map.insert(id@, reaction)[x] by {
                            let j = choose|j: int| 0 <= j < old_keys.len() && old_keys[j] == x;
                            lemma_index_of_unique(old_keys, j);
                        }
                        assert(self@ =~= old_map.insert(id@, reaction));
                    }
                }
            },
            None => {
                let mut entries: Vec<(String, Reaction)> = Vec::new();
                std::mem::swap(&mut entries, &mut self.entries);
                entries.push((id.to_string(), reaction));
                proof {
                    lemma_push_fresh(old_keys, id@);
                    assert(reaction_keys(entries@) =~= old_keys.push(id@));
                }
                self.entries = entries;
                proof {
                    let nk = reaction_keys(self.entries@);
                    assert forall|x: Seq<char>| #[trigger] nk.contains(x) implies self.entries@[nk.index_of(x)].1
                        == old_map.insert(id@, reaction)[x] by {
                        let j = choose|j: int| 0 <= j < nk.len() && nk[j] == x;
                        lemma_index_of_unique(nk, j);
                        if x != id@ {
                            assert(j < old_keys.len());
                            assert(old_keys[j] == x);
                            lemma_index_of_unique(old_keys, j);
                        } else {
                            lemma_index_of_unique(nk, old_keys.len() as int);
                        }
                    }
                    assert forall|x: Seq<char>| nk.contains(x) <==> old_keys.contains(x) || x == id@ by {
                        assert(nk.to_set().contains(x) <==> nk.contains(x));
                        assert(old_keys.to_set().contains(x) <==> old_keys.contains(x));
                    }
                    assert(self@ =~= old_map.insert(id@, reaction));
                }
            },
        }
    }
}

/// In a duplicate-free sequence, `index_of` finds every element at its
/// own position.
pub(crate) proof fn lemma_index_of_unique<T>(s: Seq<T>, k: int)
    requires
        s.no_duplicates(),
        0 <= k < s.len(),
    ensures
        s.contains(s[k]),
        s.index_of(s[k]) == k,
{
    assert(s.contains(s[k]));
    let j = s.index_of(s[k]);
    assert(0 <= j < s.len() && s[j] == s[k]);
}

} // verus!
