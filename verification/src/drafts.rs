//! Drafts of the answers to pending server requests: the question dialog's
//! picks and notes, and the elicitation form's field values.

use crate::sets::lemma_index_of_unique;
use crate::sets::lemma_push_fresh;
use crate::sets::lemma_remove_unique;
use crate::text::eq_str;
use vstd::prelude::*;

verus! {

/// The keys of a draft table's entries.
pub open spec fn draft_keys<D>(entries: Seq<(String, D)>) -> Seq<Seq<char>> {
    entries.map_values(|e: (String, D)| e.0@)
}

/// The draft under `key` in `m`, or `fresh` when there is none yet.
pub open spec fn draft_or<V>(m: Map<Seq<char>, V>, key: Seq<char>, fresh: V) -> V {
    if m.contains_key(key) {
        m[key]
    } else {
        fresh
    }
}

/// Drafts keyed by text (a question id or a schema property key), at most
/// one per key.
#[derive(Debug)]
pub struct DraftTable<D> {
    entries: Vec<(String, D)>,
}

impl<D: View> View for DraftTable<D> {
    type V = Map<Seq<char>, D::V>;

    closed spec fn view(&self) -> Map<Seq<char>, D::V> {
        Map::new(
            |k: Seq<char>| draft_keys(self.entries@).contains(k),
            |k: Seq<char>| self.entries@[draft_keys(self.entries@).index_of(k)].1@,
        )
    }
}

impl<D> DraftTable<D> {
    #[verifier::type_invariant]
    closed spec fn distinct(&self) -> bool {
        draft_keys(self.entries@).no_duplicates()
    }
}

impl<D: View> DraftTable<D> {
    /// The empty table.
    pub fn new() -> (r: Self)
        ensures
            r@ == Map::<Seq<char>, D::V>::empty(),
    {
        let r = DraftTable { entries: Vec::new() };
        assert(draft_keys(r.entries@) =~= Seq::<Seq<char>>::empty());
        assert(r@ =~= Map::<Seq<char>, D::V>::empty());
        r
    }

    /// The position of `key` among the entries.
    fn position(&self, key: &str) -> (r: Option<usize>)
        ensures
            match r {
                Some(k) => k < self.entries.len() && draft_keys(self.entries@)[k as int] == key@,
                None => !draft_keys(self.entries@).contains(key@),
            },
    {
        let mut i: usize = 0;
        while i < self.entries.len()
            invariant
                i <= self.entries.len(),
                forall|j: int| 0 <= j < i ==> #[trigger] draft_keys(self.entries@)[j] != key@,
            decreases self.entries.len() - i,
        {
            assert(draft_keys(self.entries@)[i as int] == self.entries@[i as int].0@);
            if eq_str(self.entries[i].0.as_str(), key) {
                return Some(i);
            }
            i = i + 1;
        }
        None
    }

    /// The draft recorded under `key`.
    pub fn get(&self, key: &str) -> (r: Option<&D>)
        ensures
            match r {
                Some(d) => self@.contains_key(key@) && d@ == self@[key@],
                None => !self@.contains_key(key@),
            },
    {
        proof {
            use_type_invariant(self);
        }
        match self.position(key) {
            Some(k) => {
                proof {
                    lemma_index_of_unique(draft_keys(self.entries@), k as int);
                }
                Some(&self.entries[k].1)
            },
            None => None,
        }
    }

    /// Whether no draft is recorded.
    pub fn is_empty(&self) -> (r: bool)
        ensures
            r == (self@ == Map::<Seq<char>, D::V>::empty()),
    {
        if self.entries.len() == 0 {
            assert(draft_keys(self.entries@) =~= Seq::<Seq<char>>::empty());
            assert(self@ =~= Map::<Seq<char>, D::V>::empty());
            true
        } else {
            assert(draft_keys(self.entries@)[0] == self.entries@[0].0@);
            assert(self@.contains_key(self.entries@[0].0@));
            false
        }
    }

    /// Drops every draft.
    pub fn clear(&mut self)
        ensures
            final(self)@ == Map::<Seq<char>, D::V>::empty(),
    {
        *self = DraftTable::new();
    }

    /// Removes and returns the draft under `key`.
    pub fn take(&mut self, key: &str) -> (r: Option<D>)
        ensures
            final(self)@ == old(self)@.remove(key@),
            match r {
                Some(d) => old(self)@.contains_key(key@) && d@ == old(self)@[key@],
                None => !old(self)@.contains_key(key@),
            },
    {
        proof {
            use_type_invariant(&*self);
        }
        let ghost old_keys = draft_keys(self.entries@);
        let ghost old_map = self@;
        match self.position(key) {
            Some(k) => {
                proof {
                    lemma_index_of_unique(old_keys, k as int);
                }
                let mut entries: Vec<(String, D)> = Vec::new();
                std::mem::swap(&mut entries, &mut self.entries);
                let ghost old_entries = entries@;
                let pair = entries.remove(k);
                proof {
                    lemma_remove_unique(old_keys, k as int);
                    assert(draft_keys(entries@) =~= old_keys.remove(k as int));
                }
                self.entries = entries;
                proof {
                    let nk = draft_keys(self.entries@);
                    assert forall|x: Seq<char>| #[trigger] nk.contains(x) implies self.entries@[nk.index_of(
                        x,
                    )].1@ == old_map[x] by {
                        let j = choose|j: int| 0 <= j < nk.len() && nk[j] == x;
                        lemma_index_of_unique(nk, j);
                        let oj = if j < k { j } else { j + 1 };
                        assert(old_keys[oj] == x);
                        assert(old_entries[oj] == self.entries@[j]);
                        lemma_index_of_unique(old_keys, oj);
                    }
                    assert forall|x: Seq<char>| nk.contains(x) <==> old_keys.contains(x) && x != key@ by {
                        assert(nk.to_set().contains(x) <==> nk.contains(x));
                        assert(old_keys.to_set().contains(x) <==> old_keys.contains(x));
                    }
                    assert(self@ =~= old_map.remove(key@));
                }
                Some(pair.1)
            },
            None => {
                assert(self@ =~= old_map.remove(key@));
                None
            },
        }
    }

    /// Records `draft` under `key`, replacing any earlier one.
    pub fn put(&mut self, key: String, draft: D)
        ensures
            final(self)@ == old(self)@.insert(key@, draft@),
    {
        let ghost old_map = self@;
        let _ = self.take(key.as_str());
        proof {
            use_type_invariant(&*self);
        }
        let ghost mid_keys = draft_keys(self.entries@);
        let ghost mid_map = self@;
        assert(!mid_map.contains_key(key@));
        assert(mid_map.contains_key(key@) == mid_keys.contains(key@));
        let ghost k = key@;
        let ghost dv = draft@;
        let mut entries: Vec<(String, D)> = Vec::new();
        std::mem::swap(&mut entries, &mut self.entries);
        let ghost mid_entries = entries@;
        entries.push((key, draft));
        proof {
            lemma_push_fresh(mid_keys, k);
            assert(draft_keys(entries@) =~= mid_keys.push(k));
        }
        self.entries = entries;
        proof {
            let nk = draft_keys(self.entries@);
            assert forall|x: Seq<char>| #[trigger] nk.contains(x) implies self.entries@[nk.index_of(x)].1@
                == mid_map.insert(k, dv)[x] by {
                let j = choose|j: int| 0 <= j < nk.len() && nk[j] == x;
                lemma_index_of_unique(nk, j);
                if x != k {
                    assert(j < mid_keys.len());
                    assert(mid_keys[j] == x);
                    assert(mid_entries[j] == self.entries@[j]);
                    lemma_index_of_unique(mid_keys, j);
                } else {
                    lemma_index_of_unique(nk, mid_keys.len() as int);
                }
            }
            assert forall|x: Seq<char>| nk.contains(x) <==> mid_keys.contains(x) || x == k by {
                assert(nk.to_set().contains(x) <==> nk.contains(x));
                assert(mid_keys.to_set().contains(x) <==> mid_keys.contains(x));
            }
            assert(self@ =~= mid_map.insert(k, dv));
            assert(mid_map.insert(k, dv) =~= old_map.insert(k, dv));
        }
    }
}

/// The abstract value of [`QuestionDraft`].
pub ghost struct QuestionDraftView {
    pub selected: Option<usize>,
    pub notes: Seq<char>,
}

impl QuestionDraftView {
    /// A question nobody has answered yet.
    pub open spec fn fresh() -> QuestionDraftView {
        QuestionDraftView { selected: None, notes: Seq::empty() }
    }
}

/// The answer being drafted to one question of the input dialog.
#[derive(Debug, Clone, PartialEq, Eq)]
pub struct QuestionDraft {
    /// The picked option row, if any.
    pub selected: Option<usize>,
    /// The free-form notes.
    pub notes: String,
}

impl View for QuestionDraft {
    type V = QuestionDraftView;

    open spec fn view(&self) -> QuestionDraftView {
        QuestionDraftView { selected: self.selected, notes: self.notes@ }
    }
}

impl QuestionDraft {
    /// A question nobody has answered yet.
    pub fn new() -> (r: Self)
        ensures
            r@ == QuestionDraftView::fresh(),
    {
        QuestionDraft { selected: None, notes: String::new() }
    }
}

/// The abstract value of [`FieldDraft`].
pub ghost struct FieldDraftView {
    pub text: Seq<char>,
    pub boolean: bool,
    pub single: Option<Seq<char>>,
    pub multi: Seq<Seq<char>>,
}

impl FieldDraftView {
    /// A field nobody has touched yet.
    pub open spec fn fresh() -> FieldDraftView {
        FieldDraftView { text: Seq::empty(), boolean: false, single: None, multi: Seq::empty() }
    }
}

/// The value being drafted for one field of an elicitation form; which
/// part counts depends on the field's kind.
#[derive(Debug, Clone, PartialEq, Eq)]
pub struct FieldDraft {
    /// A text or number field's text.
    pub text: String,
    /// A boolean field's value.
    pub boolean: bool,
    /// A single-select field's picked wire value.
    pub single: Option<String>,
    /// A multi-select field's picked wire values, in picking order.
    pub multi: Vec<String>,
}

impl View for FieldDraft {
    type V = FieldDraftView;

    open spec fn view(&self) -> FieldDraftView {
        FieldDraftView {
            text: self.text@,
            boolean: self.boolean,
            single: match self.single {
                Some(v) => Some(v@),
                None => None,
            },
            multi: self.multi@.map_values(|v: String| v@),
        }
    }
}

impl FieldDraft {
    /// A field nobody has touched yet.
    pub fn new() -> (r: Self)
        ensures
            r@ == FieldDraftView::fresh(),
    {
        let r = FieldDraft { text: String::new(), boolean: false, single: None, multi: Vec::new() };
        assert(r@.multi =~= Seq::<Seq<char>>::empty());
        r
    }
}

/// Whether `k` is the first position of `value` in `values`.
pub open spec fn first_at(values: Seq<Seq<char>>, value: Seq<char>, k: int) -> bool {
    &&& 0 <= k < values.len()
    &&& values[k] == value
    &&& forall|j: int| 0 <= j < k ==> values[j] != value
}

/// A multi-select draft after `value` was toggled: its first occurrence
/// leaves, or, when absent, it joins at the end.
pub open spec fn toggled_value(values: Seq<Seq<char>>, value: Seq<char>) -> Seq<Seq<char>> {
    if values.contains(value) {
        values.remove(choose|k: int| first_at(values, value, k))
    } else {
        values.push(value)
    }
}

/// Toggles `value` in a multi-select draft.
fn toggle_value(values: &mut Vec<String>, value: String)
    ensures
        final(values)@.map_values(|v: String| v@) == toggled_value(
            old(values)@.map_values(|v: String| v@),
            value@,
        ),
{
    let ghost before = values@.map_values(|v: String| v@);
    let mut i: usize = 0;
    while i < values.len()
        invariant
            i <= values.len(),
            before == values@.map_values(|v: String| v@),
            before == old(values)@.map_values(|v: String| v@),
            forall|j: int| 0 <= j < i ==> before[j] != value@,
        decreases values.len() - i,
    {
        if eq_str(values[i].as_str(), value.as_str()) {
            proof {
                assert(first_at(before, value@, i as int));
                assert(before.contains(value@));
                let c = choose|k: int| first_at(before, value@, k);
                assert(c == i) by {
                    if c < i {
                        assert(before[c] != value@);
                    } else if c > i {
                        assert(before[i as int] != value@);
                    }
                }
                assert(toggled_value(before, value@) == before.remove(i as int));
            }
            values.remove(i);
            assert(values@.map_values(|v: String| v@) =~= before.remove(i as int));
            return;
        }
        i = i + 1;
    }
    assert(!before.contains(value@));
    values.push(value);
    assert(values@.map_values(|v: String| v@) =~= before.push(value@));
}

/// The abstract value of [`RequestDrafts`].
pub ghost struct RequestDraftsView {
    pub questions: Map<Seq<char>, QuestionDraftView>,
    pub fields: Map<Seq<char>, FieldDraftView>,
    pub error: Option<Seq<char>>,
}

impl RequestDraftsView {
    /// No drafts and no form error.
    pub open spec fn empty() -> RequestDraftsView {
        RequestDraftsView { questions: Map::empty(), fields: Map::empty(), error: None }
    }

    /// The draft of question `id`, fresh when untouched.
    pub open spec fn question(self, id: Seq<char>) -> QuestionDraftView {
        draft_or(self.questions, id, QuestionDraftView::fresh())
    }

    /// The draft of field `key`, fresh when untouched.
    pub open spec fn field(self, key: Seq<char>) -> FieldDraftView {
        draft_or(self.fields, key, FieldDraftView::fresh())
    }

    /// Field `key` now drafted as `draft`; any form error is cleared.
    pub open spec fn with_field(self, key: Seq<char>, draft: FieldDraftView) -> RequestDraftsView {
        RequestDraftsView { fields: self.fields.insert(key, draft), error: None, ..self }
    }
}

/// The drafts of the request dialogs: the question dialog's answers by
/// question id, the elicitation form's values by property key, and the
/// error a rejected form submission shows.
#[derive(Debug)]
pub struct RequestDrafts {
    /// Question answers by question id.
    pub questions: DraftTable<QuestionDraft>,
    /// Form field values by schema property key.
    pub fields: DraftTable<FieldDraft>,
    /// Why the last form submission was refused.
    pub error: Option<String>,
}

impl View for RequestDrafts {
    type V = RequestDraftsView;

    open spec fn view(&self) -> RequestDraftsView {
        RequestDraftsView {
            questions: self.questions@,
            fields: self.fields@,
            error: match self.error {
                Some(e) => Some(e@),
                None => None,
            },
        }
    }
}

impl RequestDrafts {
    /// No drafts and no form error.
    pub fn new() -> (r: Self)
        ensures
            r@ == RequestDraftsView::empty(),
    {
        RequestDrafts { questions: DraftTable::new(), fields: DraftTable::new(), error: None }
    }

    /// Takes the draft of question `id` out, fresh when untouched.
    fn take_question(&mut self, id: &str) -> (d: QuestionDraft)
        ensures
            d@ == old(self)@.question(id@),
            final(self)@ == (RequestDraftsView { questions: old(self)@.questions.remove(id@), ..old(self)@ }),
    {
        match self.questions.take(id) {
            Some(d) => d,
            None => QuestionDraft::new(),
        }
    }

    /// Takes the draft of field `key` out, fresh when untouched.
    fn take_field(&mut self, key: &str) -> (d: FieldDraft)
        ensures
            d@ == old(self)@.field(key@),
            final(self)@ == (RequestDraftsView { fields: old(self)@.fields.remove(key@), ..old(self)@ }),
    {
        match self.fields.take(key) {
            Some(d) => d,
            None => FieldDraft::new(),
        }
    }

    /// One option row of question `question_id` was picked.
    pub fn question_option_picked(&mut self, question_id: String, index: usize)
        ensures
            final(self)@ == (RequestDraftsView {
                questions: old(self)@.questions.insert(
                    question_id@,
                    QuestionDraftView { selected: Some(index), ..old(self)@.question(question_id@) },
                ),
                ..old(self)@
            }),
    {
        let mut draft = self.take_question(question_id.as_str());
        draft.selected = Some(index);
        self.questions.put(question_id, draft);
        assert(self@.questions =~= old(self)@.questions.insert(question_id@, draft@));
    }

    /// The notes of question `question_id` changed.
    pub fn question_notes_changed(&mut self, question_id: String, notes: String)
        ensures
            final(self)@ == (RequestDraftsView {
                questions: old(self)@.questions.insert(
                    question_id@,
                    QuestionDraftView { notes: notes@, ..old(self)@.question(question_id@) },
                ),
                ..old(self)@
            }),
    {
        let mut draft = self.take_question(question_id.as_str());
        draft.notes = notes;
        self.questions.put(question_id, draft);
        assert(self@.questions =~= old(self)@.questions.insert(question_id@, draft@));
    }

    /// The question dialog was answered: its drafts go.
    pub fn questions_answered(&mut self)
        ensures
            final(self)@ == (RequestDraftsView { questions: Map::empty(), ..old(self)@ }),
    {
        self.questions.clear();
    }

    /// A text or number field changed.
    pub fn field_text_changed(&mut self, key: String, text: String)
        ensures
            final(self)@ == old(self)@.with_field(key@, FieldDraftView { text: text@, ..old(self)@.field(key@) }),
    {
        let mut draft = self.take_field(key.as_str());
        draft.text = text;
        self.fields.put(key, draft);
        self.error = None;
        assert(self@.fields =~= old(self)@.fields.insert(key@, draft@));
    }

    /// A boolean field was flipped.
    pub fn field_toggled(&mut self, key: String)
        ensures
            final(self)@ == old(self)@.with_field(
                key@,
                FieldDraftView { boolean: !old(self)@.field(key@).boolean, ..old(self)@.field(key@) },
            ),
    {
        let mut draft = self.take_field(key.as_str());
        draft.boolean = !draft.boolean;
        self.fields.put(key, draft);
        self.error = None;
        assert(self@.fields =~= old(self)@.fields.insert(key@, draft@));
    }

    /// A single-select field's value was picked.
    pub fn field_picked(&mut self, key: String, value: String)
        ensures
            final(self)@ == old(self)@.with_field(key@, FieldDraftView { single: Some(value@), ..old(self)@.field(key@) }),
    {
        let mut draft = self.take_field(key.as_str());
        draft.single = Some(value);
        self.fields.put(key, draft);
        self.error = None;
        assert(self@.fields =~= old(self)@.fields.insert(key@, draft@));
    }

    /// A multi-select field's value was toggled.
    pub fn field_value_toggled(&mut self, key: String, value: String)
        ensures
            final(self)@ == old(self)@.with_field(
                key@,
                FieldDraftView {
                    multi: toggled_value(old(self)@.field(key@).multi, value@),
                    ..old(self)@.field(key@)
                },
            ),
    {
        let mut draft = self.take_field(key.as_str());
        toggle_value(&mut draft.multi, value);
        self.fields.put(key, draft);
        self.error = None;
        assert(self@.fields =~= old(self)@.fields.insert(key@, draft@));
    }

    /// A question request joined the queue, which now holds `pending`
    /// requests: the first one opens on a clean slate, later ones wait
    /// behind it and leave the drafts alone.
    pub fn questions_offered(&mut self, pending: usize)
        ensures
            final(self)@ == if pending == 1 {
                RequestDraftsView { questions: Map::empty(), ..old(self)@ }
            } else {
                old(self)@
            },
    {
        if pending == 1 {
            self.questions.clear();
        }
    }

    /// An elicitation request joined the queue, which now holds `pending`
    /// requests: the first one restarts the form from `seeded` (its
    /// defaults), later ones wait behind it and leave the drafts alone.
    pub fn elicitation_offered(&mut self, pending: usize, seeded: DraftTable<FieldDraft>)
        ensures
            final(self)@ == if pending == 1 {
                RequestDraftsView { fields: seeded@, error: None, ..old(self)@ }
            } else {
                old(self)@
            },
    {
        if pending == 1 {
            self.fields_reset(seeded);
        }
    }

    /// The form submission was refused with `error`; the drafts stay for
    /// the user to fix.
    pub fn form_refused(&mut self, error: String)
        ensures
            final(self)@ == (RequestDraftsView { error: Some(error@), ..old(self)@ }),
    {
        self.error = Some(error);
    }

    /// The dialog on top changed: the form drafts restart from `seeded`
    /// (the new form's defaults, or nothing) and the error clears.
    pub fn fields_reset(&mut self, seeded: DraftTable<FieldDraft>)
        ensures
            final(self)@ == (RequestDraftsView { fields: seeded@, error: None, ..old(self)@ }),
    {
        self.fields = seeded;
        self.error = None;
    }
}

} // verus!
