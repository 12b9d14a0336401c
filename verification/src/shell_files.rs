//! Shell transitions of image attachments, the central preview tabs, and
//! the workspace folder.

use crate::attachments::accepts;
use crate::attachments::after_accept;
use crate::attachments::after_remove;
use crate::attachments::AttachmentsView;
use crate::shell::effect_views;
use crate::shell::none;
use crate::shell::one;
use crate::shell::then;
use crate::shell::Effect;
use crate::shell::EffectView;
use crate::shell::Shell;
use crate::shell::ShellView;
use crate::state::first_match;
use crate::state::EditorPane;
use crate::state::EditorView;
use crate::state::FileBody;
use crate::state::QuestView;
use crate::state::bodies_insert;
use vstd::prelude::*;

verus! {

/// The attachments after accepting each of `paths` in turn.
pub open spec fn accept_all(v: AttachmentsView, paths: Seq<Seq<char>>) -> AttachmentsView
    decreases paths.len(),
{
    if paths.len() == 0 {
        v
    } else {
        accept_all(after_accept(v, paths[0]), paths.drop_first())
    }
}

/// `accept_all` over a prefix grows by one accept per further path.
proof fn lemma_accept_all_push(v: AttachmentsView, paths: Seq<Seq<char>>, p: Seq<char>)
    ensures
        accept_all(v, paths.push(p)) == after_accept(accept_all(v, paths), p),
    decreases paths.len(),
{
    if paths.len() == 0 {
        assert(paths.push(p).drop_first() =~= Seq::<Seq<char>>::empty());
        assert(paths.push(p)[0] == p);
        reveal_with_fuel(accept_all, 2);
    } else {
        assert(paths.push(p).drop_first() =~= paths.drop_first().push(p));
        assert(paths.push(p)[0] == paths[0]);
        lemma_accept_all_push(after_accept(v, paths[0]), paths.drop_first(), p);
    }
}

impl ShellView {
    /// The shell with only its attachments replaced.
    pub open spec fn with_attachments(self, attachments: AttachmentsView) -> ShellView {
        ShellView { attachments, ..self }
    }

    /// The shell with only its preview area replaced.
    pub open spec fn with_editor(self, editor: EditorView) -> ShellView {
        ShellView { editor, ..self }
    }

    /// A file-row click in the tree: the preview opens (or its tab is
    /// focused), and a fresh tab has its body read.
    pub open spec fn on_tree_file_selected(self, path: Seq<char>) -> (ShellView, Seq<EffectView>) {
        (
            self.with_editor(self.editor.after_open(path)),
            if first_match(self.editor.tabs, path) < 0 {
                seq![EffectView::ReadPreview(path)]
            } else {
                seq![]
            },
        )
    }

    /// A picked workspace folder: the tree re-roots there, every preview
    /// tab of the previous workspace closes, the scenario chip and the
    /// workspace dropdown clear, and a fresh thread starts inside it.
    pub open spec fn on_folder_picked(self, folder: Seq<char>) -> (ShellView, Seq<EffectView>) {
        let cleared = ShellView {
            editor: EditorView { tabs: seq![], active: None, bodies: seq![] },
            quest: QuestView { scenario: None, workspace_menu: false, ..self.quest },
            ..self
        };
        let (next, effects) = cleared.restarted(Some(folder));
        (next, seq![EffectView::ResetTree(folder)] + effects)
    }
}

impl Shell {
    /// A file drag entered the window.
    pub fn drag_hovered(&mut self)
        ensures
            final(self)@ == old(self)@.with_attachments(
                AttachmentsView { hovered: true, ..old(self)@.attachments },
            ),
    {
        self.attachments.hovered = true;
    }

    /// The file drag left the window.
    pub fn drag_left(&mut self)
        ensures
            final(self)@ == old(self)@.with_attachments(
                AttachmentsView { hovered: false, ..old(self)@.attachments },
            ),
    {
        self.attachments.hovered = false;
    }

    /// A file was dropped on the window: images join the pending set,
    /// anything else is ignored; returns whether it was accepted.
    pub fn file_dropped(&mut self, path: &str) -> (accepted: bool)
        ensures
            accepted == accepts(old(self)@.attachments, path@),
            final(self)@ == old(self)@.with_attachments(
                AttachmentsView { hovered: false, ..after_accept(old(self)@.attachments, path@) },
            ),
    {
        let accepted = self.attachments.accept(path);
        self.attachments.hovered = false;
        accepted
    }

    /// The image picker returned: each picked file is accepted in turn.
    pub fn images_picked(&mut self, paths: Vec<String>)
        ensures
            final(self)@ == old(self)@.with_attachments(
                AttachmentsView {
                    hovered: false,
                    ..accept_all(old(self)@.attachments, paths@.map_values(|p: String| p@))
                },
            ),
    {
        let ghost start = self@;
        let ghost all = paths@.map_values(|p: String| p@);
        let mut i: usize = 0;
        while i < paths.len()
            invariant
                i <= paths.len(),
                all == paths@.map_values(|p: String| p@),
                self@ == start.with_attachments(
                    accept_all(start.attachments, all.take(i as int)),
                ),
            decreases paths.len() - i,
        {
            proof {
                assert(all.take(i as int + 1) =~= all.take(i as int).push(all[i as int]));
                lemma_accept_all_push(start.attachments, all.take(i as int), all[i as int]);
            }
            self.attachments.accept(paths[i].as_str());
            i = i + 1;
        }
        assert(all.take(paths.len() as int) =~= all);
        self.attachments.hovered = false;
    }

    /// The remove button of one pending attachment.
    pub fn attachment_removed(&mut self, index: usize)
        ensures
            final(self)@ == old(self)@.with_attachments(after_remove(old(self)@.attachments, index as int)),
    {
        self.attachments.remove(index);
    }

    /// A file row of the directory tree was clicked.
    pub fn tree_file_selected(&mut self, path: String) -> (effects: Vec<Effect>)
        ensures
            (final(self)@, effect_views(effects@)) == old(self)@.on_tree_file_selected(path@),
    {
        if self.editor.open(path.as_str()) {
            one(Effect::ReadPreview(path))
        } else {
            none()
        }
    }

    /// The body of a preview tab finished loading.
    pub fn file_preview_loaded(&mut self, path: &str, body: FileBody)
        ensures
            final(self)@ == old(self)@.with_editor(
                EditorView { bodies: bodies_insert(old(self)@.editor.bodies, path@, body), ..old(self)@.editor },
            ),
    {
        self.editor.store_body(path, body);
    }

    /// A preview tab was clicked.
    pub fn file_preview_selected(&mut self, path: &str)
        ensures
            final(self)@ == old(self)@.with_editor(old(self)@.editor.after_select(path@)),
    {
        self.editor.select(path);
    }

    /// A preview tab's close button.
    pub fn file_preview_closed(&mut self, path: &str)
        ensures
            final(self)@ == old(self)@.with_editor(old(self)@.editor.after_close(path@)),
    {
        self.editor.close(path);
    }

    /// The folder picker returned; `None` (the picker was dismissed) keeps
    /// the live session as it is.
    pub fn folder_picked(&mut self, picked: Option<String>) -> (effects: Vec<Effect>)
        ensures
            match picked {
                Some(f) => (final(self)@, effect_views(effects@)) == old(self)@.on_folder_picked(f@),
                None => final(self)@ == old(self)@ && effect_views(effects@).len() == 0,
            },
    {
        match picked {
            None => none(),
            Some(folder) => {
                self.editor = EditorPane::default();
                self.quest.scenario = None;
                self.quest.workspace_menu = false;
                assert(self@.editor.tabs =~= Seq::<Seq<char>>::empty());
                assert(self@.editor.bodies =~= Seq::<(Seq<char>, FileBody)>::empty());
                let reset = one(Effect::ResetTree(folder.clone()));
                let restart = self.restart_thread(Some(folder));
                then(reset, restart)
            },
        }
    }
}

} // verus!
