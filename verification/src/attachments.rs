//! Pending image attachments: files dropped onto the window or picked
//! through the native dialog, waiting to ride along with the next turn.

use crate::paths::extension;
use crate::paths::path_eq;
use crate::paths::path_extension;
use crate::paths::paths_equal;
use crate::text::eq_str;
use crate::text::lowercase;
use crate::text::str_lowercase;
use vstd::prelude::*;

verus! {

/// Image extensions the image widget decodes; anything else dropped on
/// the window is ignored.
pub open spec fn image_extensions() -> Seq<Seq<char>> {
    seq![
        "png"@, "jpg"@, "jpeg"@, "gif"@, "webp"@, "bmp"@, "ico"@, "tif"@, "tiff"@, "qoi"@,
        "avif"@,
    ]
}

/// The extension list, in the same order as [`image_extensions`].
fn image_extension_list() -> (list: Vec<&'static str>)
    ensures
        list@.len() == image_extensions().len(),
        forall|i: int| 0 <= i < list@.len() ==> #[trigger] list@[i]@ == image_extensions()[i],
{
    let list = vec!["png", "jpg", "jpeg", "gif", "webp", "bmp", "ico", "tif", "tiff", "qoi", "avif"];
    assert(list@.len() == 11);
    list
}

/// Whether a file would render as an image attachment: its extension,
/// lower-cased, is one of [`image_extensions`].
pub open spec fn spec_is_image(path: Seq<char>) -> bool {
    match path_extension(path) {
        Some(ext) => image_extensions().contains(str_lowercase(ext)),
        None => false,
    }
}

/// Whether `path` is already among `images` (by path equality).
pub open spec fn known_image(images: Seq<Seq<char>>, path: Seq<char>) -> bool {
    exists|i: int| 0 <= i < images.len() && path_eq(#[trigger] images[i], path)
}

/// Whether a drop of `path` onto `v` is taken in: an image not yet pending.
pub open spec fn accepts(v: AttachmentsView, path: Seq<char>) -> bool {
    spec_is_image(path) && !known_image(v.images, path)
}

/// The pending set after a drop of `path`.
pub open spec fn after_accept(v: AttachmentsView, path: Seq<char>) -> AttachmentsView {
    if accepts(v, path) {
        AttachmentsView { images: v.images.push(path), ..v }
    } else {
        v
    }
}

/// The pending set after removing position `index`.
pub open spec fn after_remove(v: AttachmentsView, index: int) -> AttachmentsView {
    if 0 <= index < v.images.len() {
        AttachmentsView { images: v.images.remove(index), ..v }
    } else {
        v
    }
}

/// Every pending entry is an image and no two are the same path.
pub open spec fn well_formed(v: AttachmentsView) -> bool {
    &&& forall|i: int| 0 <= i < v.images.len() ==> spec_is_image(#[trigger] v.images[i])
    &&& forall|i: int, j: int|
        0 <= i < j < v.images.len() ==> !path_eq(#[trigger] v.images[i], #[trigger] v.images[j])
}

/// Drops, removals and clears keep the pending set made of distinct
/// images.
pub proof fn lemma_pending_set_stays_well_formed(v: AttachmentsView, path: Seq<char>, index: int)
    requires
        well_formed(v),
    ensures
        well_formed(after_accept(v, path)),
        well_formed(after_remove(v, index)),
        well_formed(AttachmentsView { images: Seq::empty(), ..v }),
{
    let a = after_accept(v, path);
    if accepts(v, path) {
        assert forall|i: int, j: int| 0 <= i < j < a.images.len() implies !path_eq(
            #[trigger] a.images[i],
            #[trigger] a.images[j],
        ) by {
            if j == v.images.len() {
                assert(a.images[i] == v.images[i]);
            }
        }
    }
    let r = after_remove(v, index);
    if 0 <= index < v.images.len() {
        assert forall|i: int, j: int| 0 <= i < j < r.images.len() implies !path_eq(
            #[trigger] r.images[i],
            #[trigger] r.images[j],
        ) by {
            let oi = if i < index { i } else { i + 1 };
            let oj = if j < index { j } else { j + 1 };
            assert(r.images[i] == v.images[oi]);
            assert(r.images[j] == v.images[oj]);
        }
        assert forall|i: int| 0 <= i < r.images.len() implies spec_is_image(#[trigger] r.images[i]) by {
            let oi = if i < index { i } else { i + 1 };
            assert(r.images[i] == v.images[oi]);
        }
    }
}

/// The abstract value of [`Attachments`].
pub ghost struct AttachmentsView {
    pub images: Seq<Seq<char>>,
    pub hovered: bool,
}

/// Image attachments waiting to be submitted with the next turn.
#[derive(Debug, Clone, PartialEq, Eq)]
pub struct Attachments {
    /// On-disk image paths, deduplicated in arrival order.
    pub images: Vec<String>,
    /// Whether a file drag is currently over the window.
    pub hovered: bool,
}

impl View for Attachments {
    type V = AttachmentsView;

    open spec fn view(&self) -> AttachmentsView {
        AttachmentsView { images: self.images@.map_values(|s: String| s@), hovered: self.hovered }
    }
}

impl Default for Attachments {
    fn default() -> (r: Self)
        ensures
            r@.images.len() == 0,
            !r@.hovered,
    {
        Attachments { images: Vec::new(), hovered: false }
    }
}

/// Whether an already lowercased extension names an image format.
pub fn is_image_extension(lowered: &str) -> (r: bool)
    ensures
        r == image_extensions().contains(lowered@),
{
    let list = image_extension_list();
    let mut i: usize = 0;
    while i < list.len()
        invariant
            list@.len() == image_extensions().len(),
            forall|j: int| 0 <= j < list@.len() ==> #[trigger] list@[j]@ == image_extensions()[j],
            i <= list.len(),
            forall|j: int| 0 <= j < i ==> image_extensions()[j] != lowered@,
        decreases list.len() - i,
    {
        if eq_str(lowered, list[i]) {
            assert(image_extensions()[i as int] == lowered@);
            return true;
        }
        i = i + 1;
    }
    false
}

impl Attachments {
    /// Whether the file would render as an image attachment.
    pub fn is_image(path: &str) -> (r: bool)
        ensures
            r == spec_is_image(path@),
    {
        match extension(path) {
            None => false,
            Some(ext) => {
                let lower = lowercase(ext.as_str());
                is_image_extension(lower.as_str())
            },
        }
    }

    /// Whether `path` equals one of the pending images.
    fn contains_image(&self, path: &str) -> (r: bool)
        ensures
            r == known_image(self@.images, path@),
            self@.images.contains(path@) ==> r,
    {
        let mut i: usize = 0;
        while i < self.images.len()
            invariant
                i <= self.images.len(),
                forall|j: int| 0 <= j < i ==> !path_eq(#[trigger] self@.images[j], path@),
                forall|j: int| 0 <= j < i ==> #[trigger] self@.images[j] != path@,
            decreases self.images.len() - i,
        {
            if paths_equal(self.images[i].as_str(), path) {
                assert(path_eq(self@.images[i as int], path@));
                return true;
            }
            assert(self@.images[i as int] != path@);
            i = i + 1;
        }
        false
    }

    /// Accepts one dropped or picked file; returns whether it was accepted
    /// as a new image attachment.
    pub fn accept(&mut self, path: &str) -> (accepted: bool)
        ensures
            accepted == accepts(old(self)@, path@),
            final(self)@ == after_accept(old(self)@, path@),
            old(self)@.images.contains(path@) ==> !accepted,
    {
        if !Self::is_image(path) || self.contains_image(path) {
            return false;
        }
        self.images.push(path.to_string());
        assert(final(self)@.images =~= old(self)@.images.push(path@));
        true
    }

    /// Removes one pending attachment by position; returns whether the
    /// position existed.
    pub fn remove(&mut self, index: usize) -> (existed: bool)
        ensures
            existed == (index < old(self)@.images.len()),
            final(self)@ == after_remove(old(self)@, index as int),
    {
        if index >= self.images.len() {
            return false;
        }
        self.images.remove(index);
        assert(final(self)@.images =~= old(self)@.images.remove(index as int));
        true
    }

    /// Clears the pending set after (or instead of) a submission.
    pub fn clear(&mut self)
        ensures
            final(self)@.images.len() == 0,
            final(self)@.hovered == old(self)@.hovered,
    {
        self.images.clear();
    }
}

} // verus!
