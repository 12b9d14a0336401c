//! The glyph set of the hand-drawn line icons.

use vstd::prelude::*;

verus! {

/// The glyph set the shell needs.
#[derive(Debug, Clone, Copy, PartialEq, Eq, Structural)]
pub enum IconKind {
    /// Conversation / task list.
    Chat,
    /// Folder / file explorer.
    Folder,
    /// Sliders-style settings.
    Gear,
    /// Plus cross.
    Plus,
    /// History clock.
    Clock,
    /// Search lens.
    Search,
    /// Upward send arrow.
    SendUp,
    /// Filled square for the interrupt action.
    Stop,
    /// Git branch.
    GitBranch,
    /// Copy (two stacked rectangles).
    Copy,
    /// Thumbs-up feedback.
    ThumbUp,
    /// Thumbs-down feedback.
    ThumbDown,
    /// Paperclip for the composer attach action.
    Paperclip,
    /// Source-control rail entry (branch with change dot).
    SourceControl,
    /// Repo Wiki rail entry (closed book).
    Wiki,
    /// Run-and-debug rail entry (bug).
    Debug,
    /// Remote-explorer rail entry (monitor).
    Remote,
    /// Extensions rail entry (grid of squares).
    Extensions,
    /// Skills rail entry (a large sparkle with a small companion).
    Sparkle,
}

} // verus!
