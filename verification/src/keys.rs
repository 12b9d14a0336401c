//! Keyboard shortcuts: which shell actions one key press fires, given the
//! overlays that currently own the keyboard. Every listener sees every
//! press, so one press can fire several actions, in listener order.

use crate::text::eq_str;
use vstd::prelude::*;

verus! {

/// The key of one press, as far as the shortcuts read it.
#[derive(Debug, Clone, PartialEq, Eq)]
pub enum KeyInput {
    /// A printable key, with the text it produces.
    Character(String),
    /// Escape.
    Escape,
    /// Enter.
    Enter,
    /// Arrow up.
    ArrowUp,
    /// Arrow down.
    ArrowDown,
    /// Any other named key.
    Other,
}

/// The abstract value of [`KeyInput`].
pub ghost enum KeyView {
    Character(Seq<char>),
    Escape,
    Enter,
    ArrowUp,
    ArrowDown,
    Other,
}

impl View for KeyInput {
    type V = KeyView;

    open spec fn view(&self) -> KeyView {
        match self {
            KeyInput::Character(s) => KeyView::Character(s@),
            KeyInput::Escape => KeyView::Escape,
            KeyInput::Enter => KeyView::Enter,
            KeyInput::ArrowUp => KeyView::ArrowUp,
            KeyInput::ArrowDown => KeyView::ArrowDown,
            KeyInput::Other => KeyView::Other,
        }
    }
}

/// The modifier keys held during a press.
#[derive(Debug, Clone, Copy, PartialEq, Eq, Structural)]
pub struct Modifiers {
    pub control: bool,
    pub shift: bool,
    pub alt: bool,
}

/// Which overlays own the keyboard when the key is pressed.
#[derive(Debug, Clone, Copy, PartialEq, Eq, Structural)]
pub struct KeyFocus {
    /// The command palette is open.
    pub palette_open: bool,
    /// A Quest overlay (picker, menu, rename, board, workspace menu) is up.
    pub quest_overlay_open: bool,
    /// The transcript search bar is up.
    pub search_open: bool,
    /// A top-menu dropdown is open.
    pub menu_open: bool,
}

/// A shell action a shortcut fires.
#[derive(Debug, Clone, Copy, PartialEq, Eq, Structural)]
pub enum Shortcut {
    NewThread,
    ModeToggle,
    QuestOverlaysClose,
    QuestRenameConfirm,
    PaletteToggle,
    PaletteConfirm,
    PaletteMove(i32),
    ChatSearchOpen,
    ChatSearchClose,
    ChatSearchNext,
    ChatSearchPrev,
    MenuClose,
}

/// Whether the key is the letter `lower` (either case), as an ASCII
/// case-insensitive comparison of its text sees it.
pub open spec fn is_letter(key: KeyView, lower: char, upper: char) -> bool {
    match key {
        KeyView::Character(s) => s == seq![lower] || s == seq![upper],
        _ => false,
    }
}

/// The actions one press fires, in listener order: Ctrl+N opens a new
/// thread, Ctrl+Shift+Q switches shells, Esc/Enter drive an open Quest
/// overlay (unless the palette is up), Ctrl+Shift+P toggles the palette,
/// Esc/Enter/arrows drive an open palette, Ctrl+F raises the search bar
/// (unless the palette is up), Esc/Enter/Shift+Enter drive the open search
/// bar, and Esc closes an open top menu.
pub open spec fn spec_shortcuts(key: KeyView, m: Modifiers, focus: KeyFocus) -> Seq<Shortcut> {
    let new_thread = if m.control && !m.shift && !m.alt && is_letter(key, 'n', 'N') {
        seq![Shortcut::NewThread]
    } else {
        seq![]
    };
    let mode = if m.control && m.shift && is_letter(key, 'q', 'Q') {
        seq![Shortcut::ModeToggle]
    } else {
        seq![]
    };
    let quest = if !focus.palette_open && focus.quest_overlay_open {
        match key {
            KeyView::Escape => seq![Shortcut::QuestOverlaysClose],
            KeyView::Enter => if !m.shift {
                seq![Shortcut::QuestRenameConfirm]
            } else {
                seq![]
            },
            _ => seq![],
        }
    } else {
        seq![]
    };
    let palette_toggle = if m.control && m.shift && is_letter(key, 'p', 'P') {
        seq![Shortcut::PaletteToggle]
    } else {
        seq![]
    };
    let palette = if focus.palette_open {
        match key {
            KeyView::Escape => seq![Shortcut::PaletteToggle],
            KeyView::Enter => seq![Shortcut::PaletteConfirm],
            KeyView::ArrowUp => if !m.shift {
                seq![Shortcut::PaletteMove(-1i32)]
            } else {
                seq![]
            },
            KeyView::ArrowDown => if !m.shift {
                seq![Shortcut::PaletteMove(1i32)]
            } else {
                seq![]
            },
            _ => seq![],
        }
    } else {
        seq![]
    };
    let search_toggle = if !focus.palette_open && m.control && !m.shift && is_letter(key, 'f', 'F') {
        seq![Shortcut::ChatSearchOpen]
    } else {
        seq![]
    };
    let search = if focus.search_open && !focus.palette_open && !m.control && !m.alt {
        match key {
            KeyView::Escape => seq![Shortcut::ChatSearchClose],
            KeyView::Enter => if m.shift {
                seq![Shortcut::ChatSearchPrev]
            } else {
                seq![Shortcut::ChatSearchNext]
            },
            _ => seq![],
        }
    } else {
        seq![]
    };
    let menu = if focus.menu_open && key == KeyView::Escape {
        seq![Shortcut::MenuClose]
    } else {
        seq![]
    };
    new_thread + mode + quest + palette_toggle + palette + search_toggle + search + menu
}

/// Whether the key is the letter `lower` or `upper`.
fn letter(key: &KeyInput, lower: &str, upper: &str) -> (r: bool)
    ensures
        r == (key@ matches KeyView::Character(s) && (s == lower@ || s == upper@)),
{
    match key {
        KeyInput::Character(s) => eq_str(s.as_str(), lower) || eq_str(s.as_str(), upper),
        _ => false,
    }
}

/// Appends `s` to `v` when `cond` holds.
fn push_if(v: &mut Vec<Shortcut>, cond: bool, s: Shortcut)
    ensures
        final(v)@ == if cond {
            old(v)@.push(s)
        } else {
            old(v)@
        },
{
    if cond {
        v.push(s);
    }
}

/// The actions one key press fires, in listener order.
pub fn shortcuts(key: &KeyInput, m: Modifiers, focus: KeyFocus) -> (fired: Vec<Shortcut>)
    ensures
        fired@ == spec_shortcuts(key@, m, focus),
{
    proof {
        reveal_strlit("n");
        reveal_strlit("N");
        reveal_strlit("q");
        reveal_strlit("Q");
        reveal_strlit("p");
        reveal_strlit("P");
        reveal_strlit("f");
        reveal_strlit("F");
        assert("n"@ =~= seq!['n']);
        assert("N"@ =~= seq!['N']);
        assert("q"@ =~= seq!['q']);
        assert("Q"@ =~= seq!['Q']);
        assert("p"@ =~= seq!['p']);
        assert("P"@ =~= seq!['P']);
        assert("f"@ =~= seq!['f']);
        assert("F"@ =~= seq!['F']);
    }
    let escape = match key {
        KeyInput::Escape => true,
        _ => false,
    };
    let enter = match key {
        KeyInput::Enter => true,
        _ => false,
    };
    let up = match key {
        KeyInput::ArrowUp => true,
        _ => false,
    };
    let down = match key {
        KeyInput::ArrowDown => true,
        _ => false,
    };
    let mut fired: Vec<Shortcut> = Vec::new();
    push_if(&mut fired, m.control && !m.shift && !m.alt && letter(key, "n", "N"), Shortcut::NewThread);
    push_if(&mut fired, m.control && m.shift && letter(key, "q", "Q"), Shortcut::ModeToggle);
    let quest = !focus.palette_open && focus.quest_overlay_open;
    push_if(&mut fired, quest && escape, Shortcut::QuestOverlaysClose);
    push_if(&mut fired, quest && enter && !m.shift, Shortcut::QuestRenameConfirm);
    push_if(&mut fired, m.control && m.shift && letter(key, "p", "P"), Shortcut::PaletteToggle);
    push_if(&mut fired, focus.palette_open && escape, Shortcut::PaletteToggle);
    push_if(&mut fired, focus.palette_open && enter, Shortcut::PaletteConfirm);
    push_if(&mut fired, focus.palette_open && up && !m.shift, Shortcut::PaletteMove(-1));
    push_if(&mut fired, focus.palette_open && down && !m.shift, Shortcut::PaletteMove(1));
    push_if(
        &mut fired,
        !focus.palette_open && m.control && !m.shift && letter(key, "f", "F"),
        Shortcut::ChatSearchOpen,
    );
    let search = focus.search_open && !focus.palette_open && !m.control && !m.alt;
    push_if(&mut fired, search && escape, Shortcut::ChatSearchClose);
    push_if(&mut fired, search && enter && m.shift, Shortcut::ChatSearchPrev);
    push_if(&mut fired, search && enter && !m.shift, Shortcut::ChatSearchNext);
    push_if(&mut fired, focus.menu_open && escape, Shortcut::MenuClose);
    assert(fired@ =~= spec_shortcuts(key@, m, focus));
    fired
}

} // verus!
