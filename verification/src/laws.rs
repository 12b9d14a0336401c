//! Properties of the shell that span several operations or every input.

use crate::attachments::image_extensions;
use crate::board::spec_visible_threads;
use crate::board::BoardThread;
use crate::command_palette::label_matches;
use crate::command_palette::spec_catalog;
use crate::command_palette::spec_filtered;
use crate::command_palette::PaletteCommand;
use crate::keys::is_letter;
use crate::message::SidebarTab;
use crate::attachments::accepts;
use crate::attachments::after_accept;
use crate::attachments::AttachmentsView;
use crate::chat::spec_relative_time;
use crate::chat::stepped_hit;
use crate::chat::is_finished_command;
use crate::chat::row_end;
use crate::chat::row_fits;
use crate::chat::row_start;
use crate::chat::rows_cover;
use crate::chat::spec_closes_turn;
use crate::chat::EntryKind;
use crate::chat::TranscriptRow;
use crate::command_palette::moved_selection;
use crate::commands::spec_slash_action;
use crate::commands::spec_slash_options;
use crate::commands::spec_slash_commands;
use crate::diff_view::spec_parse;
use crate::drafts::first_at;
use crate::drafts::toggled_value;
use crate::drafts::RequestDraftsView;
use crate::diff_view::spec_visible;
use crate::diff_view::lines_after;
use crate::diff_view::split_lines;
use crate::diff_view::strip_cr;
use crate::diff_view::MAX_DIFF_LINES;
use crate::message::MenuId;
use crate::message::Reaction;
use crate::paths::path_eq;
use crate::preview::boundary_at_or_below;
use crate::preview::PREVIEW_LIMIT;
use crate::shell::reacted;
use crate::shell::toggled;
use crate::shell::EffectView;
use crate::shell::ShellView;
use crate::routing::NotificationClass;
use crate::routing::Route;
use crate::state::StatusView;
use crate::text::has_prefix;
use crate::text::trim_end;
use crate::text::trim_start;
use crate::keys::spec_shortcuts;
use crate::keys::KeyFocus;
use crate::keys::KeyView;
use crate::keys::Modifiers;
use crate::keys::Shortcut;
use vstd::prelude::*;
use vstd::utf8::is_char_boundary;
use vstd::utf8::valid_utf8;

verus! {

/// Dropping the same file twice leaves the pending set as one drop does.
pub proof fn law_drop_is_idempotent(v: AttachmentsView, path: Seq<char>)
    ensures
        after_accept(after_accept(v, path), path) == after_accept(v, path),
{
    if accepts(v, path) {
        let a = after_accept(v, path);
        assert(a.images[v.images.len() as int] == path);
        assert(path_eq(a.images[v.images.len() as int], path));
        assert(!accepts(a, path));
    }
}

/// Toggling a card twice restores its expansion set.
pub proof fn law_card_toggle_twice_restores(set: Set<Seq<char>>, id: Seq<char>)
    ensures
        toggled(toggled(set, id), id) == set,
{
    assert(toggled(toggled(set, id), id) =~= set);
}

/// Pressing the same reaction twice on a message without a different
/// reaction restores the reaction table.
pub proof fn law_reaction_twice_restores(m: Map<Seq<char>, Reaction>, id: Seq<char>, reaction: Reaction)
    requires
        m.contains_key(id) ==> m[id] == reaction,
    ensures
        reacted(reacted(m, id, reaction), id, reaction) == m,
{
    if m.contains_key(id) {
        assert(m.remove(id).insert(id, reaction) =~= m);
    } else {
        assert(m.insert(id, reaction).remove(id) =~= m);
    }
}

/// Clicking the same menu title twice restores the menu bar, unless
/// another dropdown was open before (the first click switched over).
pub proof fn law_menu_click_twice_restores(v: ShellView, id: MenuId)
    requires
        v.panels.menu is None || v.panels.menu == Some(id),
    ensures
        v.on_menu_toggled(id).on_menu_toggled(id) == v,
{
}

/// Switching shells twice returns to the same shell with the menu and
/// every transient quest overlay closed.
pub proof fn law_mode_switch_twice_returns(v: ShellView)
    ensures
        v.on_mode_toggled().on_mode_toggled().panels.mode == v.panels.mode,
        !v.on_mode_toggled().quest.any_open(),
        v.on_mode_toggled().panels.menu is None,
{
}

/// A submitted turn carries exactly the composer text and the pending
/// images and empties both; a failed start of that turn hands both back
/// and reopens the composer.
pub proof fn law_failed_turn_start_restores_the_draft(v: ShellView, error: Seq<char>)
    requires
        v.can_submit(),
        spec_slash_action(v.session.composer) is None,
    ensures
        ({
            let (sent, effects) = v.on_submit(false);
            &&& effects[0] == EffectView::StartTurn {
                prompt: v.session.composer,
                images: v.attachments.images,
            }
            &&& sent.session.composer.len() == 0
            &&& sent.attachments.images.len() == 0
            &&& ({
                let (back, _) = sent.on_turn_settled(v.session.composer, v.attachments.images, Some(error));
                &&& back.session.composer == v.session.composer
                &&& back.attachments.images == v.attachments.images
                &&& back.session.status == StatusView::Ready
            })
        }),
{
}

/// Every relaunch moves the connection epoch forward, leaves the status
/// bootstrapping and disconnected, and drops the live thread, its turn and
/// binding, the skills root, the pending images, the MCP list's loaded
/// mark, the sign-in banner and the drafts of the request dialogs.
pub proof fn law_reconnect_moves_the_epoch_forward(v: ShellView)
    requires
        v.session.connection_epoch < u64::MAX,
    ensures
        v.on_reconnect().0.session.connection_epoch == v.session.connection_epoch + 1,
        v.on_reconnect().0.session.thread_id is None,
        v.on_reconnect().0.session.active_turn is None,
        v.on_reconnect().0.session.active_binding is None,
        v.on_reconnect().0.session.codex_home is None,
        v.on_reconnect().0.session.status == StatusView::Bootstrapping,
        !v.on_reconnect().0.session.connected,
        v.on_reconnect().0.attachments.images.len() == 0,
        !v.on_reconnect().0.panels.mcp_loaded,
        v.on_reconnect().0.mcp_login is None,
        v.on_reconnect().0.requests == RequestDraftsView::empty(),
        v.on_reconnect().1 == seq![EffectView::ResetBackend],
{
}

/// Picking a workspace folder closes every preview tab, re-roots the tree
/// there, and opens the fresh thread inside it.
pub proof fn law_folder_pick_starts_over_inside_the_folder(v: ShellView, folder: Seq<char>)
    ensures
        v.on_folder_picked(folder).0.editor.tabs.len() == 0,
        v.on_folder_picked(folder).0.editor.active is None,
        v.on_folder_picked(folder).1 == seq![
            EffectView::ResetTree(folder),
            EffectView::ResetConversation,
            EffectView::StartThread(Some(folder)),
        ],
{
    assert(v.on_folder_picked(folder).1 =~= seq![
        EffectView::ResetTree(folder),
        EffectView::ResetConversation,
        EffectView::StartThread(Some(folder)),
    ]);
}

/// The palette cursor always lands on a row of a non-empty list.
pub proof fn law_palette_cursor_stays_on_a_row(selected: int, delta: int, len: int)
    requires
        len > 0,
    ensures
        0 <= moved_selection(selected, delta, len) < len,
{
}

/// Stepping the search cursor forward and then back returns to the same
/// hit.
pub proof fn law_search_step_round_trip(hit: int, hits: int)
    requires
        0 <= hit < hits,
    ensures
        stepped_hit(stepped_hit(hit, hits, 1), hits, -1) == hit,
{
    if hit + 1 < hits {
        vstd::arithmetic::div_mod::lemma_small_mod((hit + 1) as nat, hits as nat);
        vstd::arithmetic::div_mod::lemma_small_mod(hit as nat, hits as nat);
    } else {
        vstd::arithmetic::div_mod::lemma_mod_self_0(hits);
        assert((0 - 1) % hits == hits - 1) by (nonlinear_arith)
            requires hits > 0;
    }
}

/// A timestamp from the future (clock skew) reads as "just now".
pub proof fn law_future_timestamps_read_as_just_now(sent_at: int, now: int)
    requires
        sent_at >= now,
    ensures
        spec_relative_time(sent_at, now) == "just now"@,
{
}

/// A capped diff shows a prefix of its lines, never more than
/// [`MAX_DIFF_LINES`], and the shown and the counted lines add up to the
/// whole diff.
pub proof fn law_diff_cap_accounts_for_every_line(diff: Seq<char>)
    ensures
        spec_visible(diff).0.len() <= MAX_DIFF_LINES,
        spec_visible(diff).0.len() + spec_visible(diff).1 == spec_parse(diff).len(),
        spec_visible(diff).0 == spec_parse(diff).take(spec_visible(diff).0.len() as int),
{
    if spec_parse(diff).len() <= MAX_DIFF_LINES {
        assert(spec_parse(diff).take(spec_parse(diff).len() as int) =~= spec_parse(diff));
    }
}

/// Splitting after a line ending splits the line list there.
proof fn lemma_lines_after_concat(a: Seq<char>, b: Seq<char>, cur: Seq<char>)
    requires
        a.len() > 0,
        a.last() == '\n',
    ensures
        lines_after(a + b, cur) == lines_after(a, cur) + lines_after(b, seq![]),
    decreases a.len(),
{
    let ab = a + b;
    assert(ab[0] == a[0]);
    assert(ab.drop_first() =~= a.drop_first() + b);
    if a[0] == '\n' {
        if a.len() == 1 {
            assert(a.drop_first() =~= Seq::<char>::empty());
            assert(a.drop_first() + b =~= b);
            assert(lines_after(a.drop_first(), seq![]) =~= Seq::<Seq<char>>::empty());
            assert(lines_after(a, cur) =~= seq![strip_cr(cur)]);
            assert(lines_after(ab, cur) =~= seq![strip_cr(cur)] + lines_after(b, seq![]));
        } else {
            assert(a.drop_first().last() == a.last());
            lemma_lines_after_concat(a.drop_first(), b, seq![]);
            assert(lines_after(ab, cur) =~= seq![strip_cr(cur)] + (lines_after(a.drop_first(), seq![])
                + lines_after(b, seq![])));
        }
    } else {
        assert(a.drop_first().last() == a.last());
        lemma_lines_after_concat(a.drop_first(), b, cur.push(a[0]));
    }
}

/// Each diff line is classified on its own: parsing two texts joined at a
/// line boundary gives the lines of the first, then those of the second.
pub proof fn law_diff_parse_splits_at_a_line_boundary(a: Seq<char>, b: Seq<char>)
    requires
        a.len() == 0 || a.last() == '\n',
    ensures
        spec_parse(a + b) == spec_parse(a) + spec_parse(b),
{
    if a.len() == 0 {
        assert(a + b =~= b);
        assert(split_lines(a) =~= Seq::<Seq<char>>::empty());
    } else {
        lemma_lines_after_concat(a, b, seq![]);
    }
    assert(split_lines(a + b) == split_lines(a) + split_lines(b));
    assert(spec_parse(a + b) =~= spec_parse(a) + spec_parse(b));
}

/// The cut point of an oversized preview is a character boundary within
/// the size cap.
pub proof fn law_preview_cut_is_a_boundary_within_the_cap(bytes: Seq<u8>)
    requires
        valid_utf8(bytes),
        bytes.len() > PREVIEW_LIMIT,
    ensures
        0 <= boundary_at_or_below(bytes, PREVIEW_LIMIT as int) <= PREVIEW_LIMIT,
        is_char_boundary(bytes, boundary_at_or_below(bytes, PREVIEW_LIMIT as int)),
{
    lemma_boundary_at_or_below(bytes, PREVIEW_LIMIT as int);
}

/// The search for a boundary stops at one, at or below where it started.
proof fn lemma_boundary_at_or_below(bytes: Seq<u8>, end: int)
    requires
        valid_utf8(bytes),
        end <= bytes.len(),
    ensures
        0 <= boundary_at_or_below(bytes, end),
        end >= 0 ==> boundary_at_or_below(bytes, end) <= end,
        is_char_boundary(bytes, boundary_at_or_below(bytes, end)),
    decreases end,
{
    if end <= 0 {
        vstd::utf8::is_char_boundary_start_end_of_seq(bytes);
    } else if !is_char_boundary(bytes, end) {
        lemma_boundary_at_or_below(bytes, end - 1);
    }
}

/// Every command row the picker offers names a command that a bare
/// submission of it runs.
pub proof fn law_offered_slash_commands_run(text: Seq<char>, i: int)
    requires
        0 <= i < spec_slash_options(text).len(),
    ensures
        spec_slash_action(spec_slash_options(text)[i].0) is Some,
{
    let word = trim_start(text);
    let rows = spec_slash_commands();
    let keep = |r: (Seq<char>, Seq<char>)| has_prefix(r.0, word);
    assert(spec_slash_options(text) == rows.filter(keep));
    assert(rows.filter(keep).contains(spec_slash_options(text)[i]));
    rows.lemma_filter_contains_rev(keep, spec_slash_options(text)[i]);
    assert(rows.contains(spec_slash_options(text)[i]));
    reveal_strlit("/review");
    reveal_strlit("/compact");
    assert(trim_start("/review"@) == "/review"@);
    assert(trim_end("/review"@) == "/review"@);
    assert(trim_start("/compact"@) == "/compact"@);
    assert(trim_end("/compact"@) == "/compact"@);
}

/// While the command palette is open it owns the keyboard: no press
/// reaches the Quest overlays or the transcript search bar.
pub proof fn law_open_palette_owns_the_keyboard(key: KeyView, m: Modifiers, focus: KeyFocus)
    requires
        focus.palette_open,
    ensures
        forall|i: int|
            0 <= i < spec_shortcuts(key, m, focus).len() ==> match #[trigger] spec_shortcuts(key, m, focus)[i] {
                Shortcut::QuestOverlaysClose | Shortcut::QuestRenameConfirm | Shortcut::ChatSearchOpen
                | Shortcut::ChatSearchClose | Shortcut::ChatSearchNext | Shortcut::ChatSearchPrev => false,
                _ => true,
            },
{
    let fired = spec_shortcuts(key, m, focus);
    assert forall|i: int| 0 <= i < fired.len() implies match #[trigger] fired[i] {
        Shortcut::QuestOverlaysClose | Shortcut::QuestRenameConfirm | Shortcut::ChatSearchOpen
        | Shortcut::ChatSearchClose | Shortcut::ChatSearchNext | Shortcut::ChatSearchPrev => false,
        _ => true,
    } by {
        assert(fired[i] == Shortcut::NewThread || fired[i] == Shortcut::ModeToggle || fired[i]
            == Shortcut::PaletteToggle || fired[i] == Shortcut::PaletteConfirm || fired[i]
            == Shortcut::PaletteMove(-1i32) || fired[i] == Shortcut::PaletteMove(1i32) || fired[i]
            == Shortcut::MenuClose);
    }
}

/// Only one agent message per turn carries the end-of-turn action bar: of
/// two agent messages that both close their turn, a user message lies
/// between them.
pub proof fn law_one_closer_per_turn(s: Seq<EntryKind>, i: int, j: int)
    requires
        0 <= i < j < s.len(),
        s[i] == EntryKind::AgentMessage,
        s[j] == EntryKind::AgentMessage,
        spec_closes_turn(s, i),
    ensures
        exists|k: int| i < k < j && s[k] == EntryKind::UserMessage,
{
}

/// The last agent message of the transcript always closes its turn.
pub proof fn law_the_tail_message_closes_its_turn(s: Seq<EntryKind>, i: int)
    requires
        0 <= i < s.len(),
        forall|j: int| i < j < s.len() ==> s[j] != EntryKind::AgentMessage,
    ensures
        spec_closes_turn(s, i),
{
}

/// Some row of a covering layout holds entry `i`.
proof fn lemma_row_holding(s: Seq<EntryKind>, rows: Seq<TranscriptRow>, n: int, i: int) -> (k: int)
    requires
        rows_cover(s, rows, n),
        0 <= i < n,
    ensures
        0 <= k < rows.len(),
        row_start(rows[k]) <= i < row_end(rows[k]),
    decreases rows.len(),
{
    let last = rows.len() - 1;
    if i >= row_start(rows[last]) {
        last
    } else {
        let prefix = rows.drop_last();
        assert(prefix.len() > 0) by {
            if prefix.len() == 0 {
                assert(row_start(rows[0]) == 0);
            }
        }
        assert(row_end(prefix.last()) == row_start(rows[last]));
        assert forall|k: int| 0 <= k < prefix.len() - 1 implies row_end(#[trigger] prefix[k]) == row_start(
            prefix[k + 1],
        ) by {
            assert(prefix[k] == rows[k] && prefix[k + 1] == rows[k + 1]);
        }
        assert forall|k: int| 0 <= k < prefix.len() implies row_fits(s, #[trigger] prefix[k]) by {
            assert(prefix[k] == rows[k]);
        }
        assert(row_start(rows[last]) > 0);
        lemma_row_holding(s, prefix, row_start(rows[last]), i)
    }
}

/// In any layout the rows produce, a command that is still running
/// renders as a row of its own, never inside a collapsed group.
pub proof fn law_running_commands_render_alone(s: Seq<EntryKind>, rows: Seq<TranscriptRow>, i: int)
    requires
        rows_cover(s, rows, s.len() as int),
        0 <= i < s.len(),
        s[i] == (EntryKind::CommandExecution { finished: false }),
    ensures
        rows.contains(TranscriptRow::Entry(i as usize)),
{
    let k = lemma_row_holding(s, rows, s.len() as int, i);
    assert(row_fits(s, rows[k]));
    match rows[k] {
        TranscriptRow::Entry(j) => {
            assert(j == i);
        },
        TranscriptRow::Group(a, b) => {
            assert(is_finished_command(s[i]));
        },
    }
}

/// Traffic of the running commit draft's thread never reaches the
/// live-thread transitions, the status bar or the transcript; without a
/// running draft nothing is diverted to it.
pub proof fn law_draft_traffic_stays_with_the_draft(v: ShellView, class: NotificationClass, thread_id: Option<
    Seq<char>,
>)
    requires
        class != NotificationClass::SkillsChanged,
    ensures
        v.git.draft_thread is Some && thread_id == v.git.draft_thread ==> v.route(class, thread_id)
            == Route::DraftThread,
        v.git.draft_thread is None ==> v.route(class, thread_id) != Route::DraftThread,
{
}

/// Re-picking the pair the live thread already runs (and the config
/// holds) only closes the menu.
pub proof fn law_repicking_the_live_pair_only_closes_the_menu(
    v: ShellView,
    provider: Seq<char>,
    model: Seq<char>,
)
    requires
        v.session.active_binding == Some((provider, model)),
    ensures
        v.on_vendor_model_picked(provider, model, Some(provider), Some(model)).1.len() == 0,
        v.on_vendor_model_picked(provider, model, Some(provider), Some(model)).0.session == v.session,
{
}

/// The settle of a settings write always consumes the pending menu pick.
pub proof fn law_settings_save_consumes_the_pending_pick(
    v: ShellView,
    panel_edit: bool,
    setup: (Seq<char>, Seq<char>, bool),
    transcript_empty: bool,
)
    ensures
        v.on_settings_saved(panel_edit, setup, transcript_empty).0.session.pending_model_apply is None,
        !v.on_settings_saved(panel_edit, setup, transcript_empty).0.session.model_switch_pending,
        v.on_settings_saved(panel_edit, setup, transcript_empty).1[0] == EffectView::LoadConfig,
{
}

/// A multi-select value that was not picked, toggled on and off again,
/// leaves the picks as they were.
pub proof fn law_value_toggled_twice_restores(values: Seq<Seq<char>>, value: Seq<char>)
    requires
        !values.contains(value),
    ensures
        toggled_value(toggled_value(values, value), value) == values,
{
    let once = values.push(value);
    let last = values.len() as int;
    assert(once[last] == value);
    assert(once.contains(value));
    assert(first_at(once, value, last)) by {
        assert forall|j: int| 0 <= j < last implies once[j] != value by {
            assert(once[j] == values[j]);
        }
    }
    let c = choose|k: int| first_at(once, value, k);
    assert(c == last) by {
        if c < last {
            assert(once[c] == values[c]);
        }
    }
    assert(once.remove(last) =~= values);
}

/// Pending images alone are enough to send a turn: on a connected, ready
/// live thread, Enter with at least one pending image and no slash command
/// sends the composer text (whatever it is, even nothing) together with
/// every pending image, clears both, and waits for the reply.
pub proof fn law_images_alone_submit_a_turn(v: ShellView)
    requires
        v.session.connected,
        v.session.thread_id is Some,
        v.session.status == StatusView::Ready,
        v.attachments.images.len() > 0,
        spec_slash_action(v.session.composer) is None,
    ensures
        v.can_submit(),
        v.on_submit(false).1 == seq![
            EffectView::StartTurn { prompt: v.session.composer, images: v.attachments.images },
            EffectView::FocusComposer,
        ],
        v.on_submit(false).0.attachments.images.len() == 0,
        v.on_submit(false).0.session.composer.len() == 0,
        v.on_submit(false).0.session.status == StatusView::Thinking,
{
}

/// Every image format the shell attaches is in the extension table, by
/// its lower-cased name: png, jpg, jpeg, gif, webp, bmp, ico, tif, tiff,
/// qoi and avif.
pub proof fn law_every_image_format_is_attachable()
    ensures
        image_extensions().contains("png"@),
        image_extensions().contains("jpg"@),
        image_extensions().contains("jpeg"@),
        image_extensions().contains("gif"@),
        image_extensions().contains("webp"@),
        image_extensions().contains("bmp"@),
        image_extensions().contains("ico"@),
        image_extensions().contains("tif"@),
        image_extensions().contains("tiff"@),
        image_extensions().contains("qoi"@),
        image_extensions().contains("avif"@),
{
    let t = image_extensions();
    assert(t[0] == "png"@);
    assert(t[1] == "jpg"@);
    assert(t[2] == "jpeg"@);
    assert(t[3] == "gif"@);
    assert(t[4] == "webp"@);
    assert(t[5] == "bmp"@);
    assert(t[6] == "ico"@);
    assert(t[7] == "tif"@);
    assert(t[8] == "tiff"@);
    assert(t[9] == "qoi"@);
    assert(t[10] == "avif"@);
}

/// The letter shortcuts ignore the letter's case, whatever else is open:
/// Ctrl+N starts a thread, Ctrl+Shift+Q switches shells, Ctrl+Shift+P
/// toggles the palette, and Ctrl+F (palette closed) opens the search bar;
/// each is the first action the press fires.
pub proof fn law_letter_shortcuts_ignore_case(letter: Seq<char>, m: Modifiers, focus: KeyFocus)
    ensures
        (letter == seq!['n'] || letter == seq!['N']) && m.control && !m.shift && !m.alt ==> {
            let fired = spec_shortcuts(KeyView::Character(letter), m, focus);
            fired.len() > 0 && fired[0] == Shortcut::NewThread
        },
        (letter == seq!['q'] || letter == seq!['Q']) && m.control && m.shift ==> {
            let fired = spec_shortcuts(KeyView::Character(letter), m, focus);
            fired.len() > 0 && fired[0] == Shortcut::ModeToggle
        },
        (letter == seq!['p'] || letter == seq!['P']) && m.control && m.shift ==> {
            let fired = spec_shortcuts(KeyView::Character(letter), m, focus);
            fired.len() > 0 && fired[0] == Shortcut::PaletteToggle
        },
        (letter == seq!['f'] || letter == seq!['F']) && m.control && !m.shift && !focus.palette_open ==> {
            let fired = spec_shortcuts(KeyView::Character(letter), m, focus);
            fired.len() > 0 && fired[0] == Shortcut::ChatSearchOpen
        },
{
    let key = KeyView::Character(letter);
    let fired = spec_shortcuts(key, m, focus);
    if (letter == seq!['q'] || letter == seq!['Q']) && m.control && m.shift {
        assert(fired[0] == Shortcut::ModeToggle);
    }
    if (letter == seq!['p'] || letter == seq!['P']) && m.control && m.shift {
        assert(!is_letter(key, 'q', 'Q')) by {
            assert(letter[0] != 'q' && letter[0] != 'Q');
        }
        assert(!is_letter(key, 'n', 'N'));
        assert(fired[0] == Shortcut::PaletteToggle);
    }
    if (letter == seq!['f'] || letter == seq!['F']) && m.control && !m.shift && !focus.palette_open {
        assert(!is_letter(key, 'n', 'N')) by {
            assert(letter[0] != 'n' && letter[0] != 'N');
        }
        assert(fired[0] == Shortcut::ChatSearchOpen);
    }
}

/// The command a palette label names, stated row by row.
pub open spec fn named_command(label: Seq<char>) -> Option<PaletteCommand> {
    if label == "Open folder…"@ {
        Some(PaletteCommand::FolderPickRequested)
    } else if label == "New thread"@ {
        Some(PaletteCommand::NewThreadRequested)
    } else if label == "Toggle Quest mode"@ {
        Some(PaletteCommand::ModeToggled)
    } else if label == "Show threads"@ {
        Some(PaletteCommand::SidebarTab(SidebarTab::Threads))
    } else if label == "Show files"@ {
        Some(PaletteCommand::SidebarTab(SidebarTab::Files))
    } else if label == "Show search"@ {
        Some(PaletteCommand::SidebarTab(SidebarTab::Search))
    } else if label == "Show source control"@ {
        Some(PaletteCommand::SidebarTab(SidebarTab::SourceControl))
    } else if label == "Show repo wiki"@ {
        Some(PaletteCommand::SidebarTab(SidebarTab::Wiki))
    } else if label == "Show run and debug"@ {
        Some(PaletteCommand::SidebarTab(SidebarTab::Debug))
    } else if label == "Show remote explorer"@ {
        Some(PaletteCommand::SidebarTab(SidebarTab::Remote))
    } else if label == "Show extensions"@ {
        Some(PaletteCommand::SidebarTab(SidebarTab::Extensions))
    } else if label == "Toggle sidebar"@ {
        Some(PaletteCommand::SidebarToggled)
    } else if label == "Skill picker"@ {
        Some(PaletteCommand::SkillsPickerToggled)
    } else if label == "Settings"@ {
        Some(PaletteCommand::SettingsToggled)
    } else {
        None
    }
}

/// A filter keeps only elements of the filtered sequence: whatever holds of
/// every element holds of every kept one.
proof fn lemma_filter_keeps<A>(s: Seq<A>, p: spec_fn(A) -> bool, q: spec_fn(A) -> bool)
    requires
        forall|i: int| 0 <= i < s.len() ==> q(#[trigger] s[i]),
    ensures
        forall|i: int| 0 <= i < s.filter(p).len() ==> q(#[trigger] s.filter(p)[i]),
    decreases s.len(),
{
    reveal_with_fuel(Seq::filter, 1);
    if s.len() > 0 {
        let init = s.drop_last();
        assert forall|i: int| 0 <= i < init.len() implies q(#[trigger] init[i]) by {
            assert(init[i] == s[i]);
        }
        lemma_filter_keeps(init, p, q);
        let f = s.filter(p);
        assert forall|i: int| 0 <= i < f.len() implies q(#[trigger] f[i]) by {
            if p(s.last()) {
                if i < f.len() - 1 {
                    assert(f[i] == init.filter(p)[i]);
                } else {
                    assert(f[i] == s[s.len() - 1]);
                }
            } else {
                assert(f[i] == init.filter(p)[i]);
            }
        }
    }
}

/// Every palette row runs the command its label names, and no two rows run
/// the same command; so whatever the query, each row the filter keeps
/// (and the one Enter confirms) runs the command its label names.
pub proof fn law_palette_rows_run_what_they_name(query: Seq<char>)
    ensures
        forall|i: int| 0 <= i < spec_catalog().len() ==> named_command(#[trigger] spec_catalog()[i].0) == Some(
            spec_catalog()[i].1,
        ),
        forall|i: int, j: int|
            0 <= i < j < spec_catalog().len() ==> #[trigger] spec_catalog()[i].1 != #[trigger] spec_catalog()[j].1,
        forall|i: int| 0 <= i < spec_filtered(query).len() ==> named_command(
            #[trigger] spec_filtered(query)[i].0,
        ) == Some(spec_filtered(query)[i].1),
{
    reveal_strlit("Open folder…");
    reveal_strlit("New thread");
    reveal_strlit("Toggle Quest mode");
    reveal_strlit("Show threads");
    reveal_strlit("Show files");
    reveal_strlit("Show search");
    reveal_strlit("Show source control");
    reveal_strlit("Show repo wiki");
    reveal_strlit("Show run and debug");
    reveal_strlit("Show remote explorer");
    reveal_strlit("Show extensions");
    reveal_strlit("Toggle sidebar");
    reveal_strlit("Skill picker");
    reveal_strlit("Settings");
    assert("Open folder…"@.len() == 12 && "Open folder…"@[0] == 'O' && "Open folder…"@[1] == 'p');
    assert("New thread"@.len() == 10 && "New thread"@[0] == 'N' && "New thread"@[1] == 'e');
    assert("Toggle Quest mode"@.len() == 17 && "Toggle Quest mode"@[0] == 'T' && "Toggle Quest mode"@[1] == 'o');
    assert("Show threads"@.len() == 12 && "Show threads"@[0] == 'S' && "Show threads"@[1] == 'h');
    assert("Show files"@.len() == 10 && "Show files"@[0] == 'S' && "Show files"@[1] == 'h');
    assert("Show search"@.len() == 11 && "Show search"@[0] == 'S' && "Show search"@[1] == 'h');
    assert("Show source control"@.len() == 19 && "Show source control"@[0] == 'S' && "Show source control"@[1] == 'h');
    assert("Show repo wiki"@.len() == 14 && "Show repo wiki"@[0] == 'S' && "Show repo wiki"@[1] == 'h');
    assert("Show run and debug"@.len() == 18 && "Show run and debug"@[0] == 'S' && "Show run and debug"@[1] == 'h');
    assert("Show remote explorer"@.len() == 20 && "Show remote explorer"@[0] == 'S' && "Show remote explorer"@[1] == 'h');
    assert("Show extensions"@.len() == 15 && "Show extensions"@[0] == 'S' && "Show extensions"@[1] == 'h');
    assert("Toggle sidebar"@.len() == 14 && "Toggle sidebar"@[0] == 'T' && "Toggle sidebar"@[1] == 'o');
    assert("Skill picker"@.len() == 12 && "Skill picker"@[0] == 'S' && "Skill picker"@[1] == 'k');
    assert("Settings"@.len() == 8 && "Settings"@[0] == 'S' && "Settings"@[1] == 'e');
    let c = spec_catalog();
    let q = |row: (Seq<char>, PaletteCommand)| named_command(row.0) == Some(row.1);
    assert(q(c[0]));
    assert(q(c[1]));
    assert(q(c[2]));
    assert(q(c[3]));
    assert(q(c[4]));
    assert(q(c[5]));
    assert(q(c[6]));
    assert(q(c[7]));
    assert(q(c[8]));
    assert(q(c[9]));
    assert(q(c[10]));
    assert(q(c[11]));
    assert(q(c[12]));
    assert(q(c[13]));
    assert forall|i: int| 0 <= i < c.len() implies q(#[trigger] c[i]) by {
        assert(0 <= i < 14);
    }
    assert forall|i: int| 0 <= i < c.len() implies named_command(#[trigger] c[i].0) == Some(c[i].1) by {
        assert(q(c[i]));
    }
    assert forall|i: int, j: int| 0 <= i < j < c.len() implies #[trigger] c[i].1 != #[trigger] c[j].1 by {
        assert(0 <= i < 14 && 0 <= j < 14);
    }
    let p = |row: (Seq<char>, PaletteCommand)| label_matches(query, row.0);
    lemma_filter_keeps(c, p, q);
    assert forall|i: int| 0 <= i < spec_filtered(query).len() implies named_command(
        #[trigger] spec_filtered(query)[i].0,
    ) == Some(spec_filtered(query)[i].1) by {
        assert(spec_filtered(query) == c.filter(p));
        assert(q(c.filter(p)[i]));
    }
}

/// A project tab keeps only the threads of exactly that directory: every
/// position the board shows under tab `project` is a thread whose
/// directory is `project`, in increasing list order.
pub proof fn law_project_tab_keeps_only_its_own_threads(
    threads: Seq<BoardThread>,
    project: Seq<char>,
    filter: Seq<char>,
)
    requires
        threads.len() <= usize::MAX,
    ensures
        forall|k: int|
            0 <= k < spec_visible_threads(threads, Some(project), filter).len() ==> {
                &&& #[trigger] spec_visible_threads(threads, Some(project), filter)[k] < threads.len()
                &&& threads[spec_visible_threads(threads, Some(project), filter)[k] as int].cwd@ == project
            },
        forall|k: int, l: int|
            0 <= k < l < spec_visible_threads(threads, Some(project), filter).len() ==> #[trigger] spec_visible_threads(
                threads,
                Some(project),
                filter,
            )[k] < #[trigger] spec_visible_threads(threads, Some(project), filter)[l],
    decreases threads.len(),
{
    if threads.len() > 0 {
        let init = threads.drop_last();
        law_project_tab_keeps_only_its_own_threads(init, project, filter);
        let rest = spec_visible_threads(init, Some(project), filter);
        let kept = spec_visible_threads(threads, Some(project), filter);
        assert forall|k: int| 0 <= k < kept.len() implies {
            &&& #[trigger] kept[k] < threads.len()
            &&& threads[kept[k] as int].cwd@ == project
        } by {
            if k < rest.len() {
                assert(kept[k] == rest[k]);
                assert(init[rest[k] as int] == threads[rest[k] as int]);
            } else {
                assert(kept[k] == (threads.len() - 1) as usize);
                assert(threads.last() == threads[threads.len() - 1]);
            }
        }
        assert forall|k: int, l: int| 0 <= k < l < kept.len() implies #[trigger] kept[k] < #[trigger] kept[l] by {
            assert(kept[k] == rest[k]);
            if l < rest.len() {
                assert(kept[l] == rest[l]);
            } else {
                assert(rest[k] < init.len());
            }
        }
    }
}

} // verus!
