use codex_gui_ui::chat::agent_message_closes_turn;
use codex_gui_ui::chat::transcript_rows;
use codex_gui_ui::chat::EntryKind;
use codex_gui_ui::chat::TranscriptRow;
use codex_gui_ui::chat::relative_time;
use codex_gui_ui::chat::step_search_hit;
use codex_gui_ui::state::ChatSearch;

#[test]
fn relative_time_buckets_by_magnitude() {
    let now = 1_000_000;

    assert_eq!(relative_time(now, now), "just now");
    assert_eq!(relative_time(now - 30, now), "just now");
    assert_eq!(relative_time(now - 60, now), "1m ago");
    assert_eq!(relative_time(now - 45 * 60, now), "45m ago");
    assert_eq!(relative_time(now - 3 * 3600, now), "3h ago");
    assert_eq!(relative_time(now - 2 * 86_400, now), "2d ago");
}

#[test]
fn clock_skew_still_reads_as_just_now() {
    // A timestamp slightly in the future must not render a negative age.
    assert_eq!(relative_time(1_000_050, 1_000_000), "just now");
}

#[test]
fn bucket_edges_round_down() {
    assert_eq!(relative_time(0, 59), "just now");
    assert_eq!(relative_time(0, 3599), "59m ago");
    assert_eq!(relative_time(0, 3600), "1h ago");
    assert_eq!(relative_time(0, 86_399), "23h ago");
    assert_eq!(relative_time(0, 86_400 * 400), "400d ago");
}

#[test]
fn step_search_hit_wraps_in_both_directions() {
    let mut search = ChatSearch { open: true, query: String::from("needle"), hit: 0 };

    step_search_hit(&mut search, 2, 1);
    assert_eq!(search.hit, 1);
    step_search_hit(&mut search, 2, 1);
    assert_eq!(search.hit, 0, "forward wraps");
    step_search_hit(&mut search, 2, -1);
    assert_eq!(search.hit, 1, "backward wraps");

    step_search_hit(&mut search, 0, 1);
    assert_eq!(search.hit, 0, "no hits keeps the cursor reset");
}

#[test]
fn transcript_rows_collapses_consecutive_finished_commands() {
    let command = |finished: bool| EntryKind::CommandExecution { finished };
    let user = EntryKind::UserMessage;

    // A run of three finished commands plus a running tail stays separate.
    let entries = vec![
        user,
        command(true),
        command(true),
        command(true),
        command(false),
        user,
        command(true),
    ];
    let rows = transcript_rows(&entries);
    assert_eq!(rows.len(), 5);
    assert!(matches!(rows[0], TranscriptRow::Entry(_)));
    assert!(matches!(rows[1], TranscriptRow::Group(1, 4)), "run of c1..c3");
    assert!(matches!(rows[2], TranscriptRow::Entry(_)), "running c4 alone");
    assert!(matches!(rows[3], TranscriptRow::Entry(_)));
    assert!(matches!(rows[4], TranscriptRow::Entry(_)), "single c5 never grouped");
}

#[test]
fn an_empty_transcript_has_no_rows_and_a_run_can_end_it() {
    assert!(transcript_rows(&[]).is_empty());

    let finished = EntryKind::CommandExecution { finished: true };
    let rows = transcript_rows(&[EntryKind::FileChange, finished, finished]);
    assert_eq!(rows, vec![TranscriptRow::Entry(0), TranscriptRow::Group(1, 3)]);
}

#[test]
fn agent_message_closes_turn_marks_only_the_last_before_user() {
    // Turn 1 streams two agent segments around a command run; turn 2 has
    // one. Only a2 (before the next user message) and a3 (tail) close
    // their turns; a1 is an interior streaming segment.
    let entries = vec![
        EntryKind::UserMessage,
        EntryKind::AgentMessage,
        EntryKind::CommandExecution { finished: true },
        EntryKind::AgentMessage,
        EntryKind::UserMessage,
        EntryKind::AgentMessage,
    ];

    assert!(!agent_message_closes_turn(&entries, 1), "interior segment");
    assert!(agent_message_closes_turn(&entries, 3), "closes turn 1");
    assert!(agent_message_closes_turn(&entries, 5), "transcript tail");
}

#[test]
fn agent_message_closes_turn_on_the_live_streaming_tail() {
    // The latest turn is still streaming: its in-flight message is the
    // tail, so it renders the action bar while its predecessors do not.
    let entries = vec![EntryKind::UserMessage, EntryKind::AgentMessage, EntryKind::AgentMessage];

    assert!(!agent_message_closes_turn(&entries, 1));
    assert!(agent_message_closes_turn(&entries, 2));
}
