use codex_gui_ui::drafts::DraftTable;
use codex_gui_ui::drafts::FieldDraft;
use codex_gui_ui::drafts::QuestionDraft;
use codex_gui_ui::drafts::RequestDrafts;
use codex_gui_ui::shell::Shell;

#[test]
fn questions_open_a_dialog_and_submit_drains_the_queue() {
    let mut shell = Shell::new();

    // The picked row and the notes land in the draft.
    shell.requests.question_option_picked(String::from("q1"), 0);
    shell.requests.question_notes_changed(String::from("q1"), String::from("pin to us-east"));
    let draft = shell.requests.questions.get("q1").expect("a draft for q1");
    assert_eq!(draft.selected, Some(0));
    assert_eq!(draft.notes, "pin to us-east");

    // Submitting answers the head and clears its drafts.
    shell.requests.questions_answered();
    assert!(shell.requests.questions.is_empty());
}

#[test]
fn elicitation_form_seeds_defaults_and_declines() {
    let mut shell = Shell::new();

    let mut seeded = DraftTable::new();
    let mut name = FieldDraft::new();
    name.text = String::from("prod");
    seeded.put(String::from("name"), name);
    shell.requests.fields_reset(seeded);
    assert_eq!(shell.requests.fields.get("name").expect("seeded").text, "prod");

    shell.requests.field_text_changed(String::from("name"), String::from("staging"));
    assert_eq!(shell.requests.fields.get("name").expect("edited").text, "staging");

    // Declining answers the head and drops the draft set.
    shell.requests.fields_reset(DraftTable::new());
    assert!(shell.requests.fields.is_empty());
}

#[test]
fn picking_an_option_keeps_the_notes() {
    let mut drafts = RequestDrafts::new();
    drafts.question_notes_changed(String::from("q1"), String::from("later"));
    drafts.question_option_picked(String::from("q1"), 2);
    drafts.question_option_picked(String::from("q1"), 1);

    assert_eq!(
        drafts.questions.get("q1"),
        Some(&QuestionDraft { selected: Some(1), notes: String::from("later") }),
    );
    assert!(drafts.questions.get("q2").is_none());
}

#[test]
fn multi_select_values_toggle_in_and_out_in_picking_order() {
    let mut drafts = RequestDrafts::new();
    drafts.field_value_toggled(String::from("regions"), String::from("us"));
    drafts.field_value_toggled(String::from("regions"), String::from("eu"));
    drafts.field_value_toggled(String::from("regions"), String::from("ap"));
    drafts.field_value_toggled(String::from("regions"), String::from("eu"));

    let draft = drafts.fields.get("regions").expect("a draft");
    assert_eq!(draft.multi, vec![String::from("us"), String::from("ap")]);
}

#[test]
fn editing_a_field_clears_the_form_error() {
    let mut drafts = RequestDrafts::new();
    drafts.form_refused(String::from("name is required"));
    assert_eq!(drafts.error, Some(String::from("name is required")));

    drafts.field_toggled(String::from("confirm"));
    assert!(drafts.error.is_none());
    assert!(drafts.fields.get("confirm").expect("a draft").boolean);

    drafts.form_refused(String::from("pick a tier"));
    drafts.field_picked(String::from("tier"), String::from("gold"));
    assert!(drafts.error.is_none());
    assert_eq!(drafts.fields.get("tier").expect("a draft").single, Some(String::from("gold")));
}

#[test]
fn a_relaunch_drops_the_request_drafts() {
    let mut shell = Shell::new();
    shell.requests.question_option_picked(String::from("q1"), 0);
    shell.requests.field_text_changed(String::from("name"), String::from("prod"));
    shell.requests.form_refused(String::from("bad"));

    let _ = shell.reconnect();

    assert!(shell.requests.questions.is_empty());
    assert!(shell.requests.fields.is_empty());
    assert!(shell.requests.error.is_none());
}

#[test]
fn putting_a_key_again_replaces_its_draft() {
    let mut table = DraftTable::new();
    table.put(String::from("k"), QuestionDraft::new());
    let mut picked = QuestionDraft::new();
    picked.selected = Some(3);
    table.put(String::from("k"), picked);

    assert_eq!(table.get("k").and_then(|d| d.selected), Some(3));
    assert_eq!(table.take("k").and_then(|d| d.selected), Some(3));
    assert!(table.is_empty());
    assert!(table.take("k").is_none());
}

#[test]
fn only_the_first_queued_request_opens_on_a_clean_slate() {
    let mut drafts = RequestDrafts::new();
    drafts.question_option_picked(String::from("q1"), 0);
    drafts.questions_offered(2);
    assert!(drafts.questions.get("q1").is_some(), "a request queued behind keeps the drafts");
    drafts.questions_offered(1);
    assert!(drafts.questions.is_empty());

    drafts.field_text_changed(String::from("name"), String::from("typed"));
    drafts.form_refused(String::from("bad"));
    let mut seeded = DraftTable::new();
    let mut name = FieldDraft::new();
    name.text = String::from("prod");
    seeded.put(String::from("name"), name);
    drafts.elicitation_offered(2, DraftTable::new());
    assert_eq!(drafts.fields.get("name").expect("kept").text, "typed");
    drafts.elicitation_offered(1, seeded);
    assert_eq!(drafts.fields.get("name").expect("seeded").text, "prod");
    assert!(drafts.error.is_none());
}

#[test]
fn an_unpicked_value_toggled_twice_leaves_the_picks_alone() {
    let mut drafts = RequestDrafts::new();
    drafts.field_value_toggled(String::from("regions"), String::from("us"));
    drafts.field_value_toggled(String::from("regions"), String::from("eu"));
    drafts.field_value_toggled(String::from("regions"), String::from("eu"));

    assert_eq!(drafts.fields.get("regions").expect("a draft").multi, vec![String::from("us")]);
}
