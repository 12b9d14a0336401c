use codex_gui_ui::preview::preview_from_read;
use codex_gui_ui::preview::preview_from_size;
use codex_gui_ui::preview::PREVIEW_LIMIT;
use codex_gui_ui::state::FileBody;

#[test]
fn preview_body_renders_utf8_files_as_text() {
    assert_eq!(preview_from_size(Ok(13)), None);
    assert_eq!(
        preview_from_read(Ok(b"hello preview".to_vec())),
        FileBody::Text(String::from("hello preview")),
    );
}

#[test]
fn preview_body_reports_non_utf8_files_as_binary() {
    // 0xFF and 0xFE are never valid in UTF-8.
    assert_eq!(preview_from_read(Ok(b"\xFF\xFEbytes".to_vec())), FileBody::Binary);
}

#[test]
fn preview_body_flags_oversized_files_without_reading_them() {
    assert_eq!(preview_from_size(Ok(PREVIEW_LIMIT + 1)), Some(FileBody::TooLarge));
    assert_eq!(preview_from_size(Ok(PREVIEW_LIMIT)), None);
}

#[test]
fn preview_body_carries_the_io_failure_reason() {
    let reason = String::from("No such file or directory (os error 2)");
    assert_eq!(preview_from_size(Err(reason.clone())), Some(FileBody::Failed(reason.clone())));
    assert_eq!(preview_from_read(Err(reason.clone())), FileBody::Failed(reason));
}

#[test]
fn oversized_text_is_cut_on_a_character_boundary_and_marked() {
    // 'é' takes two bytes; the cap lands inside the last one.
    let mut bytes = vec![b'a'; PREVIEW_LIMIT as usize - 1];
    bytes.extend_from_slice("éz".as_bytes());

    let expected = format!("{}\n… (已截断)", "a".repeat(PREVIEW_LIMIT as usize - 1));
    assert_eq!(preview_from_read(Ok(bytes)), FileBody::Text(expected));
}

#[test]
fn text_exactly_at_the_cap_is_kept_whole() {
    let bytes = vec![b'x'; PREVIEW_LIMIT as usize];

    assert_eq!(
        preview_from_read(Ok(bytes)),
        FileBody::Text("x".repeat(PREVIEW_LIMIT as usize)),
    );
}

#[test]
fn invalid_bytes_past_the_cap_still_report_binary() {
    let mut bytes = vec![b'a'; PREVIEW_LIMIT as usize + 10];
    bytes.push(0xFF);

    assert_eq!(preview_from_read(Ok(bytes)), FileBody::Binary);
}
