use codex_gui_ui::attachments::is_image_extension;
use codex_gui_ui::attachments::Attachments;

#[test]
fn admits_dropped_images_in_arrival_order() {
    let mut attachments = Attachments::default();

    assert!(attachments.accept("/tmp/shot.png"));
    assert!(attachments.accept("/tmp/diagram.PNG"));
    assert_eq!(
        attachments.images,
        vec![String::from("/tmp/shot.png"), String::from("/tmp/diagram.PNG")],
    );
}

#[test]
fn rejects_non_image_files_and_directories() {
    let mut attachments = Attachments::default();

    assert!(!attachments.accept("/tmp/notes.txt"));
    assert!(!attachments.accept("/tmp/archive.tar.gz"));
    assert!(!attachments.accept("/tmp"));
    assert!(attachments.images.is_empty());
}

#[test]
fn deduplicates_repeated_drops_of_the_same_file() {
    let mut attachments = Attachments::default();

    assert!(attachments.accept("/tmp/shot.png"));
    assert!(!attachments.accept("/tmp/shot.png"));
    assert_eq!(attachments.images.len(), 1);
}

#[test]
fn remove_drops_only_the_targeted_position() {
    let mut attachments = Attachments::default();
    let _ = attachments.accept("/tmp/a.png");
    let _ = attachments.accept("/tmp/b.png");
    let _ = attachments.accept("/tmp/c.png");

    assert!(attachments.remove(1));
    assert!(!attachments.remove(2));
    assert_eq!(
        attachments.images,
        vec![String::from("/tmp/a.png"), String::from("/tmp/c.png")],
    );
}

#[test]
fn clear_empties_the_pending_set() {
    let mut attachments = Attachments::default();
    let _ = attachments.accept("/tmp/a.png");

    attachments.clear();

    assert!(attachments.images.is_empty());
}

#[test]
fn equal_paths_with_doubled_separators_count_as_one_drop() {
    let mut attachments = Attachments::default();

    assert!(attachments.accept("/tmp/shot.png"));
    assert!(!attachments.accept("/tmp//shot.png"));
    assert_eq!(attachments.images.len(), 1);
}

#[test]
fn hidden_files_without_an_extension_are_not_images() {
    assert!(!Attachments::is_image("/tmp/.png"));
    assert!(Attachments::is_image("/tmp/x.JpEg"));
    assert!(!Attachments::is_image("/tmp/x.svg"));
}

#[test]
fn the_extension_table_takes_lowercased_names_only() {
    assert!(is_image_extension("png"));
    assert!(is_image_extension("tiff"));
    assert!(is_image_extension("avif"));
    assert!(!is_image_extension("PNG"), "the caller lowercases first");
    assert!(!is_image_extension("txt"));
    assert!(!is_image_extension(""));
}
