use codex_gui_ui::board::contains_chars;
use codex_gui_ui::board::projects;
use codex_gui_ui::board::visible_threads;
use codex_gui_ui::board::BoardThread;

fn summary(label: &str, cwd: &str) -> BoardThread {
    BoardThread { label: String::from(label), cwd: String::from(cwd) }
}

#[test]
fn threads_project_into_per_project_groups() {
    let threads = vec![
        summary("t1", "/work/alpha"),
        summary("t2", "/work/beta"),
        summary("t3", "/work/alpha"),
    ];

    let alpha: Vec<&str> = visible_threads(&threads, Some("/work/alpha"), "")
        .into_iter()
        .map(|i| threads[i].label.as_str())
        .collect();
    assert_eq!(alpha, vec!["t1", "t3"], "server order kept per project");
    let beta: Vec<&str> = visible_threads(&threads, Some("/work/beta"), "")
        .into_iter()
        .map(|i| threads[i].label.as_str())
        .collect();
    assert_eq!(beta, vec!["t2"]);

    // Sorted group keys: alpha renders before beta regardless of arrival.
    assert_eq!(projects(&threads), vec![String::from("/work/alpha"), String::from("/work/beta")]);
}

#[test]
fn projects_are_distinct_and_sorted() {
    let threads = vec![
        summary("a", "/z"),
        summary("b", "/a/b"),
        summary("c", "/a"),
        summary("d", "/z"),
        summary("e", "/é"),
    ];

    assert_eq!(
        projects(&threads),
        vec![
            String::from("/a"),
            String::from("/a/b"),
            String::from("/z"),
            String::from("/é"),
        ],
    );
    assert!(projects(&[]).is_empty());
}

#[test]
fn the_board_filter_matches_labels_and_directories_case_insensitively() {
    let threads = vec![
        summary("Fix Login", "/repo/a"),
        summary("polish docs", "/repo/Login-page"),
        summary("other", "/repo/b"),
    ];

    assert_eq!(visible_threads(&threads, None, "  LOGIN "), vec![0, 1]);
    assert_eq!(visible_threads(&threads, Some("/repo/a"), "login"), vec![0]);
    assert_eq!(visible_threads(&threads, None, "   "), vec![0, 1, 2]);
    assert!(visible_threads(&threads, Some("/nowhere"), "").is_empty());
    assert!(visible_threads(&threads, None, "zzz").is_empty());
}

#[test]
fn contains_chars_finds_a_contiguous_run() {
    let hay: Vec<char> = "/work/alpha".chars().collect();
    let run: Vec<char> = "alp".chars().collect();
    let gapped: Vec<char> = "wph".chars().collect();
    assert!(contains_chars(&hay, &run));
    assert!(!contains_chars(&hay, &gapped));
    assert!(contains_chars(&hay, &[]));
    assert!(!contains_chars(&run, &hay), "a longer needle never fits");
}
