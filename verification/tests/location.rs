use locktick::location::{
    call_location, contains, path_matches, select_call_site, Frame, FrameFilter, Location,
};

fn frame(file: Option<&str>, line: Option<u32>, col: Option<u32>) -> Frame {
    Frame { file: file.map(|f| f.to_string()), line, col }
}

#[test]
fn locations_compare_by_value() {
    let a = Location::new("src/a.rs".to_string(), 3, 7);
    assert_eq!(a, Location::new("src/a.rs".to_string(), 3, 7));
    assert_eq!(a, a.clone());
    assert_ne!(a, Location::new("src/a.rs".to_string(), 3, 8));
    assert_ne!(a, Location::new("src/a.rs".to_string(), 4, 7));
    assert_ne!(a, Location::new("src/b.rs".to_string(), 3, 7));
    assert_eq!((a.path.as_str(), a.line, a.col), ("src/a.rs", 3, 7));
}

#[test]
fn contains_finds_a_text_anywhere() {
    assert!(contains("/home/u/locktick/src/lib.rs", "locktick"));
    assert!(contains("locktick", "locktick"));
    assert!(contains("xlocktick", "locktick"));
    assert!(contains("locktickx", "locktick"));
    assert!(contains("lolocktick", "locktick"));
    assert!(!contains("locktic", "locktick"));
    assert!(!contains("lock-tick", "locktick"));
    assert!(!contains("", "locktick"));
    assert!(contains("", ""));
    assert!(contains("abc", ""));
    assert!(contains("aab", "ab"));
    assert!(contains("/rustc/1a2b/library/std/src/rt.rs", "rustc"));
    assert!(contains("sr\u{e9}c/t\u{e9}sts/a.rs", "t\u{e9}sts"));
    assert!(!contains("sr\u{e9}c/t\u{e9}st/a.rs", "t\u{e9}sts"));
}

#[test]
fn paths_count_by_filter() {
    assert!(path_matches("/home/u/app/src/main.rs", FrameFilter::Callers));
    assert!(!path_matches("/home/u/locktick/src/lock_info.rs", FrameFilter::Callers));
    assert!(!path_matches("/rustc/1a2b/library/core/src/ops.rs", FrameFilter::Callers));
    assert!(path_matches("/home/u/app/tests/it.rs", FrameFilter::Callers));
    assert!(path_matches("/home/u/app/tests/it.rs", FrameFilter::Tests));
    assert!(path_matches("/home/u/locktick/tests/std.rs", FrameFilter::Tests));
    assert!(!path_matches("/home/u/app/src/main.rs", FrameFilter::Tests));
}

#[test]
fn the_first_frame_that_counts_is_the_call_site() {
    let frames = vec![
        frame(None, Some(1), Some(1)),
        frame(Some("/x/locktick/src/lock_info.rs"), Some(35), Some(21)),
        frame(Some("/rustc/abc/library/core/src/ops/function.rs"), Some(250), Some(5)),
        frame(Some("/x/app/src/worker.rs"), Some(17), Some(30)),
        frame(Some("/x/app/src/main.rs"), Some(4), Some(5)),
        frame(Some("/x/app/tests/it.rs"), Some(9), Some(13)),
    ];
    assert_eq!(
        select_call_site(&frames, FrameFilter::Callers),
        Some(Location::new("/x/app/src/worker.rs".to_string(), 17, 30))
    );
    assert_eq!(
        select_call_site(&frames, FrameFilter::Tests),
        Some(Location::new("/x/app/tests/it.rs".to_string(), 9, 13))
    );
}

#[test]
fn a_stack_without_a_call_site_gives_none() {
    assert_eq!(select_call_site(&Vec::new(), FrameFilter::Callers), None);
    let inside = vec![
        frame(Some("/x/locktick/src/lock_info.rs"), Some(35), Some(21)),
        frame(Some("/rustc/abc/library/std/src/rt.rs"), Some(1), Some(1)),
        frame(None, None, None),
    ];
    assert_eq!(select_call_site(&inside, FrameFilter::Callers), None);
    assert_eq!(select_call_site(&inside, FrameFilter::Tests), None);
}

#[test]
fn a_call_site_needs_line_and_column() {
    let no_line = vec![
        frame(Some("/x/app/src/a.rs"), None, Some(3)),
        frame(Some("/x/app/src/b.rs"), Some(2), Some(3)),
    ];
    assert_eq!(select_call_site(&no_line, FrameFilter::Callers), None);
    let no_col = vec![
        frame(Some("/x/app/src/a.rs"), Some(2), None),
        frame(Some("/x/app/src/b.rs"), Some(2), Some(3)),
    ];
    assert_eq!(select_call_site(&no_col, FrameFilter::Callers), None);
}

#[test]
fn the_live_stack_gives_only_sites_that_count() {
    // Without debug information no frame has a file, and there is no site.
    if let Some(site) = call_location(FrameFilter::Tests) {
        assert!(contains(&site.path, "tests"));
    }
    if let Some(site) = call_location(FrameFilter::Callers) {
        assert!(!contains(&site.path, "locktick"));
        assert!(!contains(&site.path, "rustc"));
    }
}
