use native_build::scan::{files_with_prefix, lookup_newest, newest_index, Candidate, DirEntry};

fn entry(name: &str, is_dir: bool) -> DirEntry {
    DirEntry { name: name.to_string(), path: format!("/work/{}", name), is_dir }
}

fn candidate(path: &str, created: Option<u128>) -> Candidate {
    Candidate { path: path.to_string(), created }
}

#[test]
fn prefix_lookup_returns_exactly_the_matching_entries() {
    let listing = vec![entry("foo-1", true), entry("foo-2", true), entry("bar-1", true)];
    let mut found = files_with_prefix(&listing, "foo-");
    found.sort();
    assert_eq!(found, vec!["/work/foo-1".to_string(), "/work/foo-2".to_string()]);
}

#[test]
fn prefix_lookup_keeps_listing_order_and_file_kinds() {
    let listing = vec![
        entry("x264-b", false),
        entry("other", true),
        entry("x264-a", true),
        entry("x26", true),
    ];
    assert_eq!(
        files_with_prefix(&listing, "x264-"),
        vec!["/work/x264-b".to_string(), "/work/x264-a".to_string()]
    );
}

#[test]
fn prefix_lookup_edge_cases() {
    let listing = vec![entry("foo-1", true), entry("bar-1", false)];
    assert_eq!(
        files_with_prefix(&listing, ""),
        vec!["/work/foo-1".to_string(), "/work/bar-1".to_string()]
    );
    assert_eq!(files_with_prefix(&listing, "zzz"), Vec::<String>::new());
    assert_eq!(files_with_prefix(&Vec::new(), "foo-"), Vec::<String>::new());
    assert_eq!(files_with_prefix(&listing, "foo-1-and-more"), Vec::<String>::new());
}

#[test]
fn prefix_lookup_goes_by_the_name_not_the_path() {
    let listing = vec![DirEntry {
        name: "x264-stable".to_string(),
        path: "/out/x264-stable".to_string(),
        is_dir: true,
    }];
    assert_eq!(files_with_prefix(&listing, "x264"), vec!["/out/x264-stable".to_string()]);
    assert_eq!(files_with_prefix(&listing, "/out"), Vec::<String>::new());
}

#[test]
fn newest_is_the_latest_created() {
    let set = vec![
        candidate("a", Some(100)),
        candidate("b", Some(300)),
        candidate("c", Some(200)),
    ];
    assert_eq!(lookup_newest(&set), Some("b".to_string()));
    assert_eq!(newest_index(&set), Some(1));
}

#[test]
fn newest_of_unresolvable_candidates_is_nothing() {
    let set = vec![candidate("a", None), candidate("b", None)];
    assert_eq!(lookup_newest(&set), None);
    assert_eq!(newest_index(&set), None);
    assert_eq!(lookup_newest(&Vec::new()), None);
}

#[test]
fn newest_leaves_out_candidates_without_a_time() {
    let set = vec![
        candidate("a", None),
        candidate("b", Some(5)),
        candidate("c", None),
        candidate("d", Some(4)),
    ];
    assert_eq!(lookup_newest(&set), Some("b".to_string()));
    let late = vec![candidate("a", None), candidate("b", Some(0))];
    assert_eq!(lookup_newest(&late), Some("b".to_string()));
}

#[test]
fn newest_of_equal_times_is_the_first() {
    let set = vec![
        candidate("a", Some(7)),
        candidate("b", Some(9)),
        candidate("c", Some(9)),
        candidate("d", Some(8)),
    ];
    assert_eq!(lookup_newest(&set), Some("b".to_string()));
    assert_eq!(newest_index(&set), Some(1));
}

#[test]
fn newest_handles_the_whole_range_of_times() {
    let set = vec![
        candidate("old", Some(0)),
        candidate("far", Some(u128::MAX)),
        candidate("mid", Some(1_700_000_000_000_000_000)),
    ];
    assert_eq!(lookup_newest(&set), Some("far".to_string()));
    let last = vec![candidate("x", Some(1)), candidate("y", Some(2)), candidate("z", Some(3))];
    assert_eq!(lookup_newest(&last), Some("z".to_string()));
}
