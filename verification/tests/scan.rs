use treescan::collector::Tally;
use treescan::entry::EntryMeta;
use treescan::record::{FileRecord, Timestamp};
use treescan::snapshot::{probe_is_link, scan, Node};

fn file_meta(len: u64) -> EntryMeta {
    EntryMeta {
        is_symlink: false,
        is_file: true,
        is_dir: false,
        len,
        created: Some(Timestamp { secs: 1_700_000_000, nanos: 5 }),
        modified: Some(Timestamp { secs: 1_700_000_100, nanos: 7 }),
    }
}

fn dir_meta() -> EntryMeta {
    EntryMeta { is_symlink: false, is_file: false, is_dir: true, len: 4096, created: None, modified: None }
}

fn file(path: &str, len: u64) -> Option<Node> {
    Some(Node { path: path.to_string(), probe: Some(file_meta(len)), listing: None })
}

fn dir(path: &str, entries: Vec<Option<Node>>) -> Option<Node> {
    Some(Node { path: path.to_string(), probe: Some(dir_meta()), listing: Some(entries) })
}

fn locked_dir(path: &str) -> Option<Node> {
    Some(Node { path: path.to_string(), probe: Some(dir_meta()), listing: None })
}

fn link_to_file(path: &str, len: u64) -> Option<Node> {
    let meta = EntryMeta { is_symlink: true, ..file_meta(len) };
    Some(Node { path: path.to_string(), probe: Some(meta), listing: None })
}

fn link_to_dir(path: &str, entries: Vec<Option<Node>>) -> Option<Node> {
    let meta = EntryMeta { is_symlink: true, ..dir_meta() };
    Some(Node { path: path.to_string(), probe: Some(meta), listing: Some(entries) })
}

fn root(entries: Vec<Option<Node>>) -> Node {
    Node { path: "root".to_string(), probe: Some(dir_meta()), listing: Some(entries) }
}

fn pairs(records: &[FileRecord]) -> Vec<(String, u64)> {
    let mut out: Vec<(String, u64)> = records.iter().map(|r| (r.path.clone(), r.size)).collect();
    out.sort();
    out
}

#[test]
fn two_files_one_nested() {
    let tree = root(vec![file("root/a.txt", 10), dir("root/sub", vec![file("root/sub/b.txt", 20)])]);
    let (records, tally) = scan(tree);
    assert_eq!(
        pairs(&records),
        vec![("root/a.txt".to_string(), 10), ("root/sub/b.txt".to_string(), 20)]
    );
    assert_eq!(tally, Tally { count: 2, bytes: 30 });
}

#[test]
fn link_beside_its_target_gives_one_record() {
    let tree = root(vec![link_to_file("root/link", 5), file("root/real.txt", 5)]);
    let (records, tally) = scan(tree);
    assert_eq!(pairs(&records), vec![("root/real.txt".to_string(), 5)]);
    assert_eq!(tally.count, 1);
    assert_eq!(tally.bytes, 5);
}

#[test]
fn empty_root_gives_no_record() {
    let (records, tally) = scan(root(vec![]));
    assert!(records.is_empty());
    assert_eq!(tally, Tally { count: 0, bytes: 0 });
}

#[test]
fn record_count_is_the_number_of_regular_files() {
    // 4 regular files, 3 directories, 2 symlinks.
    let tree = root(vec![
        file("root/a", 1),
        dir("root/d1", vec![file("root/d1/b", 2), dir("root/d1/d2", vec![file("root/d1/d2/c", 3)])]),
        dir("root/d3", vec![]),
        link_to_file("root/l1", 1),
        link_to_dir("root/l2", vec![file("root/l2/b", 2)]),
        file("root/e", 4),
    ]);
    let (records, tally) = scan(tree);
    assert_eq!(records.len(), 4);
    assert_eq!(tally.count, 4);
    assert_eq!(tally.bytes, 10);
    assert_eq!(
        pairs(&records),
        vec![
            ("root/a".to_string(), 1),
            ("root/d1/b".to_string(), 2),
            ("root/d1/d2/c".to_string(), 3),
            ("root/e".to_string(), 4),
        ]
    );
}

#[test]
fn size_is_the_reported_length() {
    let (records, _) = scan(root(vec![file("root/data.bin", 1234)]));
    assert_eq!(records.len(), 1);
    assert_eq!(records[0].size, 1234);
}

#[test]
fn record_carries_path_and_timestamps() {
    let (records, _) = scan(root(vec![file("root/data.bin", 9)]));
    assert_eq!(
        records,
        vec![FileRecord {
            path: "root/data.bin".to_string(),
            created: Some(Timestamp { secs: 1_700_000_000, nanos: 5 }),
            modified: Some(Timestamp { secs: 1_700_000_100, nanos: 7 }),
            size: 9,
        }]
    );
}

#[test]
fn one_missing_timestamp_leaves_the_other() {
    let meta = EntryMeta { created: None, ..file_meta(3) };
    let node = Node { path: "root/f".to_string(), probe: Some(meta), listing: None };
    let (records, _) = scan(root(vec![Some(node)]));
    assert_eq!(records.len(), 1);
    assert_eq!(records[0].created, None);
    assert_eq!(records[0].modified, Some(Timestamp { secs: 1_700_000_100, nanos: 7 }));
}

#[test]
fn link_back_to_an_ancestor_is_not_followed() {
    // `root/a/back` points at `root/a`; what lies behind it is the directory again.
    let behind = vec![file("root/a/back/x", 1), link_to_dir("root/a/back/back", vec![])];
    let tree = root(vec![dir("root/a", vec![file("root/a/x", 1), link_to_dir("root/a/back", behind)])]);
    let (records, _) = scan(tree);
    assert_eq!(pairs(&records), vec![("root/a/x".to_string(), 1)]);
}

#[test]
fn unreadable_directory_loses_only_its_subtree() {
    let tree = root(vec![
        file("root/a", 1),
        locked_dir("root/locked"),
        dir("root/open", vec![file("root/open/b", 2), locked_dir("root/open/locked")]),
        file("root/z", 26),
    ]);
    let (records, tally) = scan(tree);
    assert_eq!(
        pairs(&records),
        vec![("root/a".to_string(), 1), ("root/open/b".to_string(), 2), ("root/z".to_string(), 26)]
    );
    assert_eq!(tally.bytes, 29);
}

#[test]
fn entry_with_unreadable_metadata_is_skipped() {
    let gone = Node { path: "root/gone".to_string(), probe: None, listing: None };
    let (records, _) = scan(root(vec![file("root/a", 1), Some(gone), file("root/b", 2)]));
    assert_eq!(pairs(&records), vec![("root/a".to_string(), 1), ("root/b".to_string(), 2)]);
}

#[test]
fn entry_that_fails_in_the_listing_is_dropped() {
    let (records, _) = scan(root(vec![None, file("root/a", 1), None, file("root/b", 2), None]));
    assert_eq!(pairs(&records), vec![("root/a".to_string(), 1), ("root/b".to_string(), 2)]);
}

#[test]
fn socket_or_device_gives_no_record() {
    let meta = EntryMeta { is_symlink: false, is_file: false, is_dir: false, len: 0, created: None, modified: None };
    let odd = Node { path: "root/sock".to_string(), probe: Some(meta), listing: None };
    let (records, _) = scan(root(vec![Some(odd)]));
    assert!(records.is_empty());
}

#[test]
fn root_that_is_a_symlink_gives_no_record() {
    let meta = EntryMeta { is_symlink: true, ..dir_meta() };
    let tree = Node { path: "root".to_string(), probe: Some(meta), listing: Some(vec![file("root/a", 1)]) };
    let (records, _) = scan(tree);
    assert!(records.is_empty());
}

#[test]
fn root_that_cannot_be_listed_gives_no_record() {
    let tree = Node { path: "root".to_string(), probe: Some(file_meta(7)), listing: None };
    let (records, tally) = scan(tree);
    assert!(records.is_empty());
    assert_eq!(tally.count, 0);
}

#[test]
fn root_is_expanded_without_being_inspected() {
    let tree = Node { path: "root".to_string(), probe: None, listing: Some(vec![file("root/a", 1)]) };
    let (records, _) = scan(tree);
    assert_eq!(pairs(&records), vec![("root/a".to_string(), 1)]);
}

#[test]
fn same_tree_twice_gives_the_same_pairs() {
    let build = || {
        root(vec![
            dir("root/x", vec![file("root/x/1", 11), file("root/x/2", 22)]),
            file("root/y", 33),
            link_to_file("root/l", 33),
        ])
    };
    let (first, _) = scan(build());
    let (second, _) = scan(build());
    assert_eq!(pairs(&first), pairs(&second));
    assert_eq!(pairs(&first).len(), 3);
}

#[test]
fn deep_chain_gives_one_record_per_level() {
    let n: u64 = 1000;
    let mut path = "root".to_string();
    let mut paths: Vec<String> = Vec::new();
    for i in 0..n {
        path = format!("{}/d{}", path, i);
        paths.push(path.clone());
    }
    // Build from the innermost directory outwards.
    let mut inner: Option<Node> = None;
    for (i, p) in paths.iter().enumerate().rev() {
        let mut entries = vec![file(&format!("{}/f", p), i as u64)];
        if let Some(child) = inner.take() {
            entries.push(Some(child));
        }
        inner = dir(p, entries);
    }
    let (records, tally) = scan(root(vec![inner]));
    assert_eq!(records.len(), 1000);
    assert_eq!(tally.count, 1000);
    assert_eq!(tally.bytes, 999 * 1000 / 2);
}

#[test]
fn probe_tells_a_link() {
    assert!(probe_is_link(&Some(EntryMeta { is_symlink: true, ..file_meta(1) })));
    assert!(!probe_is_link(&Some(file_meta(1))));
    assert!(!probe_is_link(&None));
}

#[test]
fn entry_count_counts_every_entry_that_was_read() {
    let tree = root(vec![
        file("root/a", 1),
        dir("root/d", vec![file("root/d/b", 2)]),
        None,
        link_to_dir("root/l", vec![file("root/l/b", 2)]),
    ]);
    assert_eq!(treescan::snapshot::entry_count(&tree), Some(6));
    assert_eq!(treescan::snapshot::entry_count(&root(vec![])), Some(1));
}

#[test]
fn try_scan_scans_what_fits() {
    let tree = root(vec![file("root/a.txt", 10), dir("root/sub", vec![file("root/sub/b.txt", 20)])]);
    let found = treescan::snapshot::try_scan(tree);
    assert!(found.is_some());
    let (records, tally) = found.unwrap();
    assert_eq!(
        pairs(&records),
        vec![("root/a.txt".to_string(), 10), ("root/sub/b.txt".to_string(), 20)]
    );
    assert_eq!(tally, Tally { count: 2, bytes: 30 });
}
