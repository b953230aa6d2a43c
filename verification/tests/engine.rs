use rudisk::engine::{Opt, Progress, Search};
use rudisk::identity::FileIdentity;
use rudisk::ledger::{sat_add, SizeLedger};

const ROOT_ID: u64 = 1;
const SUB_ID: u64 = 2;

fn started(root: &str) -> Search {
    let mut s = Search::new(root.to_string());
    s.go().unwrap();
    s
}

#[test]
fn scenario_two_files_and_subdirectory() {
    // Root R holds file a (100 bytes) and subdirectory S holding b (200 bytes).
    let mut s = started("/r");
    s.aggregate_file(FileIdentity(10), 100, &vec![FileIdentity(ROOT_ID)]);
    s.aggregate_file(FileIdentity(11), 200, &vec![FileIdentity(SUB_ID), FileIdentity(ROOT_ID)]);
    s.finish();
    let p = s.progress();
    assert_eq!(p.searched, 2);
    assert_eq!(p.total_bytes, 300);
    assert_eq!(s.lookup_size(FileIdentity(ROOT_ID)), Some(300));
    assert_eq!(s.lookup_size(FileIdentity(SUB_ID)), Some(200));
    // A file's own entry holds its length once: the file is not part of
    // its own ancestor chain.
    assert_eq!(s.lookup_size(FileIdentity(10)), Some(100));
    assert_eq!(s.lookup_size(FileIdentity(11)), Some(200));
    assert!(s.is_finished());
}

#[test]
fn second_start_fails_and_changes_nothing() {
    let mut s = started("/r");
    s.aggregate_file(FileIdentity(10), 7, &vec![FileIdentity(ROOT_ID)]);
    let r = s.go();
    assert!(r.is_err());
    let p = s.progress();
    assert_eq!(p.searched, 1);
    assert_eq!(p.total_bytes, 7);
    assert_eq!(s.lookup_size(FileIdentity(ROOT_ID)), Some(7));
    assert!(!s.is_finished());
}

#[test]
fn start_on_finished_engine_fails() {
    let mut s = started("/r");
    s.finish();
    assert!(s.go().is_err());
    assert!(s.is_finished());
}

#[test]
fn progress_reads_zero_before_start() {
    let s = Search::new("/r".to_string());
    let p = s.progress();
    assert_eq!(p.searched, 0);
    assert_eq!(p.total_bytes, 0);
    assert!(!s.is_finished());
}

#[test]
fn lookup_of_unobserved_identity_is_none() {
    let s = Search::new("/r".to_string());
    assert_eq!(s.lookup_size(FileIdentity(99)), None);
}

#[test]
fn hard_link_counted_once_per_directory_entry() {
    // One object, two directory entries: the file's own entry keeps its
    // length, the counters count both occurrences, and each containing
    // directory accumulates one occurrence.
    let mut s = started("/r");
    s.aggregate_file(FileIdentity(7), 50, &vec![FileIdentity(ROOT_ID)]);
    s.aggregate_file(FileIdentity(7), 50, &vec![FileIdentity(SUB_ID), FileIdentity(ROOT_ID)]);
    s.finish();
    let p = s.progress();
    assert_eq!(p.searched, 2);
    assert_eq!(p.total_bytes, 100);
    assert_eq!(s.lookup_size(FileIdentity(7)), Some(50));
    assert_eq!(s.lookup_size(FileIdentity(ROOT_ID)), Some(100));
    assert_eq!(s.lookup_size(FileIdentity(SUB_ID)), Some(50));
}

#[test]
fn counters_and_entries_saturate_at_the_largest_size() {
    let mut s = started("/r");
    s.aggregate_file(FileIdentity(10), u64::MAX, &vec![FileIdentity(ROOT_ID)]);
    s.aggregate_file(FileIdentity(11), 5, &vec![FileIdentity(ROOT_ID)]);
    s.finish();
    let p = s.progress();
    assert_eq!(p.searched, 2);
    assert_eq!(p.total_bytes, u64::MAX);
    assert_eq!(s.lookup_size(FileIdentity(ROOT_ID)), Some(u64::MAX));
    assert_eq!(s.lookup_size(FileIdentity(10)), Some(u64::MAX));
    assert_eq!(s.lookup_size(FileIdentity(11)), Some(5));
}

#[test]
fn many_files_under_one_ancestor_sum_exactly() {
    let mut s = started("/r");
    let n: u64 = 2000;
    for i in 0..n {
        s.aggregate_file(FileIdentity(1000 + i), 3, &vec![FileIdentity(ROOT_ID)]);
    }
    s.finish();
    let p = s.progress();
    assert_eq!(p.searched, n);
    assert_eq!(p.total_bytes, 3 * n);
    assert_eq!(s.lookup_size(FileIdentity(ROOT_ID)), Some(3 * n));
}

#[test]
fn aggregation_order_does_not_change_the_ledger() {
    let mut a = started("/r");
    a.aggregate_file(FileIdentity(10), 100, &vec![FileIdentity(ROOT_ID)]);
    a.aggregate_file(FileIdentity(11), 200, &vec![FileIdentity(SUB_ID), FileIdentity(ROOT_ID)]);
    let mut b = started("/r");
    b.aggregate_file(FileIdentity(11), 200, &vec![FileIdentity(SUB_ID), FileIdentity(ROOT_ID)]);
    b.aggregate_file(FileIdentity(10), 100, &vec![FileIdentity(ROOT_ID)]);
    for id in [ROOT_ID, SUB_ID, 10, 11] {
        assert_eq!(a.lookup_size(FileIdentity(id)), b.lookup_size(FileIdentity(id)));
    }
    let pa = a.progress();
    let pb = b.progress();
    assert_eq!(pa.searched, pb.searched);
    assert_eq!(pa.total_bytes, pb.total_bytes);
}

#[test]
fn empty_ancestor_chain_records_the_file_alone() {
    let mut s = started("/r");
    s.aggregate_file(FileIdentity(5), 42, &vec![]);
    s.finish();
    assert_eq!(s.lookup_size(FileIdentity(5)), Some(42));
    let p = s.progress();
    assert_eq!(p.searched, 1);
    assert_eq!(p.total_bytes, 42);
}

#[test]
fn ledger_overwrite_and_increment() {
    let mut l = SizeLedger::new();
    assert_eq!(l.lookup(FileIdentity(3)), None);
    l.overwrite(FileIdentity(3), 10);
    assert_eq!(l.lookup(FileIdentity(3)), Some(10));
    l.ensure_and_add(FileIdentity(3), 5);
    assert_eq!(l.lookup(FileIdentity(3)), Some(15));
    l.ensure_and_add(FileIdentity(4), 7);
    assert_eq!(l.lookup(FileIdentity(4)), Some(7));
    l.overwrite(FileIdentity(3), 2);
    assert_eq!(l.lookup(FileIdentity(3)), Some(2));
}

#[test]
fn ledger_increment_saturates() {
    let mut l = SizeLedger::new();
    l.overwrite(FileIdentity(1), u64::MAX - 1);
    l.ensure_and_add(FileIdentity(1), 5);
    assert_eq!(l.lookup(FileIdentity(1)), Some(u64::MAX));
}

#[test]
fn saturating_addition_values() {
    assert_eq!(sat_add(2, 3), 5);
    assert_eq!(sat_add(u64::MAX, 1), u64::MAX);
    assert_eq!(sat_add(u64::MAX - 1, 1), u64::MAX);
    assert_eq!(sat_add(0, 0), 0);
}

#[test]
fn identities_compare_by_object_number() {
    assert_eq!(FileIdentity(3), FileIdentity(3));
    assert_ne!(FileIdentity(3), FileIdentity(4));
}

#[test]
fn options_hold_the_root_path() {
    let o = Opt { root: "/data".to_string() };
    assert_eq!(o.root, "/data");
    let s = Search::new(o.root);
    assert_eq!(s.root, "/data");
}

#[test]
fn progress_snapshot_is_a_plain_value() {
    let p = Progress { searched: 4, total_bytes: 9 };
    let q = p;
    assert_eq!(q.searched, 4);
    assert_eq!(q.total_bytes, 9);
}
