use truinlag::mirror::DBMirror;

#[test]
fn an_added_entry_can_be_read() {
    let mut m: DBMirror<String> = DBMirror::new();
    assert!(m.is_empty());
    let a = m.add("a".to_string());
    let b = m.add("b".to_string());
    assert_eq!((a, b), (0, 1));
    assert_eq!(m.get(a).unwrap(), "a");
    assert_eq!(m.get(b).unwrap(), "b");
    assert_eq!(m.get(2), None);
    assert_eq!(m.count(), 2);
}

#[test]
fn adding_takes_the_first_free_slot() {
    let mut m = DBMirror::from_loaded(vec![(2u64, 20u32), (0, 0)]);
    assert_eq!(m.slots(), 3);
    assert_eq!(m.count(), 2);
    assert_eq!(m.get(1), None);
    let id = m.add(10);
    assert_eq!(id, 1);
    assert_eq!(m.add(30), 3);
}

#[test]
fn a_loaded_mirror_has_at_least_one_slot() {
    let m: DBMirror<u32> = DBMirror::from_loaded(vec![]);
    assert_eq!(m.slots(), 1);
    assert_eq!(m.count(), 0);
    assert_eq!(m.count(), m.get_all().len());
    assert_eq!(m.get(0), None);
}

#[test]
fn loaded_entries_are_unchanged_and_not_saved_again() {
    let mut m = DBMirror::from_loaded(vec![(0u64, 5u32), (1, 6)]);
    assert!(m.extract_changes().is_empty());
    *m.get_mut(1).unwrap() = 7;
    let changes = m.extract_changes();
    assert_eq!(changes.len(), 1);
    assert_eq!((changes[0].id, changes[0].contents), (1, 7));
    assert!(m.extract_changes().is_empty());
}

#[test]
fn deletion_goes_through_its_stages() {
    let mut m = DBMirror::from_loaded(vec![(0u64, 5u32), (1, 6)]);
    assert_eq!(m.delete(0), Ok(()));
    assert_eq!(m.get(0), None);
    assert_eq!(m.delete(0), Err(()));
    assert_eq!(m.delete(9), Err(()));
    assert_eq!(m.extract_deletions(), vec![0]);
    assert_eq!(m.extract_deletions(), Vec::<u64>::new());
    assert_eq!(m.add(8), 2);
    m.clear_pending_deletions();
    assert_eq!(m.add(9), 0);
    assert_eq!(m.get(0), Some(&9));
}

#[test]
fn delete_all_hides_everything() {
    let mut m = DBMirror::from_loaded(vec![(0u64, 1u32), (1, 2), (3, 4)]);
    m.delete_all();
    assert_eq!(m.live_ids(), Vec::<u64>::new());
    assert!(m.get_all().is_empty());
    assert_eq!(m.extract_deletions(), vec![0, 1, 3]);
}

#[test]
fn live_ids_and_get_all_are_in_id_order() {
    let mut m = DBMirror::new();
    for x in [10u32, 11, 12, 13] {
        m.add(x);
    }
    m.delete(1).unwrap();
    assert_eq!(m.live_ids(), vec![0, 2, 3]);
    let all: Vec<(u64, u32)> = m.get_all().iter().map(|e| (e.id, *e.contents)).collect();
    assert_eq!(all, vec![(0, 10), (2, 12), (3, 13)]);
}

#[test]
fn find_returns_the_first_match() {
    let mut m = DBMirror::new();
    for x in [3u32, 8, 9, 8] {
        m.add(x);
    }
    let e = m.find(|x| *x == 8).unwrap();
    assert_eq!(e.id, 1);
    assert!(m.find(|x| *x == 4).is_none());
    assert!(m.any(|x| *x > 8));
    assert!(!m.any(|x| *x > 9));
}

#[test]
fn find_and_count_skip_deleted_entries() {
    let mut m = DBMirror::new();
    for x in [8u32, 8, 9] {
        m.add(x);
    }
    m.delete(0).unwrap();
    assert_eq!(m.find(|x| *x == 8).unwrap().id, 1);
    assert_eq!(m.count(), 2);
    assert_eq!(m.count(), m.get_all().len());
    m.delete(1).unwrap();
    assert!(m.find(|x| *x == 8).is_none());
    assert_eq!(m.count(), 1);
}

#[test]
fn an_added_entry_is_among_the_next_changes() {
    let mut m = DBMirror::from_loaded(vec![(0u64, "x".to_string())]);
    assert!(m.extract_changes().is_empty());
    let id = m.add("y".to_string());
    assert_eq!(id, 1);
    let changes = m.extract_changes();
    assert_eq!(changes.len(), 1);
    assert_eq!(changes[0].id, 1);
    assert_eq!(changes[0].contents, "y");
    assert!(m.extract_changes().is_empty());
}

#[test]
fn count_is_the_number_of_entries_listed() {
    let mut m = DBMirror::from_loaded(vec![(0u64, 1u32), (3, 4)]);
    assert_eq!(m.count(), m.get_all().len());
    m.add(9);
    m.delete(0).unwrap();
    assert_eq!(m.count(), 2);
    assert_eq!(m.count(), m.get_all().len());
}
