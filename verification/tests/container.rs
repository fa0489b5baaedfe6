use lise::container::FreeList;

#[test]
fn new_list_is_empty() {
    let list: FreeList<u32> = FreeList::new();
    assert_eq!(list.as_slice().len(), 0);
}

#[test]
fn with_capacity_starts_all_free() {
    let list: FreeList<u32> = FreeList::with_capacity(4);
    assert_eq!(list.as_slice().len(), 4);
    assert!(list.as_slice().iter().all(|s| s.is_none()));
}

#[test]
fn push_takes_lowest_free_slot() {
    let mut list: FreeList<u32> = FreeList::with_capacity(3);
    assert_eq!(list.push_first(10), 0);
    assert_eq!(list.push_first(20), 1);
    assert_eq!(list.as_slice()[0], Some(10));
    assert_eq!(list.as_slice()[1], Some(20));
    assert_eq!(list.as_slice()[2], None);
}

#[test]
fn push_reuses_tombstoned_slot() {
    let mut list: FreeList<&str> = FreeList::with_capacity(3);
    list.push_first("a");
    list.push_first("b");
    list.push_first("c");
    list.as_slice_mut()[1] = None;
    assert_eq!(list.push_first("d"), 1);
    assert_eq!(list.as_slice()[0], Some("a"));
    assert_eq!(list.as_slice()[1], Some("d"));
    assert_eq!(list.as_slice()[2], Some("c"));
}

#[test]
fn push_grows_when_full() {
    let mut list: FreeList<u32> = FreeList::new();
    // Growth sequence of the capacity: 0, 1, 2, 3, 4, 6.
    assert_eq!(list.push_first(0), 0);
    assert_eq!(list.as_slice().len(), 1);
    assert_eq!(list.push_first(1), 1);
    assert_eq!(list.as_slice().len(), 2);
    assert_eq!(list.push_first(2), 2);
    assert_eq!(list.as_slice().len(), 3);
    assert_eq!(list.push_first(3), 3);
    assert_eq!(list.as_slice().len(), 4);
    assert_eq!(list.push_first(4), 4);
    assert_eq!(list.as_slice().len(), 6);
    assert_eq!(list.as_slice()[5], None);
    for i in 0..5 {
        assert_eq!(list.as_slice()[i], Some(i as u32));
    }
}

#[test]
fn stable_indices_across_growth() {
    let mut list: FreeList<String> = FreeList::new();
    let a = list.push_first(String::from("alpha"));
    let b = list.push_first(String::from("beta"));
    for i in 0..20 {
        list.push_first(format!("n{}", i));
    }
    assert_eq!(list.as_slice()[a], Some(String::from("alpha")));
    assert_eq!(list.as_slice()[b], Some(String::from("beta")));
}
