use keyvaluestore::entry::Entry;
use keyvaluestore::store::Store;

#[test]
fn new_store_is_empty_and_keeps_its_configuration() {
    let s = Store::new("read".to_string(), "write".to_string(), true);
    assert_eq!(s.read_token(), "read");
    assert_eq!(s.write_token(), "write");
    assert!(s.tracks_modified());
    assert_eq!(s.get("anything"), None);
    assert_eq!(s.get(""), None);
    let t = Store::new("a".to_string(), "b".to_string(), false);
    assert!(!t.tracks_modified());
}

#[test]
fn get_returns_what_put_at_stored() {
    let mut s = Store::new("r".to_string(), "w".to_string(), true);
    s.put_at("k".to_string(), "v".to_string(), Some(42));
    assert_eq!(s.get("k"), Some(Entry { value: "v".to_string(), modified_at: Some(42) }));
    assert_eq!(s.get("other"), None);
}

#[test]
fn put_at_replaces_the_whole_entry() {
    let mut s = Store::new("r".to_string(), "w".to_string(), true);
    s.put_at("k".to_string(), "v1".to_string(), Some(10));
    s.put_at("k".to_string(), "v2".to_string(), Some(20));
    assert_eq!(s.get("k"), Some(Entry::new("v2".to_string(), Some(20))));
    s.put_at("k".to_string(), "v3".to_string(), None);
    assert_eq!(s.get("k"), Some(Entry::new("v3".to_string(), None)));
}

#[test]
fn put_at_leaves_other_keys_and_the_configuration() {
    let mut s = Store::new("r".to_string(), "w".to_string(), true);
    s.put_at("a".to_string(), "1".to_string(), Some(1));
    s.put_at("b".to_string(), "2".to_string(), Some(2));
    assert_eq!(s.get("a"), Some(Entry::new("1".to_string(), Some(1))));
    assert_eq!(s.get("b"), Some(Entry::new("2".to_string(), Some(2))));
    assert_eq!(s.read_token(), "r");
    assert_eq!(s.write_token(), "w");
    assert!(s.tracks_modified());
}

#[test]
fn untracked_store_records_no_stamp() {
    let mut s = Store::new("r".to_string(), "w".to_string(), false);
    s.put_at("k".to_string(), "v".to_string(), Some(42));
    assert_eq!(s.get("k"), Some(Entry::new("v".to_string(), None)));
    s.put("k".to_string(), "w".to_string());
    assert_eq!(s.get("k"), Some(Entry::new("w".to_string(), None)));
}

#[test]
fn stamps_follow_the_clock_readings() {
    let mut s = Store::new("r".to_string(), "w".to_string(), true);
    let mut last = 0;
    for now in [5u64, 5, 6, 100, 100, 4000] {
        s.put_at("k".to_string(), now.to_string(), Some(now));
        let stamp = s.get("k").unwrap().modified_at.unwrap();
        assert_eq!(stamp, now);
        assert!(stamp >= last);
        last = stamp;
    }
}

#[test]
fn put_stamps_with_a_current_clock_reading() {
    let mut s = Store::new("r".to_string(), "w".to_string(), true);
    let before = std::time::SystemTime::now()
        .duration_since(std::time::UNIX_EPOCH)
        .unwrap()
        .as_secs();
    s.put("k".to_string(), "v".to_string());
    let first = s.get("k").unwrap();
    s.put("k".to_string(), "v2".to_string());
    let second = s.get("k").unwrap();
    let after = std::time::SystemTime::now()
        .duration_since(std::time::UNIX_EPOCH)
        .unwrap()
        .as_secs();
    assert_eq!(first.value, "v");
    assert_eq!(second.value, "v2");
    let first_stamp = first.modified_at.unwrap();
    let second_stamp = second.modified_at.unwrap();
    assert!(before <= first_stamp && first_stamp <= after);
    assert!(before <= second_stamp && second_stamp <= after);
}

#[test]
fn a_copy_is_not_reached_by_later_writes() {
    let mut s = Store::new("r".to_string(), "w".to_string(), true);
    s.put_at("k".to_string(), "old".to_string(), Some(1));
    let copy = s.get("k").unwrap();
    s.put_at("k".to_string(), "new".to_string(), Some(2));
    assert_eq!(copy, Entry::new("old".to_string(), Some(1)));
    assert_eq!(copy.clone(), copy);
    assert_eq!(s.get("k").unwrap(), Entry::new("new".to_string(), Some(2)));
}

#[test]
fn many_keys() {
    let mut s = Store::new("r".to_string(), "w".to_string(), false);
    for i in 0..500u32 {
        s.put_at(format!("key{}", i), format!("value{}", i), None);
    }
    for i in 0..500u32 {
        assert_eq!(s.get(&format!("key{}", i)).unwrap().value, format!("value{}", i));
    }
    assert_eq!(s.get("key500"), None);
}
