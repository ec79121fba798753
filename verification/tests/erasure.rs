use table_store::erase::{StoredValue, TableKey, TableValue};
use table_store::storage::TableEntry;

#[test]
fn erased_value_remembers_its_type() {
    let sv = StoredValue::erase(&5u64);
    assert!(sv.is::<u64>());
    assert!(!sv.is::<String>());
}

#[test]
fn downcast_ref_checks_the_tag() {
    let sv = StoredValue::erase(&5u64);
    assert_eq!(sv.downcast_ref::<u64>(), Some(5u64));
    assert_eq!(sv.downcast_ref::<String>(), None);
}

#[test]
fn downcast_mut_writes_iff_the_tag_matches() {
    let mut sv = StoredValue::erase(&5u64);
    assert!(!sv.downcast_mut(&String::from("five")));
    assert_eq!(sv.downcast_ref::<u64>(), Some(5u64));
    assert!(sv.downcast_mut(&7u64));
    assert_eq!(sv.downcast_ref::<u64>(), Some(7u64));
}

#[test]
fn entry_keys_pair_table_id_with_encoded_key() {
    let e = TableEntry::from_key(0u64, &());
    assert_eq!(e.id, 0u64);
    assert_eq!(e.key, b"null".to_vec());

    let e = TableEntry::from_key(3u64, &7u64);
    assert_eq!(e.id, 3u64);
    assert_eq!(e.key, b"7".to_vec());

    let e = TableEntry::from_key(3u64, &String::from("k"));
    assert_eq!(e.key, b"\"k\"".to_vec());
}

#[test]
fn key_encodings_are_canonical() {
    assert_eq!(<() as TableKey>::encode_key(&()), b"null".to_vec());
    assert_eq!(<u64 as TableKey>::encode_key(&90u64), b"90".to_vec());
    assert_eq!(
        <String as TableKey>::encode_key(&String::from("a b")),
        b"\"a b\"".to_vec()
    );
}
