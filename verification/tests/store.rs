use table_store::erase::TableValue;
use table_store::storage::{Storage, StorageError, TableId};

#[test]
fn round_trip_u64() {
    let mut store = Storage::new();
    let id = TableId::<u64, u64>::new(1);
    store.put_table_entry(&id, 5u64, 42u64);
    assert_eq!(store.borrow_table_entry(&id, &5u64).unwrap(), 42u64);
}

#[test]
fn round_trip_string() {
    let mut store = Storage::new();
    let id = TableId::<String, String>::new(4);
    store.put_table_entry(&id, String::from("name"), String::from("ada"));
    assert_eq!(
        store.borrow_table_entry(&id, &String::from("name")).unwrap(),
        String::from("ada")
    );
}

#[test]
fn overwrite_second_put_wins() {
    let mut store = Storage::new();
    let id = TableId::<u64, u64>::new(1);
    store.put_table_entry(&id, 9u64, 100u64);
    store.put_table_entry(&id, 9u64, 200u64);
    assert_eq!(store.borrow_table_entry(&id, &9u64).unwrap(), 200u64);
}

#[test]
fn type_isolation_same_key_bytes() {
    // The keys 7u64 in both tables encode to the same bytes; the distinct
    // numeric identifiers keep the entries apart.
    let mut store = Storage::new();
    let numbers = TableId::<u64, u64>::new(1);
    let names = TableId::<u64, String>::new(2);
    store.put_table_entry(&numbers, 7u64, 555u64);
    store.put_table_entry(&names, 7u64, String::from("seven"));
    assert_eq!(store.borrow_table_entry(&numbers, &7u64).unwrap(), 555u64);
    assert_eq!(
        store.borrow_table_entry(&names, &7u64).unwrap(),
        String::from("seven")
    );
}

#[test]
fn contains_sees_cache_and_backing_store() {
    let mut store = Storage::new();
    let id = TableId::<u64, u64>::new(3);
    assert_eq!(store.contains_table_entry(&id, &1u64).unwrap(), false);
    store.put_table_entry(&id, 1u64, 10u64);
    assert_eq!(store.contains_table_entry(&id, &1u64).unwrap(), true);
    store.clear_live_cache();
    // Only the backing store holds the entry now; it still counts.
    assert_eq!(store.contains_table_entry(&id, &1u64).unwrap(), true);
    assert_eq!(store.contains_table_entry(&id, &2u64).unwrap(), false);
}

#[test]
fn lazy_hydrate_after_cold_start() {
    let mut store = Storage::new();
    let id = TableId::<String, u64>::new(8);
    store.put_table_entry(&id, String::from("k"), 77u64);
    store.clear_live_cache();
    assert_eq!(store.borrow_table_entry(&id, &String::from("k")).unwrap(), 77u64);
    // Once revived, the entry stays resident.
    assert_eq!(store.borrow_table_entry(&id, &String::from("k")).unwrap(), 77u64);
}

#[test]
fn mutation_does_not_propagate_to_backing_store() {
    let mut store = Storage::new();
    let id = TableId::<u64, u64>::new(6);
    store.put_table_entry(&id, 0u64, 3u64);

    let mut v = store.borrow_table_entry_mut(&id, &0u64).unwrap();
    v = v + 96;
    store.put_cached_table_entry(&id, &0u64, v);

    // A warm borrow sees the mutation.
    assert_eq!(store.borrow_table_entry(&id, &0u64).unwrap(), 99u64);

    // A cold borrow is revived from the backing store, which the
    // cache-only write never touched.
    store.clear_live_cache();
    assert_eq!(store.borrow_table_entry(&id, &0u64).unwrap(), 3u64);

    // An explicit put writes through; now the mutation survives the cold
    // start too.
    store.put_table_entry(&id, 0u64, 99u64);
    store.clear_live_cache();
    assert_eq!(store.borrow_table_entry(&id, &0u64).unwrap(), 99u64);
}

#[test]
fn counter_scenario() {
    // Table id 0, key (), value 3u64: borrow mutably, decrement, and a
    // subsequent borrow yields 2.
    let mut store = Storage::new();
    let counter_table = TableId::<(), u64>::new(0);
    store.put_table_entry(&counter_table, (), 3u64);

    let mut counter = store.borrow_table_entry_mut(&counter_table, &()).unwrap();
    assert_eq!(counter, 3u64);
    if counter > 0 {
        counter -= 1;
    }
    store.put_cached_table_entry(&counter_table, &(), counter);

    assert_eq!(store.borrow_table_entry(&counter_table, &()).unwrap(), 2u64);
}

#[test]
fn decode_error_on_mistyped_backing_bytes() {
    // A table written as String and revived as u64 under the same numeric
    // identifier: the backing bytes do not parse as a number.
    let mut store = Storage::new();
    let as_string = TableId::<(), String>::new(9);
    store.put_table_entry(&as_string, (), String::from("abc"));
    store.clear_live_cache();
    let as_number = TableId::<(), u64>::new(9);
    let r = store.borrow_table_entry(&as_number, &());
    assert_eq!(r, Err(StorageError::Decode));

    // The failed borrow left both maps as they were: the rightly typed
    // handle still revives the entry from the backing store.
    assert_eq!(
        store.borrow_table_entry(&as_string, &()).unwrap(),
        String::from("abc")
    );
}

#[test]
fn value_codec_is_honest() {
    // The canonical encoding of a number is its decimal digits, and the
    // decoder inverts the encoder rather than echoing bytes back.
    assert_eq!(<u64 as TableValue>::to_bytes(&12345u64), b"12345".to_vec());
    assert_eq!(<u64 as TableValue>::from_bytes(b"7"), Some(7u64));
    assert_eq!(<u64 as TableValue>::from_bytes(b"not a number"), None);
    let encoded = <String as TableValue>::to_bytes(&String::from("hi \"there\""));
    assert_eq!(
        <String as TableValue>::from_bytes(&encoded),
        Some(String::from("hi \"there\""))
    );
    assert_eq!(<String as TableValue>::from_bytes(b"17"), None);
}
