use database_metrics::error::Error;
use database_metrics::key_index::{decode_index, encode_index, fetched_value, sentinel_key, KeyIndex};
use database_metrics::leveldb::LevelDB;
use database_metrics::rocksdb::{Action, Event, RocksDB};

fn depth_record_json(start_time: f64, units: f64) -> Vec<u8> {
    let mut m = serde_json::Map::new();
    let fields = [
        ("startTime", start_time),
        ("endTime", 1700003600.0),
        ("assetDepth", 100.0),
        ("runeDepth", 200.0),
        ("assetPrice", 2.0),
        ("assetPriceUSD", 4.0),
        ("liquidityUnits", 10.0),
        ("membersCount", 5.0),
        ("synthUnits", 0.0),
        ("synthSupply", 0.0),
        ("units", units),
        ("luvi", 1.0),
    ];
    for (name, v) in fields.iter() {
        m.insert(name.to_string(), serde_json::Value::from(*v));
    }
    serde_json::to_vec(&serde_json::Value::Object(m)).unwrap()
}

fn key_of(start_time: f64) -> Vec<u8> {
    serde_json::to_vec(&start_time).unwrap()
}

#[test]
fn one_record_round_trips_through_the_store() {
    let mut db = LevelDB::init_in_memory("one_record").unwrap();
    let key = key_of(1700000000.0);
    assert_eq!(key, b"1700000000.0".to_vec());
    let val = depth_record_json(1700000000.0, 10.0);
    db.insert_data(key.clone(), val.clone()).unwrap();

    let keys = db.enumerate().unwrap();
    assert_eq!(keys, vec![key.clone()]);

    let stored = db.get_value(&key).unwrap();
    assert_eq!(stored, val);
    let decoded: serde_json::Value = serde_json::from_slice(&stored).unwrap();
    let inserted: serde_json::Value = serde_json::from_slice(&val).unwrap();
    assert_eq!(decoded, inserted);
    assert_eq!(decoded["startTime"].as_f64(), Some(1700000000.0));
    assert_eq!(decoded["luvi"].as_f64(), Some(1.0));
}

#[test]
fn sequential_inserts_are_enumerated_in_order() {
    let mut db = LevelDB::init_in_memory("sequential").unwrap();
    let starts = [1700007200.0, 1700000000.0, 1700003600.0, 1700010800.0];
    for s in starts.iter() {
        db.insert_data(key_of(*s), depth_record_json(*s, 1.0)).unwrap();
    }
    let keys = db.enumerate().unwrap();
    assert_eq!(keys.len(), starts.len());
    for (k, s) in keys.iter().zip(starts.iter()) {
        assert_eq!(*k, key_of(*s));
    }
}

#[test]
fn batch_insert_indexes_every_key_in_batch_order() {
    let mut db = LevelDB::init_in_memory("batch").unwrap();
    let entries: Vec<(Vec<u8>, Vec<u8>)> = (0..5)
        .map(|i| {
            let s = 1700000000.0 + 3600.0 * (i as f64);
            (key_of(s), depth_record_json(s, 2.0))
        })
        .collect();
    db.insert_batch(&entries).unwrap();
    let keys = db.enumerate().unwrap();
    let expected: Vec<Vec<u8>> = entries.iter().map(|e| e.0.clone()).collect();
    assert_eq!(keys, expected);
    let read = db.read_data().unwrap();
    assert_eq!(read, entries);
}

#[test]
fn empty_batch_changes_nothing() {
    let mut db = LevelDB::init_in_memory("empty_batch").unwrap();
    db.insert_batch(&vec![]).unwrap();
    assert_eq!(db.enumerate().unwrap(), Vec::<Vec<u8>>::new());
    assert_eq!(db.read_data().unwrap(), vec![]);
}

#[test]
fn read_data_hands_back_each_key_with_its_value() {
    let mut db = LevelDB::init_in_memory("read_pairs").unwrap();
    let key = key_of(1700000000.0);
    let val = depth_record_json(1700000000.0, 10.0);
    db.insert_data(key.clone(), val.clone()).unwrap();
    assert_eq!(db.read_data().unwrap(), vec![(key, val)]);
}

#[test]
fn equal_start_times_overwrite_the_value_but_not_the_index() {
    let mut db = LevelDB::init_in_memory("duplicates").unwrap();
    let key = key_of(1700000000.0);
    let first = depth_record_json(1700000000.0, 10.0);
    let second = depth_record_json(1700000000.0, 20.0);
    db.insert_data(key.clone(), first).unwrap();
    db.insert_data(key.clone(), second.clone()).unwrap();

    let keys = db.enumerate().unwrap();
    assert_eq!(keys, vec![key.clone(), key.clone()]);
    assert_eq!(db.get_value(&key), Some(second));
}

#[test]
fn empty_store_has_an_empty_index() {
    let mut db = LevelDB::init_in_memory("empty").unwrap();
    assert_eq!(db.enumerate().unwrap(), Vec::<Vec<u8>>::new());
    assert_eq!(db.read_data().unwrap(), vec![]);
    assert_eq!(db.get_value(&key_of(1.0)), None);
}

#[test]
fn index_is_stored_as_compact_json() {
    let keys = vec![b"1".to_vec(), b"23".to_vec(), vec![]];
    let bytes = encode_index(&keys).unwrap();
    assert_eq!(bytes, b"[[49],[50,51],[]]".to_vec());
    assert_eq!(encode_index(&vec![]).unwrap(), b"[]".to_vec());
    assert_eq!(decode_index(Some(&bytes)).unwrap(), keys);
    assert!(decode_index(Some(&vec![255u8, 0, 200])).is_err());
}

#[test]
fn index_bytes_written_to_the_store() {
    let mut db = LevelDB::init_in_memory("written").unwrap();
    db.insert_data(b"7".to_vec(), b"v".to_vec()).unwrap();
    db.insert_data(b"8".to_vec(), b"w".to_vec()).unwrap();
    let raw = db.get_value(&b"7".to_vec());
    assert_eq!(raw, Some(b"v".to_vec()));
    assert_eq!(sentinel_key(), b"_keys_index".to_vec());
    assert_eq!(db.enumerate().unwrap(), vec![b"7".to_vec(), b"8".to_vec()]);
}

#[test]
fn absent_index_entry_decodes_to_the_empty_index() {
    assert_eq!(decode_index(None).unwrap(), Vec::<Vec<u8>>::new());
}

#[test]
fn malformed_index_entry_is_a_read_error() {
    let bad = b"not an index".to_vec();
    assert!(matches!(decode_index(Some(&bad)), Err(Error::DataBaseReadFailed(_))));
    let empty: Vec<u8> = vec![];
    assert!(matches!(decode_index(Some(&empty)), Err(Error::DataBaseReadFailed(_))));
    let wrong_shape = b"{\"a\":1}".to_vec();
    assert!(matches!(decode_index(Some(&wrong_shape)), Err(Error::DataBaseReadFailed(_))));
}

#[test]
fn key_index_manager_appends_and_records_writes() {
    let mut index = KeyIndex::new();
    assert!(!index.is_loaded());
    let stored = b"[[49]]".to_vec();
    let (keys, bytes) = index.appended(Some(&stored), &b"2".to_vec()).unwrap();
    assert_eq!(keys, vec![b"1".to_vec(), b"2".to_vec()]);
    assert_eq!(bytes, b"[[49],[50]]".to_vec());
    index.record_write(keys.clone(), true);
    assert!(index.is_loaded());
    assert_eq!(index.current(None).unwrap(), keys);
    let (more, _) = index.appended(None, &b"3".to_vec()).unwrap();
    assert_eq!(more.len(), 3);
    index.record_write(more, false);
    assert!(!index.is_loaded());
    assert!(matches!(
        index.appended(Some(&b"[".to_vec()), &b"4".to_vec()),
        Err(Error::DataBaseReadFailed(_))
    ));
}

#[test]
fn rocksdb_adapter_reads_the_index_then_writes_it() {
    let mut r = RocksDB::init();
    assert!(r.is_idle());
    assert!(!r.index_known());
    assert!(matches!(r.begin_insert(b"9".to_vec()), Action::PutData));
    assert!(matches!(r.step(Event::DataWritten(Ok(()))), Action::ReadIndex));
    match r.step(Event::IndexRead(Ok(Some(b"[[56]]".to_vec())))) {
        Action::PutIndex(bytes) => assert_eq!(bytes, b"[[56],[57]]".to_vec()),
        _ => panic!("expected the index write"),
    }
    assert!(matches!(r.step(Event::IndexWritten(Ok(()))), Action::Finish(Ok(()))));
    assert!(r.is_idle());
    assert!(r.index_known());
    assert_eq!(r.keys_to_read(None).unwrap(), vec![b"8".to_vec(), b"9".to_vec()]);

    assert!(matches!(r.begin_insert(b"7".to_vec()), Action::PutData));
    match r.step(Event::DataWritten(Ok(()))) {
        Action::PutIndex(bytes) => assert_eq!(bytes, b"[[56],[57],[55]]".to_vec()),
        _ => panic!("a known index needs no read"),
    }
    assert!(matches!(
        r.step(Event::IndexWritten(Err("disk full".to_string()))),
        Action::Finish(Err(Error::DataBaseInsertionFailed(_)))
    ));
    assert!(!r.index_known());
}

#[test]
fn rocksdb_adapter_ends_an_insert_on_failure() {
    let mut r = RocksDB::init();
    r.begin_insert(b"1".to_vec());
    assert!(matches!(
        r.step(Event::DataWritten(Err("io".to_string()))),
        Action::Finish(Err(Error::DataBaseInsertionFailed(_)))
    ));
    assert!(r.is_idle());
    r.begin_insert(b"1".to_vec());
    r.step(Event::DataWritten(Ok(())));
    assert!(matches!(
        r.step(Event::IndexRead(Ok(Some(b"garbage".to_vec())))),
        Action::Finish(Err(Error::DataBaseReadFailed(_)))
    ));
    r.begin_insert(b"1".to_vec());
    assert!(matches!(
        r.step(Event::IndexWritten(Ok(()))),
        Action::Finish(Err(Error::OperationFailed(_)))
    ));
    r.begin_insert(b"1".to_vec());
    r.step(Event::DataWritten(Ok(())));
    match r.step(Event::IndexRead(Ok(None))) {
        Action::PutIndex(bytes) => assert_eq!(bytes, b"[[49]]".to_vec()),
        _ => panic!("no index entry is the empty index"),
    }
}

#[test]
fn fetched_values_must_be_present_and_non_empty() {
    assert_eq!(fetched_value(Some(b"x".to_vec())).unwrap(), b"x".to_vec());
    assert!(matches!(fetched_value(None), Err(Error::DataBaseReadFailed(_))));
    assert!(matches!(fetched_value(Some(vec![])), Err(Error::DataBaseReadFailed(_))));
}
