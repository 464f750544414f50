//! Ordered key-value engine A: an in-process LevelDB store. A data write puts the
//! record's key and value, then appends the key to the index kept under the
//! reserved key; reading everything goes through that index.
use vstd::prelude::*;

use crate::error::{Error, Result};
use crate::key_index::{
    decoded_index, fetched_value, index_text, keys_of, lemma_bytes_deep_view, parsed_index,
    sentinel, sentinel_key, KeyIndex,
};

verus! {

#[verifier::external_type_specification]
#[verifier::external_body]
pub struct ExLevelDb(rusty_leveldb::DB);

/// The entries of a LevelDB store: for each key, what `get` answers at the
/// store's last sequence number, read errors set aside.
pub uninterp spec fn stored(db: rusty_leveldb::DB) -> Map<Seq<u8>, Seq<u8>>;

/// Whether a write through this handle has failed. DB::write puts a batch into
/// the memtable before it appends it to the log, and a failed flush of the
/// memtable may drop it; after a failed write, neither later writes nor reads
/// (which may start a compaction) keep the entries as they were.
pub uninterp spec fn write_failed(db: rusty_leveldb::DB) -> bool;

/// A store without entries.
pub open spec fn no_entries() -> Map<Seq<u8>, Seq<u8>> {
    Map::empty()
}

/// Relies on rusty_leveldb::DB::open with the default options: opens the store
/// in the directory `path`, creating it if missing. No write has gone through
/// a new handle.
#[verifier::external_body]
fn open_on_disk(path: &str) -> (r: core::result::Result<rusty_leveldb::DB, String>)
    ensures
        r is Ok ==> !write_failed(r->Ok_0),
{
    rusty_leveldb::DB::open(path, rusty_leveldb::Options::default()).map_err(|e| format!("{:?}", e))
}

/// Relies on rusty_leveldb::DB::open with rusty_leveldb::in_memory(), whose
/// environment is a new, empty in-memory file system: the store holds nothing.
#[verifier::external_body]
fn open_in_memory(name: &str) -> (r: core::result::Result<rusty_leveldb::DB, String>)
    ensures
        r is Ok ==> stored(r->Ok_0) == no_entries() && !write_failed(r->Ok_0),
{
    rusty_leveldb::DB::open(name, rusty_leveldb::in_memory()).map_err(|e| format!("{:?}", e))
}

/// Relies on rusty_leveldb::DB::put: as long as no write through the handle
/// has failed, a successful put maps the key to the value and changes nothing
/// else. A failed put says nothing of the entries.
#[verifier::external_body]
fn db_put(db: &mut rusty_leveldb::DB, k: &Vec<u8>, v: &Vec<u8>) -> (r: core::result::Result<
    (),
    String,
>)
    ensures
        r is Ok && !write_failed(*old(db)) ==> stored(*final(db)) == stored(*old(db)).insert(
            k@,
            v@,
        ) && !write_failed(*final(db)),
        r is Err ==> write_failed(*final(db)),
        write_failed(*old(db)) ==> write_failed(*final(db)),
{
    db.put(k, v).map_err(|e| format!("{:?}", e))
}

/// Relies on rusty_leveldb::DB::get: a value found is the one stored under the
/// key, and an absent key gives None. A failed read also gives None. As long
/// as no write has failed, reading leaves the entries as they are.
#[verifier::external_body]
fn db_get(db: &mut rusty_leveldb::DB, k: &Vec<u8>) -> (r: Option<Vec<u8>>)
    ensures
        !write_failed(*old(db)) ==> stored(*final(db)) == stored(*old(db)),
        write_failed(*final(db)) == write_failed(*old(db)),
        r matches Some(v) ==> stored(*old(db)).contains_key(k@) && stored(*old(db))[k@] == v@,
        !stored(*old(db)).contains_key(k@) ==> r is None,
{
    db.get(k)
}

/// Engine A's adapter: the store, the manager of its key index, and whether a
/// write through the store has failed.
pub struct LevelDB {
    db: rusty_leveldb::DB,
    index: KeyIndex,
    failed: bool,
}

impl LevelDB {
    /// Every entry of the store, the index entry included.
    pub closed spec fn store(&self) -> Map<Seq<u8>, Seq<u8>> {
        stored(self.db)
    }

    /// The data entries: the store without the index entry.
    pub open spec fn data(&self) -> Map<Seq<u8>, Seq<u8>> {
        self.store().remove(sentinel())
    }

    /// The index as the adapter last read or wrote it; None until then, after
    /// a write of it failed, and once any write has failed.
    pub closed spec fn keys(&self) -> Option<Seq<Seq<u8>>> {
        self.index@
    }

    /// Whether a write through the store has failed. From then on the entries
    /// are no longer known, and only the outcome of each call is stated.
    pub closed spec fn failed(&self) -> bool {
        self.failed
    }

    /// Whether the store's handle saw a failed write.
    pub closed spec fn handle_failed(&self) -> bool {
        write_failed(self.db)
    }

    /// The index entry of the store, if there is one.
    pub open spec fn index_entry(&self) -> Option<Seq<u8>> {
        if self.store().contains_key(sentinel()) {
            Some(self.store()[sentinel()])
        } else {
            None
        }
    }

    /// What the index entry of the store decodes to (no entry: the empty index).
    pub open spec fn persisted_index(&self) -> Option<Seq<Seq<u8>>> {
        decoded_index(self.index_entry())
    }

    /// A known index is the one that the store holds; the flag covers every
    /// failed write.
    pub open spec fn wf(&self) -> bool {
        &&& self.keys() matches Some(ks) ==> !self.failed() && self.store().contains_key(
            sentinel(),
        ) && parsed_index(self.store()[sentinel()]) == Some(ks)
        &&& !self.failed() ==> !self.handle_failed()
    }

    fn from_db(db: rusty_leveldb::DB) -> (r: LevelDB)
        requires
            !write_failed(db),
        ensures
            r.wf(),
            !r.failed(),
            r.keys() is None,
            r.store() == stored(db),
    {
        LevelDB { db, index: KeyIndex::new(), failed: false }
    }

    /// Opens (or creates) the store in `data/leveldb`.
    pub fn init() -> (r: Result<LevelDB>)
        ensures
            r matches Ok(l) ==> l.wf() && l.keys() is None && !l.failed(),
            r matches Err(e) ==> e is DataBaseConnectionFailed,
    {
        match open_on_disk("data/leveldb") {
            Ok(db) => Ok(LevelDB::from_db(db)),
            Err(e) => Err(Error::DataBaseConnectionFailed(e)),
        }
    }

    /// Opens a new store that lives in memory only, under the name `name`.
    pub fn init_in_memory(name: &str) -> (r: Result<LevelDB>)
        ensures
            r matches Ok(l) ==> l.wf() && l.keys() is None && !l.failed() && l.store()
                == no_entries(),
            r matches Err(e) ==> e is DataBaseConnectionFailed,
    {
        match open_in_memory(name) {
            Ok(db) => Ok(LevelDB::from_db(db)),
            Err(e) => Err(Error::DataBaseConnectionFailed(e)),
        }
    }

    /// Reads the index entry, unless the index is known; what was read, if
    /// anything, is the entry (a failed read gives None).
    fn read_index_entry(&mut self) -> (r: Option<Vec<u8>>)
        requires
            old(self).wf(),
        ensures
            final(self).wf(),
            !old(self).failed() ==> final(self).store() == old(self).store(),
            final(self).keys() == old(self).keys(),
            final(self).failed() == old(self).failed(),
            old(self).keys() is Some ==> r is None,
            r matches Some(b) ==> old(self).index_entry() == Some(b@),
            old(self).index_entry() is None ==> r is None,
    {
        if self.index.is_loaded() {
            None
        } else {
            let s = sentinel_key();
            db_get(&mut self.db, &s)
        }
    }

    /// Every key of the index, in the order the keys were appended: the known
    /// index, else the one read from the store now. No index entry is the empty
    /// index; an entry that does not decode is a read error.
    pub fn enumerate(&mut self) -> (r: Result<Vec<Vec<u8>>>)
        requires
            old(self).wf(),
        ensures
            final(self).wf(),
            !old(self).failed() ==> final(self).store() == old(self).store(),
            final(self).keys() == old(self).keys(),
            final(self).failed() == old(self).failed(),
            final(self).keys() is Some ==> final(self).persisted_index() == final(self).keys(),
            old(self).keys() matches Some(ks) ==> (r matches Ok(v) && v.deep_view() == ks),
            // With no known index the entry is read from the store, and
            // rusty-leveldb answers a failed read as an absent key: then the
            // empty index comes back.
            old(self).keys() is None ==> (r matches Ok(v) ==> Some(v.deep_view())
                == old(self).persisted_index() || v.deep_view().len() == 0),
            r matches Err(e) ==> e is DataBaseReadFailed && old(self).keys() is None
                && old(self).persisted_index() is None,
            old(self).index_entry() is None ==> (r matches Ok(v) && v@.len() == 0),
    {
        let got = self.read_index_entry();
        let r = match &got {
            Some(b) => self.index.current(Some(b)),
            None => self.index.current(None),
        };
        proof {
            if r is Ok {
                assert(r->Ok_0.deep_view().len() == r->Ok_0@.len());
            }
        }
        r
    }

    /// Puts `val` under `key`, then appends `key` to the index and writes the
    /// index back. Keys are not deduplicated: putting a key again overwrites its
    /// value and appends it to the index once more. After a failed write the
    /// index is read from the store again for every insert.
    pub fn insert_data(&mut self, key: Vec<u8>, val: Vec<u8>) -> (r: Result<()>)
        requires
            old(self).wf(),
            key@ != sentinel(),
        ensures
            final(self).wf(),
            old(self).failed() ==> final(self).failed(),
            r is Ok ==> final(self).failed() == old(self).failed(),
            r is Ok && !old(self).failed() ==> {
                &&& final(self).keys() is Some
                &&& final(self).data() == old(self).data().insert(key@, val@)
                &&& final(self).store() == old(self).store().insert(key@, val@).insert(
                    sentinel(),
                    index_text(final(self).keys()->Some_0),
                )
                &&& final(self).persisted_index() == final(self).keys()
            },
            r is Ok && old(self).keys() is Some ==> final(self).keys() == Some(
                old(self).keys()->Some_0.push(key@),
            ),
            // With no known index the entry is read from the store, and
            // rusty-leveldb answers a failed read as an absent key: then the
            // append starts from the empty index.
            r is Ok && old(self).keys() is None && !old(self).failed() ==> final(self).keys()
                == Some(old(self).persisted_index()->Some_0.push(key@)) || final(self).keys()
                == Some(seq![key@]),
            r is Ok && !old(self).failed() && old(self).index_entry() is None ==> final(self).keys()
                == Some(seq![key@]),
            r matches Err(e) ==> (e is DataBaseInsertionFailed && final(self).failed()) || (
            e is DataBaseReadFailed && final(self).failed() == old(self).failed()),
            r matches Err(e) && e is DataBaseReadFailed ==> old(self).keys() is None && (!old(
                self,
            ).failed() ==> final(self).store() == old(self).store().insert(key@, val@) && old(
                self,
            ).persisted_index() is None),
    {
        if let Err(e) = db_put(&mut self.db, &key, &val) {
            self.failed = true;
            self.index = KeyIndex::new();
            return Err(Error::DataBaseInsertionFailed(e));
        }
        proof {
            if !old(self).failed() {
                assert(self.index_entry() == old(self).index_entry());
            }
        }
        let got = self.read_index_entry();
        let appended = match &got {
            Some(b) => self.index.appended(Some(b), &key),
            None => self.index.appended(None, &key),
        };
        let (keys, bytes) = match appended {
            Ok(p) => p,
            Err(e) => return Err(e),
        };
        proof {
            assert(Seq::<Seq<u8>>::empty().push(key@) =~= seq![key@]);
        }
        let s = sentinel_key();
        match db_put(&mut self.db, &s, &bytes) {
            Ok(()) => {
                let known = !self.failed;
                self.index.record_write(keys, known);
                proof {
                    if !old(self).failed() {
                        assert(self.data() =~= old(self).data().insert(key@, val@));
                    }
                }
                Ok(())
            },
            Err(e) => {
                self.index.record_write(keys, false);
                self.failed = true;
                Err(Error::DataBaseInsertionFailed(e))
            },
        }
    }

    /// The value stored under the data key `key`, fetched from the store.
    pub fn get_value(&mut self, key: &Vec<u8>) -> (r: Option<Vec<u8>>)
        requires
            old(self).wf(),
            key@ != sentinel(),
        ensures
            final(self).wf(),
            !old(self).failed() ==> final(self).store() == old(self).store(),
            final(self).keys() == old(self).keys(),
            final(self).failed() == old(self).failed(),
            r matches Some(v) ==> old(self).data().contains_key(key@) && old(self).data()[key@]
                == v@,
            !old(self).data().contains_key(key@) ==> r is None,
    {
        db_get(&mut self.db, key)
    }

    /// Reads every indexed key's value, one key at a time, in index order, and
    /// hands back each key with its value. A key whose fetch gives nothing, or
    /// an empty value, is a read error and ends the pass (see `fetched_value`).
    pub fn read_data(&mut self) -> (r: Result<Vec<(Vec<u8>, Vec<u8>)>>)
        requires
            old(self).wf(),
        ensures
            final(self).wf(),
            !old(self).failed() ==> final(self).store() == old(self).store(),
            final(self).keys() == old(self).keys(),
            final(self).failed() == old(self).failed(),
            r matches Ok(ps) ==> forall|i: int| 0 <= i < ps.len() ==> (#[trigger] ps[i]).1@.len() > 0,
            !old(self).failed() ==> (r matches Ok(ps) ==> forall|i: int|
                0 <= i < ps.len() ==> old(self).store().contains_key(#[trigger] ps[i].0@) && ps[i].1@
                    == old(self).store()[ps[i].0@]),
            old(self).keys() is Some ==> (r matches Ok(ps) ==> keys_of(ps@) == old(
                self,
            ).keys()->Some_0),
            old(self).keys() is None ==> (r matches Ok(ps) ==> Some(keys_of(ps@)) == old(
                self,
            ).persisted_index() || ps.len() == 0),
            old(self).index_entry() is None ==> (r matches Ok(ps) && ps.len() == 0),
            old(self).keys() matches Some(ks) && (exists|i: int|
                0 <= i < ks.len() && (!old(self).store().contains_key(#[trigger] ks[i]) || old(
                    self,
                ).store()[ks[i]].len() == 0)) ==> r is Err,
            r matches Err(e) ==> e is DataBaseReadFailed,
    {
        let keys = match self.enumerate() {
            Ok(k) => k,
            Err(e) => return Err(e),
        };
        let mut out: Vec<(Vec<u8>, Vec<u8>)> = Vec::new();
        let mut i: usize = 0;
        while i < keys.len()
            invariant
                self.wf(),
                !old(self).failed() ==> self.store() == old(self).store(),
                self.keys() == old(self).keys(),
                self.failed() == old(self).failed(),
                i <= keys.len(),
                old(self).index_entry() is None ==> keys.len() == 0,
                out.len() == i,
                forall|j: int|
                    0 <= j < i ==> (#[trigger] out@[j]).0@ == keys.deep_view()[j] && out@[j].1@.len()
                        > 0,
                !old(self).failed() ==> forall|j: int|
                    0 <= j < i ==> old(self).store().contains_key((#[trigger] out@[j]).0@)
                        && out@[j].1@ == old(self).store()[out@[j].0@],
            decreases keys.len() - i,
        {
            let k = keys[i].clone();
            proof {
                assert(vstd::std_specs::vec::vec_clone_trigger(keys[i as int], k));
                lemma_bytes_deep_view(&k);
                lemma_bytes_deep_view(&keys[i as int]);
            }
            let got = db_get(&mut self.db, &k);
            let v = match fetched_value(got) {
                Ok(v) => v,
                Err(e) => return Err(e),
            };
            out.push((k, v));
            i = i + 1;
        }
        proof {
            assert(keys_of(out@) =~= keys.deep_view());
        }
        Ok(out)
    }

    /// Inserts a batch of entries one at a time, in batch order, and stops at
    /// the first failure.
    pub fn insert_batch(&mut self, entries: &Vec<(Vec<u8>, Vec<u8>)>) -> (r: Result<()>)
        requires
            old(self).wf(),
            forall|i: int| 0 <= i < entries.len() ==> (#[trigger] entries[i]).0@ != sentinel(),
        ensures
            final(self).wf(),
            r is Ok ==> final(self).failed() == old(self).failed(),
            r is Ok && !old(self).failed() ==> final(self).data() == entries_applied(
                old(self).data(),
                entries@,
            ),
            r is Ok && old(self).keys() is Some ==> final(self).keys() == Some(
                old(self).keys()->Some_0 + keys_of(entries@),
            ) && final(self).persisted_index() == final(self).keys(),
            r is Ok && !old(self).failed() && old(self).keys() is None && old(self).index_entry()
                is None ==> final(self).persisted_index() == Some(keys_of(entries@)),
            r is Ok && !old(self).failed() && old(self).keys() is None && old(self).index_entry()
                is None && entries.len() > 0 ==> final(self).keys() == Some(keys_of(entries@)),
            entries.len() == 0 ==> r is Ok && final(self).store() == old(self).store() && final(self).keys() == old(self).keys() && final(self).failed() == old(self).failed(),
            r matches Err(e) ==> (e is DataBaseInsertionFailed && final(self).failed()) || (
            e is DataBaseReadFailed && final(self).failed() == old(self).failed()),
            r matches Err(e) && e is DataBaseReadFailed && !old(self).failed() ==> exists|j: int|
                0 <= j < entries.len() && final(self).data() == entries_applied(
                    old(self).data(),
                    #[trigger] entries@.take(j + 1),
                ),
    {
        let ghost known = (old(self).keys() is Some) || (!old(self).failed()
            && old(self).index_entry() is None);
        let ghost start = if old(self).keys() is Some {
            old(self).keys()->Some_0
        } else {
            Seq::<Seq<u8>>::empty()
        };
        let mut i: usize = 0;
        while i < entries.len()
            invariant
                self.wf(),
                i <= entries.len(),
                known == ((old(self).keys() is Some) || (!old(self).failed()
                    && old(self).index_entry() is None)),
                old(self).keys() is Some ==> start == old(self).keys()->Some_0,
                old(self).keys() is None ==> start == Seq::<Seq<u8>>::empty(),
                forall|j: int| 0 <= j < entries.len() ==> (#[trigger] entries[j]).0@ != sentinel(),
                self.failed() == old(self).failed(),
                !old(self).failed() ==> self.data() == entries_applied(
                    old(self).data(),
                    entries@.take(i as int),
                ),
                i == 0 ==> self.keys() == old(self).keys() && self.store() == old(self).store(),
                known && i > 0 ==> self.keys() == Some(start + keys_of(entries@.take(i as int))),
            decreases entries.len() - i,
        {
            let key = entries[i].0.clone();
            let val = entries[i].1.clone();
            proof {
                assert(vstd::std_specs::vec::vec_clone_trigger(entries[i as int].0, key));
                assert(vstd::std_specs::vec::vec_clone_trigger(entries[i as int].1, val));
                lemma_bytes_deep_view(&key);
                lemma_bytes_deep_view(&val);
                lemma_bytes_deep_view(&entries[i as int].0);
                lemma_bytes_deep_view(&entries[i as int].1);
                assert(entries@.take(i + 1).drop_last() =~= entries@.take(i as int));
                assert(keys_of(entries@.take(i + 1)) =~= keys_of(entries@.take(i as int)).push(
                    key@,
                ));
                assert(start + keys_of(entries@.take(i + 1)) =~= (start + keys_of(
                    entries@.take(i as int),
                )).push(key@));
                if i == 0 {
                    assert(keys_of(entries@.take(0)) =~= Seq::<Seq<u8>>::empty());
                    assert(start + keys_of(entries@.take(0)) =~= start);
                    assert(Seq::<Seq<u8>>::empty().push(key@) =~= seq![key@]);
                }
            }
            let ghost kv = key@;
            let ghost vv = val@;
            let ghost before = self.data();
            let ghost before_store = self.store();
            let r = self.insert_data(key, val);
            if r.is_err() {
                proof {
                    if !old(self).failed() && r matches Err(Error::DataBaseReadFailed(_)) {
                        assert(self.store().remove(sentinel()) =~= before_store.remove(
                            sentinel(),
                        ).insert(kv, vv));
                        assert(entries_applied(old(self).data(), entries@.take(i + 1))
                            == before.insert(kv, vv));
                    }
                }
                return r;
            }
            i = i + 1;
        }
        proof {
            assert(entries@.take(entries.len() as int) =~= entries@);
            if entries.len() == 0 {
                assert(keys_of(entries@) =~= Seq::<Seq<u8>>::empty());
            }
            assert(Seq::<Seq<u8>>::empty() + keys_of(entries@) =~= keys_of(entries@));
        }
        Ok(())
    }
}

/// The data entries after putting each entry of `entries` in order.
pub open spec fn entries_applied(
    m: Map<Seq<u8>, Seq<u8>>,
    entries: Seq<(Vec<u8>, Vec<u8>)>,
) -> Map<Seq<u8>, Seq<u8>>
    decreases entries.len(),
{
    if entries.len() == 0 {
        m
    } else {
        entries_applied(m, entries.drop_last()).insert(entries.last().0@, entries.last().1@)
    }
}

} // verus!
