//! Ordered key-value engine B: an in-process RocksDB store. Its handle lives
//! with the caller, which performs the reads and writes that this adapter
//! decides on. An insert is a short exchange: `begin_insert` asks for the data
//! entry to be put; each `step` takes what the store answered and names the
//! next call (read the index entry, write the new index) or ends the insert.
use vstd::prelude::*;

use crate::error::{Error, Result};
use crate::key_index::{decoded_index, index_text, opt_bytes, parsed_index, sentinel, KeyIndex};

verus! {

/// Where an insert stands.
pub enum Stage {
    /// No insert under way.
    Idle,
    /// The data entry under this key is being put.
    Writing(Vec<u8>),
    /// The index entry is being read, to append this key.
    Reading(Vec<u8>),
    /// This index is being written under the reserved key.
    Indexing(Vec<Vec<u8>>),
}

/// The next call on the store, or the end of the insert.
pub enum Action {
    /// Put the data entry given to `begin_insert`.
    PutData,
    /// Read the entry under the reserved key.
    ReadIndex,
    /// Put these bytes under the reserved key.
    PutIndex(Vec<u8>),
    /// The insert is over, with this outcome.
    Finish(Result<()>),
}

/// What the store answered to the last call.
pub enum Event {
    /// The data entry was put, or the error text of the failed put.
    DataWritten(core::result::Result<(), String>),
    /// What the reserved key holds (None: nothing), or the error text of the
    /// failed read.
    IndexRead(core::result::Result<Option<Vec<u8>>, String>),
    /// The index entry was put, or the error text of the failed put.
    IndexWritten(core::result::Result<(), String>),
}

/// The bytes of an optional buffer.
pub open spec fn read_bytes(o: Option<Vec<u8>>) -> Option<Seq<u8>> {
    match o {
        Some(v) => Some(v@),
        None => None,
    }
}

/// Engine B's adapter: the manager of its store's key index, and the insert
/// under way.
pub struct RocksDB {
    index: KeyIndex,
    stage: Stage,
}

impl RocksDB {
    /// The index as the adapter last read or wrote it; None until then, or
    /// after a write of it failed.
    pub closed spec fn keys(&self) -> Option<Seq<Seq<u8>>> {
        self.index@
    }

    /// The index an append starts from, given what reading the index entry
    /// gave: the known index, else the decoded entry.
    pub open spec fn base_for(&self, stored: Option<Seq<u8>>) -> Option<Seq<Seq<u8>>> {
        match self.keys() {
            Some(ks) => Some(ks),
            None => decoded_index(stored),
        }
    }

    /// Where the insert under way stands.
    pub closed spec fn stage(&self) -> Stage {
        self.stage
    }

    /// An adapter whose index has not been read yet, with no insert under way.
    pub fn init() -> (r: RocksDB)
        ensures
            r.keys() is None,
            r.stage() is Idle,
    {
        RocksDB { index: KeyIndex::new(), stage: Stage::Idle }
    }

    /// Whether an insert is under way.
    pub fn is_idle(&self) -> (r: bool)
        ensures
            r == (self.stage() is Idle),
    {
        match self.stage {
            Stage::Idle => true,
            _ => false,
        }
    }

    /// Whether the index is known, so that reading it from the store is not
    /// needed.
    pub fn index_known(&self) -> (r: bool)
        ensures
            r == (self.keys() is Some),
    {
        self.index.is_loaded()
    }

    /// The keys to fetch for a read of everything, in the order they were
    /// appended: the known index, else the one decoded from `stored`, what
    /// reading the index entry gave.
    pub fn keys_to_read(&self, stored: Option<&Vec<u8>>) -> (r: Result<Vec<Vec<u8>>>)
        ensures
            r is Ok <==> self.base_for(opt_bytes(stored)) is Some,
            r matches Ok(v) ==> self.base_for(opt_bytes(stored)) == Some(v.deep_view()),
            r matches Err(e) ==> e is DataBaseReadFailed,
    {
        self.index.current(stored)
    }

    /// Starts inserting an entry under `key`: the first call is the data put.
    pub fn begin_insert(&mut self, key: Vec<u8>) -> (r: Action)
        requires
            old(self).stage() is Idle,
            key@ != sentinel(),
        ensures
            r is PutData,
            final(self).stage() matches Stage::Writing(k) && k@ == key@,
            final(self).keys() == old(self).keys(),
    {
        self.stage = Stage::Writing(key);
        Action::PutData
    }

    /// Takes the store's answer to the last call and names the next one. An
    /// answer that does not fit the stage ends the insert with an error.
    pub fn step(&mut self, event: Event) -> (r: Action)
        requires
            !(old(self).stage() is Idle),
        ensures
            match (old(self).stage(), event) {
                (Stage::Writing(k), Event::DataWritten(Err(_))) => {
                    &&& r matches Action::Finish(Err(e)) && e is DataBaseInsertionFailed
                    &&& final(self).stage() is Idle
                    &&& final(self).keys() == old(self).keys()
                },
                (Stage::Writing(k), Event::DataWritten(Ok(_))) => {
                    &&& final(self).keys() == old(self).keys()
                    &&& old(self).keys() is Some ==> (r matches Action::PutIndex(b) && (final(
                        self).stage() matches Stage::Indexing(ks) && ks.deep_view() == old(
                        self).keys()->Some_0.push(k@) && b@ == index_text(ks.deep_view()) && parsed_index(b@)
                        == Some(ks.deep_view())))
                    &&& old(self).keys() is None ==> (r is ReadIndex && (final(self).stage() matches Stage::Reading(
                        k2,
                    ) && k2@ == k@))
                },
                (Stage::Reading(k), Event::IndexRead(Err(_))) => {
                    &&& r matches Action::Finish(Err(e)) && e is DataBaseReadFailed
                    &&& final(self).stage() is Idle
                    &&& final(self).keys() == old(self).keys()
                },
                (Stage::Reading(k), Event::IndexRead(Ok(stored))) => {
                    &&& final(self).keys() == old(self).keys()
                    &&& old(self).base_for(read_bytes(stored)) matches Some(ks0) ==> (r matches Action::PutIndex(
                        b,
                    ) && (final(self).stage() matches Stage::Indexing(ks) && ks.deep_view()
                        == ks0.push(k@) && b@ == index_text(ks.deep_view()) && parsed_index(b@)
                        == Some(ks.deep_view())))
                    &&& old(self).base_for(read_bytes(stored)) is None ==> final(self).stage() is Idle
                    &&& old(self).base_for(read_bytes(stored)) is None ==> (r matches Action::Finish(
                        Err(e),
                    ) && e is DataBaseReadFailed)
                },
                (Stage::Indexing(ks), Event::IndexWritten(w)) => {
                    &&& final(self).stage() is Idle
                    &&& final(self).keys() == (if w is Ok {
                        Some(ks.deep_view())
                    } else {
                        None
                    })
                    &&& r matches Action::Finish(res) && (res is Ok <==> w is Ok) && (res matches Err(
                        e,
                    ) ==> (e is DataBaseInsertionFailed))
                },
                _ => {
                    &&& r matches Action::Finish(Err(e)) && e is OperationFailed
                    &&& final(self).stage() is Idle
                    &&& final(self).keys() == old(self).keys()
                },
            },
    {
        let mut stage = Stage::Idle;
        std::mem::swap(&mut stage, &mut self.stage);
        match (stage, event) {
            (Stage::Writing(k), Event::DataWritten(Err(e))) => Action::Finish(
                Err(Error::DataBaseInsertionFailed(e)),
            ),
            (Stage::Writing(k), Event::DataWritten(Ok(()))) => {
                if self.index.is_loaded() {
                    match self.index.appended(None, &k) {
                        Ok((ks, b)) => {
                            self.stage = Stage::Indexing(ks);
                            Action::PutIndex(b)
                        },
                        Err(e) => Action::Finish(Err(e)),
                    }
                } else {
                    self.stage = Stage::Reading(k);
                    Action::ReadIndex
                }
            },
            (Stage::Reading(k), Event::IndexRead(Err(e))) => Action::Finish(
                Err(Error::DataBaseReadFailed(e)),
            ),
            (Stage::Reading(k), Event::IndexRead(Ok(stored))) => {
                let appended = match &stored {
                    Some(b) => self.index.appended(Some(b), &k),
                    None => self.index.appended(None, &k),
                };
                match appended {
                    Ok((ks, b)) => {
                        self.stage = Stage::Indexing(ks);
                        Action::PutIndex(b)
                    },
                    Err(e) => Action::Finish(Err(e)),
                }
            },
            (Stage::Indexing(ks), Event::IndexWritten(w)) => {
                match w {
                    Ok(()) => {
                        self.index.record_write(ks, true);
                        Action::Finish(Ok(()))
                    },
                    Err(e) => {
                        self.index.record_write(ks, false);
                        Action::Finish(Err(Error::DataBaseInsertionFailed(e)))
                    },
                }
            },
            _ => Action::Finish(
                Err(Error::OperationFailed("RocksDB: an answer out of turn".to_owned())),
            ),
        }
    }
}

} // verus!
