//! The key index of an ordered key-value engine: the list of every data key
//! written, kept as JSON under a reserved key of the same store.
use vstd::prelude::*;

use crate::error::{Error, Result};

verus! {

/// The reserved key under which the index is stored: the ASCII text `_keys_index`.
pub open spec fn sentinel() -> Seq<u8> {
    seq![95u8, 107u8, 101u8, 121u8, 115u8, 95u8, 105u8, 110u8, 100u8, 101u8, 120u8]
}

/// Decimal digits of a byte, most significant first, without leading zeros.
pub open spec fn decimal(b: u8) -> Seq<u8> {
    if b < 10 {
        seq![(b + 48) as u8]
    } else if b < 100 {
        seq![(b / 10 + 48) as u8, (b % 10 + 48) as u8]
    } else {
        seq![(b / 100 + 48) as u8, ((b / 10) % 10 + 48) as u8, (b % 10 + 48) as u8]
    }
}

/// The bytes of `s` in decimal, separated by commas.
pub open spec fn joined_bytes(s: Seq<u8>) -> Seq<u8>
    decreases s.len(),
{
    if s.len() == 0 {
        seq![]
    } else if s.len() == 1 {
        decimal(s[0])
    } else {
        joined_bytes(s.drop_last()) + seq![44u8] + decimal(s.last())
    }
}

/// A byte string as a JSON array of integers: `[104,105]`.
pub open spec fn byte_array_text(s: Seq<u8>) -> Seq<u8> {
    seq![91u8] + joined_bytes(s) + seq![93u8]
}

/// The arrays of `ks`, separated by commas.
pub open spec fn joined_arrays(ks: Seq<Seq<u8>>) -> Seq<u8>
    decreases ks.len(),
{
    if ks.len() == 0 {
        seq![]
    } else if ks.len() == 1 {
        byte_array_text(ks[0])
    } else {
        joined_arrays(ks.drop_last()) + seq![44u8] + byte_array_text(ks.last())
    }
}

/// The stored form of an index: compact JSON, an array of byte arrays
/// (`[[49],[50,51]]`; the empty index is `[]`).
pub open spec fn index_text(ks: Seq<Seq<u8>>) -> Seq<u8> {
    seq![91u8] + joined_arrays(ks) + seq![93u8]
}

/// The list of byte strings that serde_json reads from `bytes`, if it reads one.
pub uninterp spec fn parsed_index(bytes: Seq<u8>) -> Option<Seq<Seq<u8>>>;

/// The bytes of an optional buffer.
pub open spec fn opt_bytes(b: Option<&Vec<u8>>) -> Option<Seq<u8>> {
    match b {
        Some(v) => Some(v@),
        None => None,
    }
}

/// What decoding the sentinel entry gives: no entry is the empty index.
pub open spec fn decoded_index(stored: Option<Seq<u8>>) -> Option<Seq<Seq<u8>>> {
    match stored {
        None => Some(Seq::empty()),
        Some(b) => parsed_index(b),
    }
}

/// Relies on serde_json::to_vec on a list of byte strings: compact JSON with
/// each byte string as an array of decimal integers, which serde_json::from_slice
/// reads back as the same list. to_vec fails only for a failing Serialize impl
/// or a map with non-string keys, neither of which a list of byte strings has.
#[verifier::external_body]
fn index_to_json(keys: &Vec<Vec<u8>>) -> (r: core::result::Result<Vec<u8>, String>)
    ensures
        r is Ok,
        r matches Ok(b) ==> b@ == index_text(keys.deep_view()) && parsed_index(b@) == Some(
            keys.deep_view(),
        ),
{
    serde_json::to_vec(keys).map_err(|e| format!("{:?}", e))
}

/// Relies on serde_json::from_slice into a list of byte strings; empty input is
/// an end-of-input error. An error comes back as its Debug text.
#[verifier::external_body]
fn index_from_json(bytes: &Vec<u8>) -> (r: core::result::Result<Vec<Vec<u8>>, String>)
    ensures
        r is Ok <==> parsed_index(bytes@) is Some,
        r matches Ok(v) ==> parsed_index(bytes@) == Some(v.deep_view()),
        bytes@.len() == 0 ==> r is Err,
{
    serde_json::from_slice(bytes).map_err(|e| format!("{:?}", e))
}

/// The keys of a batch of key-value entries, in batch order.
pub open spec fn keys_of(entries: Seq<(Vec<u8>, Vec<u8>)>) -> Seq<Seq<u8>> {
    Seq::new(entries.len(), |i: int| entries[i].0@)
}

/// A byte buffer's deep view is its view.
pub proof fn lemma_bytes_deep_view(v: &Vec<u8>)
    ensures
        v.deep_view() == v@,
{
    assert(v.deep_view() =~= v@);
}

/// The reserved key, `_keys_index`.
pub fn sentinel_key() -> (r: Vec<u8>)
    ensures
        r@ == sentinel(),
{
    let r = vec![95u8, 107u8, 101u8, 121u8, 115u8, 95u8, 105u8, 110u8, 100u8, 101u8, 120u8];
    assert(r@ =~= sentinel());
    r
}

/// Decodes the sentinel entry as read from the store: an absent entry is the
/// empty index; bytes that are not an index are a read error.
pub fn decode_index(stored: Option<&Vec<u8>>) -> (r: Result<Vec<Vec<u8>>>)
    ensures
        r is Ok <==> decoded_index(opt_bytes(stored)) is Some,
        r matches Ok(v) ==> decoded_index(opt_bytes(stored)) == Some(v.deep_view()),
        r matches Err(e) ==> e is DataBaseReadFailed,
{
    match stored {
        None => {
            let v: Vec<Vec<u8>> = Vec::new();
            assert(v.deep_view() =~= Seq::<Seq<u8>>::empty());
            Ok(v)
        },
        Some(b) => match index_from_json(b) {
            Ok(v) => Ok(v),
            Err(e) => Err(Error::DataBaseReadFailed(e)),
        },
    }
}

/// Checks what fetching an indexed key gave: no value, or an empty one, is a
/// read error; anything else is the value.
pub fn fetched_value(got: Option<Vec<u8>>) -> (r: Result<Vec<u8>>)
    ensures
        r matches Ok(v) ==> got == Some(v) && v@.len() > 0,
        (got matches Some(v) && v@.len() > 0) ==> r == Ok::<Vec<u8>, Error>(got->Some_0),
        r matches Err(e) ==> e is DataBaseReadFailed,
{
    match got {
        Some(v) => {
            if v.len() == 0 {
                Err(Error::DataBaseReadFailed("empty value under an indexed key".to_owned()))
            } else {
                Ok(v)
            }
        },
        None => Err(Error::DataBaseReadFailed("no value under an indexed key".to_owned())),
    }
}

/// Encodes an index into the bytes to store under the sentinel key.
pub fn encode_index(keys: &Vec<Vec<u8>>) -> (r: Result<Vec<u8>>)
    ensures
        r is Ok,
        r matches Ok(b) ==> b@ == index_text(keys.deep_view()) && parsed_index(b@) == Some(
            keys.deep_view(),
        ),
{
    match index_to_json(keys) {
        Ok(b) => Ok(b),
        Err(e) => Err(Error::DataBaseInsertionFailed(e)),
    }
}

/// The key index manager of one store: unloaded until the index is read
/// and decoded, or written; then the index as last read or written.
pub struct KeyIndex {
    loaded: Option<Vec<Vec<u8>>>,
}

impl KeyIndex {
    /// The known index, if any.
    pub closed spec fn view(&self) -> Option<Seq<Seq<u8>>> {
        match self.loaded {
            Some(v) => Some(v.deep_view()),
            None => None,
        }
    }

    /// The index that an append or an enumeration starts from, given what
    /// reading the index entry gave: the known index, else the decoded entry.
    pub open spec fn base(&self, stored: Option<Seq<u8>>) -> Option<Seq<Seq<u8>>> {
        match self@ {
            Some(ks) => Some(ks),
            None => decoded_index(stored),
        }
    }

    /// An unloaded manager.
    pub fn new() -> (r: KeyIndex)
        ensures
            r@ is None,
    {
        KeyIndex { loaded: None }
    }

    /// Whether the index is known, so that the store need not be read.
    pub fn is_loaded(&self) -> (r: bool)
        ensures
            r == (self@ is Some),
    {
        self.loaded.is_some()
    }

    /// The index to enumerate: the known one, else the one decoded from
    /// `stored`, what reading the index entry gave.
    pub fn current(&self, stored: Option<&Vec<u8>>) -> (r: Result<Vec<Vec<u8>>>)
        ensures
            r is Ok <==> self.base(opt_bytes(stored)) is Some,
            r matches Ok(v) ==> self.base(opt_bytes(stored)) == Some(v.deep_view()),
            r matches Err(e) ==> e is DataBaseReadFailed,
    {
        match &self.loaded {
            Some(v) => {
                let c = v.clone();
                proof {
                    assert(c.deep_view() =~= v.deep_view()) by {
                        assert forall|i: int| 0 <= i < c.len() implies c.deep_view()[i]
                            == v.deep_view()[i] by {
                            assert(vstd::std_specs::vec::vec_clone_trigger(*v, c));
                        }
                    }
                }
                Ok(c)
            },
            None => decode_index(stored),
        }
    }

    /// The index with `key` appended, and its stored form: the bytes to write
    /// under the reserved key.
    pub fn appended(&self, stored: Option<&Vec<u8>>, key: &Vec<u8>) -> (r: Result<
        (Vec<Vec<u8>>, Vec<u8>),
    >)
        ensures
            r matches Ok((ks, b)) ==> self.base(opt_bytes(stored)) is Some && ks.deep_view()
                == self.base(opt_bytes(stored))->Some_0.push(key@) && b@ == index_text(
                ks.deep_view(),
            ) && parsed_index(b@) == Some(ks.deep_view()),
            r is Ok <==> self.base(opt_bytes(stored)) is Some,
            r matches Err(e) ==> e is DataBaseReadFailed,
    {
        let mut keys = match self.current(stored) {
            Ok(k) => k,
            Err(e) => return Err(e),
        };
        let ghost before = keys.deep_view();
        let ghost prior = keys@;
        let k = key.clone();
        proof {
            assert(vstd::std_specs::vec::vec_clone_trigger(*key, k));
            lemma_bytes_deep_view(key);
            lemma_bytes_deep_view(&k);
        }
        keys.push(k);
        assert(keys.deep_view() =~= before.push(key@)) by {
            assert forall|i: int| 0 <= i < keys.len() implies keys.deep_view()[i] == before.push(
                key@,
            )[i] by {
                if i < before.len() {
                    assert(keys@[i] == prior[i]);
                }
            }
        }
        match encode_index(&keys) {
            Ok(b) => Ok((keys, b)),
            Err(e) => Err(e),
        }
    }

    /// Records the outcome of writing `keys` under the reserved key: written,
    /// they are the known index; not written, the index is unknown again.
    pub fn record_write(&mut self, keys: Vec<Vec<u8>>, written: bool)
        ensures
            final(self)@ == (if written {
                Some(keys.deep_view())
            } else {
                None
            }),
    {
        if written {
            self.loaded = Some(keys);
        } else {
            self.loaded = None;
        }
    }
}

} // verus!
