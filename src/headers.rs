//! An ordered header map: insertion order is kept, duplicate keys are
//! distinct entries, and keys are looked up without regard to ASCII case.
use vstd::prelude::*;
use vstd::slice::slice_to_vec;

use crate::text::{
    bytes_eq, bytes_eq_ignore_case, eq_ignore_case, lowercase, to_lowercase,
};

verus! {

/// One header entry as a pair of byte strings.
pub type Entry = (Seq<u8>, Seq<u8>);

/// The entry's key equals `key`, ignoring ASCII case.
pub open spec fn key_is(e: Entry, key: Seq<u8>) -> bool {
    eq_ignore_case(e.0, key)
}

/// The entry's key equals `key` ignoring case and its value equals `value` exactly.
pub open spec fn entry_is(e: Entry, key: Seq<u8>, value: Seq<u8>) -> bool {
    key_is(e, key) && e.1 == value
}

/// Some entry of `s` has the key `key`.
pub open spec fn has_key_in(s: Seq<Entry>, key: Seq<u8>) -> bool {
    exists|i: int| 0 <= i < s.len() && #[trigger] key_is(s[i], key)
}

/// `i` is the position of the first entry of `s` with the key `key`.
pub open spec fn first_key_at(s: Seq<Entry>, key: Seq<u8>, i: int) -> bool {
    &&& 0 <= i < s.len()
    &&& key_is(s[i], key)
    &&& forall|j: int| 0 <= j < i ==> !#[trigger] key_is(s[j], key)
}

/// Some entry of `s` is `key: value` (key without case, value exactly).
pub open spec fn has_entry_in(s: Seq<Entry>, key: Seq<u8>, value: Seq<u8>) -> bool {
    exists|i: int| 0 <= i < s.len() && #[trigger] entry_is(s[i], key, value)
}

/// `i` is the position of the first entry of `s` that is `key: value`.
pub open spec fn first_entry_at(s: Seq<Entry>, key: Seq<u8>, value: Seq<u8>, i: int) -> bool {
    &&& 0 <= i < s.len()
    &&& entry_is(s[i], key, value)
    &&& forall|j: int| 0 <= j < i ==> !#[trigger] entry_is(s[j], key, value)
}

/// The number of entries of `s` with the key `key`.
pub open spec fn count_key(s: Seq<Entry>, key: Seq<u8>) -> nat
    decreases s.len(),
{
    if s.len() == 0 {
        0
    } else {
        count_key(s.drop_last(), key) + if key_is(s.last(), key) {
            1nat
        } else {
            0nat
        }
    }
}

/// Every key of `s` in ASCII lowercase.
pub open spec fn lowercase_keys(s: Seq<Entry>) -> Seq<Entry> {
    s.map_values(|e: Entry| (lowercase(e.0), e.1))
}

/// One header: a key and a value, without the wire punctuation.
#[derive(Clone, Debug, PartialEq, Eq)]
pub struct Header {
    pub key: Vec<u8>,
    pub value: Vec<u8>,
}

/// An ordered list of headers.
#[derive(Clone, Debug, PartialEq, Eq)]
pub struct HeaderMap {
    entries: Vec<Header>,
}

impl View for HeaderMap {
    type V = Seq<Entry>;

    closed spec fn view(&self) -> Seq<Entry> {
        self.entries@.map_values(|h: Header| (h.key@, h.value@))
    }
}

impl HeaderMap {
    pub fn new() -> (r: HeaderMap)
        ensures
            r@ == Seq::<Entry>::empty(),
    {
        let r = HeaderMap { entries: Vec::new() };
        assert(r@ =~= Seq::<Entry>::empty());
        r
    }

    /// Appends `key: value` after the existing entries.
    pub fn insert(&mut self, key: &[u8], value: &[u8])
        ensures
            final(self)@ == old(self)@.push((key@, value@)),
    {
        let h = Header { key: slice_to_vec(key), value: slice_to_vec(value) };
        self.entries.push(h);
        assert(final(self)@ =~= old(self)@.push((key@, value@)));
    }

    /// The number of entries.
    pub fn len(&self) -> (r: usize)
        ensures
            r == self@.len(),
    {
        self.entries.len()
    }

    pub fn is_empty(&self) -> (r: bool)
        ensures
            r == (self@.len() == 0),
    {
        self.entries.len() == 0
    }

    pub fn key_at(&self, i: usize) -> (r: &[u8])
        requires
            i < self@.len(),
        ensures
            r@ == self@[i as int].0,
    {
        self.entries[i].key.as_slice()
    }

    pub fn value_at(&self, i: usize) -> (r: &[u8])
        requires
            i < self@.len(),
        ensures
            r@ == self@[i as int].1,
    {
        self.entries[i].value.as_slice()
    }

    /// The position of the first entry whose key is `key`, ignoring ASCII case.
    pub fn header_key_position(&self, key: &[u8]) -> (r: Option<usize>)
        ensures
            match r {
                Some(i) => first_key_at(self@, key@, i as int),
                None => !has_key_in(self@, key@),
            },
    {
        let mut i: usize = 0;
        while i < self.entries.len()
            invariant
                0 <= i <= self@.len(),
                self@.len() == self.entries@.len(),
                forall|j: int| 0 <= j < i ==> !#[trigger] key_is(self@[j], key@),
            decreases self@.len() - i,
        {
            assert(self@[i as int].0 == self.entries@[i as int].key@);
            if bytes_eq_ignore_case(self.entries[i].key.as_slice(), key) {
                return Some(i);
            }
            i = i + 1;
        }
        None
    }

    /// Whether some entry has the key `key`, ignoring ASCII case.
    pub fn has_key(&self, key: &[u8]) -> (r: bool)
        ensures
            r == has_key_in(self@, key@),
    {
        match self.header_key_position(key) {
            Some(_) => true,
            None => false,
        }
    }

    /// The position of the first entry `key: value`; the key is compared
    /// without ASCII case and the value exactly.
    pub fn header_position(&self, key: &[u8], value: &[u8]) -> (r: Option<usize>)
        ensures
            match r {
                Some(i) => first_entry_at(self@, key@, value@, i as int),
                None => !has_entry_in(self@, key@, value@),
            },
    {
        let mut i: usize = 0;
        while i < self.entries.len()
            invariant
                0 <= i <= self@.len(),
                self@.len() == self.entries@.len(),
                forall|j: int| 0 <= j < i ==> !#[trigger] entry_is(self@[j], key@, value@),
            decreases self@.len() - i,
        {
            assert(self@[i as int] == (self.entries@[i as int].key@, self.entries@[i as int].value@));
            if bytes_eq_ignore_case(self.entries[i].key.as_slice(), key) && bytes_eq(
                self.entries[i].value.as_slice(),
                value,
            ) {
                return Some(i);
            }
            i = i + 1;
        }
        None
    }

    /// Replaces the value of the entry at `pos`.
    pub fn update_header_value_on_position(&mut self, pos: usize, value: &[u8])
        requires
            pos < old(self)@.len(),
        ensures
            final(self)@ == old(self)@.update(pos as int, (old(self)@[pos as int].0, value@)),
    {
        let key = slice_to_vec(self.entries[pos].key.as_slice());
        proof {
            assert(key@ == old(self)@[pos as int].0);
        }
        self.entries.set(pos, Header { key, value: slice_to_vec(value) });
        assert(final(self)@ =~= old(self)@.update(pos as int, (old(self)@[pos as int].0, value@)));
    }

    /// Replaces the value of the first entry with the key `key`; false when there is none.
    pub fn update_header_value_on_key(&mut self, key: &[u8], value: &[u8]) -> (r: bool)
        ensures
            r == has_key_in(old(self)@, key@),
            !r ==> final(self)@ == old(self)@,
            r ==> exists|i: int|
                #![trigger old(self)@[i]]
                first_key_at(old(self)@, key@, i) && final(self)@ == old(self)@.update(
                    i,
                    (old(self)@[i].0, value@),
                ),
    {
        match self.header_key_position(key) {
            Some(pos) => {
                self.update_header_value_on_position(pos, value);
                assert(first_key_at(old(self)@, key@, pos as int));
                true
            },
            None => false,
        }
    }

    /// Removes the entry at `pos`; later entries move one position forward.
    pub fn remove_header_on_position(&mut self, pos: usize)
        requires
            pos < old(self)@.len(),
        ensures
            final(self)@ == old(self)@.remove(pos as int),
    {
        self.entries.remove(pos);
        assert(final(self)@ =~= old(self)@.remove(pos as int));
    }

    /// Removes the first entry with the key `key`; false when there is none.
    pub fn remove_header_on_key(&mut self, key: &[u8]) -> (r: bool)
        ensures
            r == has_key_in(old(self)@, key@),
            !r ==> final(self)@ == old(self)@,
            r ==> exists|i: int|
                #![trigger old(self)@[i]]
                first_key_at(old(self)@, key@, i) && final(self)@ == old(self)@.remove(i),
    {
        match self.header_key_position(key) {
            Some(pos) => {
                self.remove_header_on_position(pos);
                assert(first_key_at(old(self)@, key@, pos as int));
                true
            },
            None => false,
        }
    }

    /// Appends every entry of `other`, in order.
    pub fn extend(&mut self, other: HeaderMap)
        ensures
            final(self)@ == old(self)@ + other@,
    {
        let ghost added = other@;
        let mut other = other;
        self.entries.append(&mut other.entries);
        assert(final(self)@ =~= old(self)@ + added);
    }

    /// The same entries with every key in ASCII lowercase.
    pub fn with_lowercase_keys(&self) -> (r: HeaderMap)
        ensures
            r@ == lowercase_keys(self@),
    {
        let mut out: Vec<Header> = Vec::new();
        let mut i: usize = 0;
        while i < self.entries.len()
            invariant
                0 <= i <= self.entries@.len(),
                out@.len() == i,
                forall|j: int|
                    0 <= j < i ==> (#[trigger] out@[j]).key@ == lowercase(self.entries@[j].key@)
                        && out@[j].value@ == self.entries@[j].value@,
            decreases self.entries@.len() - i,
        {
            let h = Header {
                key: to_lowercase(self.entries[i].key.as_slice()),
                value: slice_to_vec(self.entries[i].value.as_slice()),
            };
            out.push(h);
            i = i + 1;
        }
        let r = HeaderMap { entries: out };
        assert(r@ =~= lowercase_keys(self@));
        r
    }
}

} // verus!
