//! The record store: records keyed by address, at most one per address.

use crate::address::Address;
use crate::states::{Record, TwitterError};
use vstd::prelude::*;

verus! {

/// One stored record and its address.
struct Entry {
    key: Address,
    record: Record,
}

/// The map that a sequence of entries stands for; a later entry wins.
spec fn map_of(s: Seq<Entry>) -> Map<Seq<u8>, Record>
    decreases s.len(),
{
    if s.len() == 0 {
        Map::empty()
    } else {
        map_of(s.drop_last()).insert(s.last().key@, s.last().record)
    }
}

spec fn keys_unique(s: Seq<Entry>) -> bool {
    forall|i: int, j: int|
        0 <= i < s.len() && 0 <= j < s.len() && i != j ==> s[i].key@ != s[j].key@
}

proof fn lemma_map_of_domain(s: Seq<Entry>, k: Seq<u8>)
    ensures
        map_of(s).contains_key(k) <==> exists|i: int| 0 <= i < s.len() && s[i].key@ == k,
    decreases s.len(),
{
    if s.len() > 0 {
        lemma_map_of_domain(s.drop_last(), k);
        if map_of(s.drop_last()).contains_key(k) {
            let i = choose|i: int| 0 <= i < s.len() - 1 && s.drop_last()[i].key@ == k;
            assert(s[i].key@ == k);
        }
        if exists|i: int| 0 <= i < s.len() && s[i].key@ == k {
            let i = choose|i: int| 0 <= i < s.len() && s[i].key@ == k;
            if i < s.len() - 1 {
                assert(s.drop_last()[i].key@ == k);
            }
        }
    }
}

proof fn lemma_map_of_entry(s: Seq<Entry>, i: int)
    requires
        keys_unique(s),
        0 <= i < s.len(),
    ensures
        map_of(s).contains_key(s[i].key@),
        map_of(s)[s[i].key@] == s[i].record,
    decreases s.len(),
{
    if i < s.len() - 1 {
        lemma_map_of_entry(s.drop_last(), i);
    }
}

proof fn lemma_map_of_remove(s: Seq<Entry>, i: int)
    requires
        keys_unique(s),
        0 <= i < s.len(),
    ensures
        map_of(s.remove(i)) == map_of(s).remove(s[i].key@),
    decreases s.len(),
{
    let k = s[i].key@;
    let init = s.drop_last();
    if i == s.len() - 1 {
        assert(s.remove(i) =~= init);
        lemma_map_of_domain(init, k);
        assert(map_of(init) =~= map_of(s).remove(k));
    } else {
        lemma_map_of_remove(init, i);
        assert(s.remove(i) =~= init.remove(i).push(s.last()));
        assert(s.remove(i).drop_last() =~= init.remove(i));
        assert(s.last().key@ != k);
        assert(map_of(s.remove(i)) =~= map_of(s).remove(k));
    }
}

/// The records of the ledger, at most one at each address.
pub struct RecordStore {
    entries: Vec<Entry>,
}

impl View for RecordStore {
    type V = Map<Seq<u8>, Record>;

    closed spec fn view(&self) -> Map<Seq<u8>, Record> {
        map_of(self.entries@)
    }
}

impl RecordStore {
    #[verifier::type_invariant]
    spec fn inv(&self) -> bool {
        keys_unique(self.entries@)
    }

    /// An empty store.
    pub fn new() -> (r: RecordStore)
        ensures
            r@ == Map::<Seq<u8>, Record>::empty(),
    {
        RecordStore { entries: Vec::new() }
    }

    /// Where the entry for `key` stands, if there is one.
    fn position(&self, key: &Address) -> (r: Option<usize>)
        ensures
            match r {
                Some(i) => i < self.entries@.len() && self.entries@[i as int].key@ == key@,
                None => !self@.contains_key(key@),
            },
    {
        let mut i: usize = 0;
        while i < self.entries.len()
            invariant
                i <= self.entries@.len(),
                forall|j: int| 0 <= j < i ==> self.entries@[j].key@ != key@,
            decreases self.entries@.len() - i,
        {
            if self.entries[i].key == *key {
                return Some(i);
            }
            i = i + 1;
        }
        proof {
            lemma_map_of_domain(self.entries@, key@);
        }
        None
    }

    /// Whether a record is stored at `key`.
    pub fn contains(&self, key: &Address) -> (r: bool)
        ensures
            r == self@.contains_key(key@),
    {
        proof {
            use_type_invariant(self);
        }
        match self.position(key) {
            Some(i) => {
                proof {
                    lemma_map_of_entry(self.entries@, i as int);
                }
                true
            },
            None => false,
        }
    }

    /// The record stored at `key`, if there is one.
    pub fn get(&self, key: &Address) -> (r: Option<&Record>)
        ensures
            match r {
                Some(rec) => self@.contains_key(key@) && *rec == self@[key@],
                None => !self@.contains_key(key@),
            },
    {
        proof {
            use_type_invariant(self);
        }
        match self.position(key) {
            Some(i) => {
                proof {
                    lemma_map_of_entry(self.entries@, i as int);
                }
                Some(&self.entries[i].record)
            },
            None => None,
        }
    }

    /// Stores `record` at a free `key`; refuses with `DuplicateRecord`, and
    /// changes nothing, where `key` is taken.
    pub fn create(&mut self, key: Address, record: Record) -> (r: Result<(), TwitterError>)
        ensures
            old(self)@.contains_key(key@) ==> r == Err::<(), TwitterError>(TwitterError::DuplicateRecord)
                && final(self)@ == old(self)@,
            !old(self)@.contains_key(key@) ==> r is Ok && final(self)@ == old(self)@.insert(key@, record),
    {
        proof {
            use_type_invariant(&*self);
        }
        if self.contains(&key) {
            return Err(TwitterError::DuplicateRecord);
        }
        proof {
            lemma_map_of_domain(self.entries@, key@);
        }
        let mut entries: Vec<Entry> = Vec::new();
        std::mem::swap(&mut self.entries, &mut entries);
        entries.push(Entry { key, record });
        proof {
            assert(entries@.drop_last() =~= old(self).entries@);
        }
        std::mem::swap(&mut self.entries, &mut entries);
        Ok(())
    }

    /// Replaces the record at `key`; refuses with `RecordNotFound`, and
    /// changes nothing, where no record is stored there.
    pub fn update(&mut self, key: &Address, record: Record) -> (r: Result<(), TwitterError>)
        ensures
            !old(self)@.contains_key(key@) ==> r == Err::<(), TwitterError>(TwitterError::RecordNotFound)
                && final(self)@ == old(self)@,
            old(self)@.contains_key(key@) ==> r is Ok && final(self)@ == old(self)@.insert(key@, record),
    {
        match self.destroy(key) {
            Some(_) => {
                let _ = self.create(*key, record);
                Ok(())
            },
            None => Err(TwitterError::RecordNotFound),
        }
    }

    /// Removes the record at `key` and hands it back, or `None` where no
    /// record is stored there.
    pub fn destroy(&mut self, key: &Address) -> (r: Option<Record>)
        ensures
            match r {
                Some(rec) => old(self)@.contains_key(key@) && rec == old(self)@[key@]
                    && final(self)@ == old(self)@.remove(key@),
                None => !old(self)@.contains_key(key@) && final(self)@ == old(self)@,
            },
    {
        proof {
            use_type_invariant(&*self);
        }
        match self.position(key) {
            Some(i) => {
                proof {
                    lemma_map_of_entry(self.entries@, i as int);
                    lemma_map_of_remove(self.entries@, i as int);
                }
                let mut entries: Vec<Entry> = Vec::new();
                std::mem::swap(&mut self.entries, &mut entries);
                let entry = entries.remove(i);
                proof {
                    assert forall|a: int, b: int|
                        0 <= a < entries@.len() && 0 <= b < entries@.len() && a != b
                        implies entries@[a].key@ != entries@[b].key@ by {
                        let a0 = if a < i { a } else { a + 1 };
                        let b0 = if b < i { b } else { b + 1 };
                        assert(entries@[a] == old(self).entries@[a0]);
                        assert(entries@[b] == old(self).entries@[b0]);
                    }
                }
                std::mem::swap(&mut self.entries, &mut entries);
                Some(entry.record)
            },
            None => None,
        }
    }
}

} // verus!
