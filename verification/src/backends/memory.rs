//! An in-memory backend: the reference implementation of [`Storage`].
//!
//! The whole store lives inside the value itself, so every operation is
//! checked against the trait's contract — which also shows that the
//! contract can be met — and callers get a backend with no transport at
//! all, handy wherever real storage is not wanted.

use vstd::prelude::*;

verus! {

use crate::{listed_ids, Error, ObjectMetadata, Storage};

/// One stored object: its id, which doubles as its display name, and its
/// full content.
struct Entry {
    id: String,
    data: Vec<u8>,
}

/// The ids of a run of entries, in order.
spec fn entry_ids(s: Seq<Entry>) -> Seq<Seq<char>> {
    s.map_values(|e: Entry| e.id@)
}

/// The id-to-content map described by a run of entries.
spec fn entries_map(s: Seq<Entry>) -> Map<Seq<char>, Seq<u8>>
    decreases s.len(),
{
    if s.len() == 0 {
        Map::empty()
    } else {
        entries_map(s.drop_last()).insert(s.last().id@, s.last().data@)
    }
}

proof fn lemma_contains_at(s: Seq<Entry>, i: int)
    requires
        0 <= i < s.len(),
    ensures
        entries_map(s).contains_key(s[i].id@),
    decreases s.len(),
{
    if i < s.len() - 1 {
        lemma_contains_at(s.drop_last(), i);
    }
}

proof fn lemma_not_contains(s: Seq<Entry>, k: Seq<char>)
    requires
        forall|i: int| 0 <= i < s.len() ==> entry_ids(s)[i] != k,
    ensures
        !entries_map(s).contains_key(k),
    decreases s.len(),
{
    if s.len() > 0 {
        assert(entry_ids(s)[s.len() - 1] == s.last().id@);
        assert forall|i: int| 0 <= i < s.drop_last().len() implies entry_ids(s.drop_last())[i]
            != k by {
            assert(entry_ids(s.drop_last())[i] == entry_ids(s)[i]);
        }
        lemma_not_contains(s.drop_last(), k);
    }
}

proof fn lemma_value_at(s: Seq<Entry>, i: int)
    requires
        entry_ids(s).no_duplicates(),
        0 <= i < s.len(),
    ensures
        entries_map(s).contains_key(s[i].id@),
        entries_map(s)[s[i].id@] == s[i].data@,
    decreases s.len(),
{
    lemma_contains_at(s, i);
    if i < s.len() - 1 {
        assert(entry_ids(s)[i] != entry_ids(s)[s.len() - 1]);
        assert(entry_ids(s.drop_last()).no_duplicates()) by {
            assert(entry_ids(s.drop_last()) =~= entry_ids(s).drop_last());
        }
        lemma_value_at(s.drop_last(), i);
    }
}

proof fn lemma_dom(s: Seq<Entry>)
    ensures
        entries_map(s).dom() == entry_ids(s).to_set(),
{
    assert forall|k: Seq<char>| entry_ids(s).to_set().contains(k) implies entries_map(
        s,
    ).contains_key(k) by {
        let i = choose|i: int| 0 <= i < entry_ids(s).len() && entry_ids(s)[i] == k;
        lemma_contains_at(s, i);
    }
    assert forall|k: Seq<char>| entries_map(s).contains_key(k) implies entry_ids(
        s,
    ).to_set().contains(k) by {
        if forall|i: int| 0 <= i < s.len() ==> entry_ids(s)[i] != k {
            lemma_not_contains(s, k);
        } else {
            let i = choose|i: int| 0 <= i < s.len() && entry_ids(s)[i] == k;
            assert(entry_ids(s).contains(k));
        }
    }
    assert(entries_map(s).dom() =~= entry_ids(s).to_set());
}

proof fn lemma_map_update(s: Seq<Entry>, i: int, e: Entry)
    requires
        entry_ids(s).no_duplicates(),
        0 <= i < s.len(),
        e.id@ == s[i].id@,
    ensures
        entries_map(s.update(i, e)) == entries_map(s).insert(e.id@, e.data@),
    decreases s.len(),
{
    let t = s.update(i, e);
    if i == s.len() - 1 {
        assert(t.drop_last() =~= s.drop_last());
        assert(t.last() == e);
        assert(entries_map(t) =~= entries_map(s).insert(e.id@, e.data@));
    } else {
        assert(t.drop_last() =~= s.drop_last().update(i, e));
        assert(t.last() == s.last());
        assert(entry_ids(s.drop_last()).no_duplicates()) by {
            assert(entry_ids(s.drop_last()) =~= entry_ids(s).drop_last());
        }
        lemma_map_update(s.drop_last(), i, e);
        assert(entry_ids(s)[i] != entry_ids(s)[s.len() - 1]);
        assert(entries_map(t) =~= entries_map(s).insert(e.id@, e.data@));
    }
}

proof fn lemma_map_remove(s: Seq<Entry>, i: int)
    requires
        entry_ids(s).no_duplicates(),
        0 <= i < s.len(),
    ensures
        entries_map(s.remove(i)) == entries_map(s).remove(s[i].id@),
    decreases s.len(),
{
    let t = s.remove(i);
    if i == s.len() - 1 {
        assert(t =~= s.drop_last());
        assert forall|j: int| 0 <= j < s.drop_last().len() implies entry_ids(s.drop_last())[j]
            != s[i].id@ by {
            assert(entry_ids(s)[j] != entry_ids(s)[i]);
        }
        lemma_not_contains(s.drop_last(), s[i].id@);
        assert(entries_map(s).remove(s[i].id@) =~= entries_map(s.drop_last()));
    } else {
        assert(t.drop_last() =~= s.drop_last().remove(i));
        assert(t.last() == s.last());
        assert(entry_ids(s.drop_last()).no_duplicates()) by {
            assert(entry_ids(s.drop_last()) =~= entry_ids(s).drop_last());
        }
        lemma_map_remove(s.drop_last(), i);
        assert(entry_ids(s)[i] != entry_ids(s)[s.len() - 1]);
        assert(entries_map(t) =~= entries_map(s).remove(s[i].id@));
    }
}

proof fn lemma_no_dup_remove(ids: Seq<Seq<char>>, i: int)
    requires
        ids.no_duplicates(),
        0 <= i < ids.len(),
    ensures
        ids.remove(i).no_duplicates(),
{
    let t = ids.remove(i);
    assert forall|a: int, b: int|
        0 <= a < t.len() && 0 <= b < t.len() && a != b implies t[a] != t[b] by {
        let a0: int = if a < i { a } else { a + 1 };
        let b0: int = if b < i { b } else { b + 1 };
        assert(t[a] == ids[a0]);
        assert(t[b] == ids[b0]);
    }
}

/// Relies on str's PartialEq: equality of the two strings' characters.
#[verifier::external_body]
fn str_eq(a: &str, b: &str) -> (r: bool)
    ensures
        r == (a@ == b@),
{
    a == b
}

/// A backend whose store is a plain value in this process.
pub struct MemoryStorage {
    entries: Vec<Entry>,
}

impl MemoryStorage {
    /// An empty store.
    pub fn new() -> (s: Self)
        ensures
            s.inv(),
            s.objects() == Map::<Seq<char>, Seq<u8>>::empty(),
    {
        let s = MemoryStorage { entries: Vec::new() };
        proof {
            assert(entry_ids(s.entries@) =~= Seq::<Seq<char>>::empty());
        }
        s
    }

    /// The index of the entry with this id, if any.
    fn find(&self, file_id: &str) -> (r: Option<usize>)
        ensures
            r matches Some(i) ==> i < self.entries@.len() && self.entries@[i as int].id@
                == file_id@,
            r is None ==> forall|j: int|
                0 <= j < self.entries@.len() ==> entry_ids(self.entries@)[j] != file_id@,
    {
        let n = self.entries.len();
        let mut i: usize = 0;
        while i < n
            invariant
                n == self.entries@.len(),
                i <= n,
                forall|j: int| 0 <= j < i ==> entry_ids(self.entries@)[j] != file_id@,
            decreases n - i,
        {
            if str_eq(self.entries[i].id.as_str(), file_id) {
                return Some(i);
            }
            i = i + 1;
        }
        None
    }
}

impl Storage for MemoryStorage {
    closed spec fn objects(&self) -> Map<Seq<char>, Seq<u8>> {
        entries_map(self.entries@)
    }

    closed spec fn inv(&self) -> bool {
        entry_ids(self.entries@).no_duplicates()
    }

    fn list(&self) -> (r: Result<Vec<ObjectMetadata>, Error>)
        ensures
            r is Ok,
            r matches Ok(v) ==> forall|i: int|
                0 <= i < v@.len() ==> (#[trigger] v@[i]).name@ == v@[i].id@,
    {
        let n = self.entries.len();
        let mut v: Vec<ObjectMetadata> = Vec::new();
        let mut i: usize = 0;
        while i < n
            invariant
                n == self.entries@.len(),
                i <= n,
                v@.len() == i,
                forall|j: int| 0 <= j < i ==> (#[trigger] v@[j]).id@ == self.entries@[j].id@,
                forall|j: int| 0 <= j < i ==> (#[trigger] v@[j]).name@ == v@[j].id@,
                forall|j: int|
                    0 <= j < i ==> (#[trigger] v@[j]).size as nat
                        == self.entries@[j].data@.len(),
            decreases n - i,
        {
            let entry_id: &String = &self.entries[i].id;
            let size: u64 = self.entries[i].data.len() as u64;
            let m = ObjectMetadata::new(entry_id.as_str(), entry_id.as_str(), "", size);
            v.push(m);
            i = i + 1;
        }
        proof {
            assert(listed_ids(v@) =~= entry_ids(self.entries@));
            lemma_dom(self.entries@);
            assert forall|j: int| 0 <= j < v@.len() implies (#[trigger] v@[j]).size as nat
                == self.objects()[v@[j].id@].len() by {
                lemma_value_at(self.entries@, j);
            }
        }
        Ok(v)
    }

    fn create(&mut self, file_name: &str) -> (r: Result<String, Error>)
        ensures
            r matches Ok(id) && id@ == file_name@,
    {
        let found = self.find(file_name);
        let fresh = Entry { id: file_name.to_owned(), data: Vec::new() };
        let ghost snapshot = self.entries@;
        let ghost new_entry = fresh;
        match found {
            Some(i) => {
                self.entries.set(i, fresh);
                proof {
                    lemma_map_update(snapshot, i as int, new_entry);
                    assert(entry_ids(self.entries@) =~= entry_ids(snapshot));
                }
            }
            None => {
                self.entries.push(fresh);
                proof {
                    assert(self.entries@.drop_last() =~= snapshot);
                    assert(self.entries@.last() == new_entry);
                    assert(entry_ids(self.entries@) =~= entry_ids(snapshot).push(
                        new_entry.id@,
                    ));
                }
            }
        }
        Ok(file_name.to_owned())
    }

    fn get(&self, file_id: &str) -> (r: Result<Vec<u8>, Error>)
        ensures
            self.objects().contains_key(file_id@) ==> r is Ok,
            r matches Err(e) ==> e is NotFound,
    {
        match self.find(file_id) {
            Some(i) => {
                proof {
                    lemma_value_at(self.entries@, i as int);
                }
                Ok(vstd::slice::slice_to_vec(self.entries[i].data.as_slice()))
            }
            None => {
                proof {
                    lemma_not_contains(self.entries@, file_id@);
                }
                Err(Error::NotFound)
            }
        }
    }

    fn update(&mut self, file_id: &str, data: &[u8]) -> (r: Result<(), Error>)
        ensures
            old(self).objects().contains_key(file_id@) ==> r is Ok,
            r matches Err(e) ==> e is NotFound,
    {
        match self.find(file_id) {
            Some(i) => {
                let fresh = Entry {
                    id: self.entries[i].id.clone(),
                    data: vstd::slice::slice_to_vec(data),
                };
                let ghost snapshot = self.entries@;
                let ghost new_entry = fresh;
                proof {
                    lemma_contains_at(snapshot, i as int);
                }
                self.entries.set(i, fresh);
                proof {
                    lemma_map_update(snapshot, i as int, new_entry);
                    assert(entry_ids(self.entries@) =~= entry_ids(snapshot));
                }
                Ok(())
            }
            None => {
                proof {
                    lemma_not_contains(self.entries@, file_id@);
                }
                Err(Error::NotFound)
            }
        }
    }

    fn delete(&mut self, file_id: &str) -> (r: Result<(), Error>)
        ensures
            old(self).objects().contains_key(file_id@) ==> r is Ok,
            r matches Err(e) ==> e is NotFound,
    {
        match self.find(file_id) {
            Some(i) => {
                let ghost snapshot = self.entries@;
                proof {
                    lemma_contains_at(snapshot, i as int);
                }
                self.entries.remove(i);
                proof {
                    lemma_map_remove(snapshot, i as int);
                    assert(entry_ids(self.entries@) =~= entry_ids(snapshot).remove(i as int));
                    lemma_no_dup_remove(entry_ids(snapshot), i as int);
                }
                Ok(())
            }
            None => {
                proof {
                    lemma_not_contains(self.entries@, file_id@);
                }
                Err(Error::NotFound)
            }
        }
    }
}

} // verus!

