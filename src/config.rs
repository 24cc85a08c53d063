use vstd::prelude::*;

verus! {

/// Keys that begin with two underscores belong to the store itself: they can be
/// read, and loaded from disk, but never set or unset through `set` / `unset`.
pub open spec fn is_reserved(key: Seq<char>) -> bool {
    key.len() >= 2 && key[0] == '_' && key[1] == '_'
}

/// The value stored under `key`, or `default` where there is none.
pub open spec fn value_or(
    m: Map<Seq<char>, Seq<char>>,
    key: Seq<char>,
    default: Seq<char>,
) -> Seq<char> {
    if m.contains_key(key) {
        m[key]
    } else {
        default
    }
}

/// Why the store refused a change.
#[derive(Debug, Clone, Copy, PartialEq, Eq, Structural)]
pub enum ConfigError {
    /// The key lies in the reserved namespace.
    PermissionDenied,
}

/// The abstract form of a [`StoreChange`].
pub enum Change {
    Put(Seq<char>, Seq<char>),
    Remove(Seq<char>),
}

/// A change to the store that the owner of the backing files still has to make
/// durable, in the order in which the changes were made.
#[derive(Debug, PartialEq, Eq)]
pub enum StoreChange {
    Put { key: String, value: String },
    Remove { key: String },
}

impl View for StoreChange {
    type V = Change;

    open spec fn view(&self) -> Change {
        match self {
            StoreChange::Put { key, value } => Change::Put(key@, value@),
            StoreChange::Remove { key } => Change::Remove(key@),
        }
    }
}

/// A namespaced key/value store of strings with a reserved-key policy.
///
/// The store keeps the current contents in memory and records every change in
/// a journal (`take_pending`) for whoever writes the backing files.
pub struct ConfigStore {
    entries: Vec<(String, String)>,
    pending: Vec<StoreChange>,
    contents: Ghost<Map<Seq<char>, Seq<char>>>,
}

impl ConfigStore {
    /// Keys are unique, and the ghost contents agree with the entries.
    pub closed spec fn wf(&self) -> bool {
        &&& forall|i: int, j: int|
            0 <= i < j < self.entries@.len() ==> self.entries@[i].0@ != self.entries@[j].0@
        &&& forall|i: int|
            #![trigger self.entries@[i]]
            0 <= i < self.entries@.len() ==> {
                &&& self.contents@.contains_key(self.entries@[i].0@)
                &&& self.contents@[self.entries@[i].0@] == self.entries@[i].1@
            }
        &&& forall|k: Seq<char>|
            #[trigger] self.contents@.contains_key(k) ==> exists|i: int|
                0 <= i < self.entries@.len() && #[trigger] self.entries@[i].0@ == k
    }

    /// What the store holds, key by key.
    pub closed spec fn view(&self) -> Map<Seq<char>, Seq<char>> {
        self.contents@
    }

    /// The changes recorded since the journal was last taken.
    pub closed spec fn pending(&self) -> Seq<Change> {
        self.pending@.map_values(|c: StoreChange| c@)
    }

    /// An empty store with an empty journal.
    pub fn new() -> (r: ConfigStore)
        ensures
            r.wf(),
            r.view() == Map::<Seq<char>, Seq<char>>::empty(),
            r.pending() == Seq::<Change>::empty(),
    {
        let r = ConfigStore { entries: Vec::new(), pending: Vec::new(), contents: Ghost(Map::empty()) };
        assert(r.pending@.map_values(|c: StoreChange| c@) =~= Seq::<Change>::empty());
        r
    }

    /// Whether `key` lies in the reserved namespace.
    pub fn is_reserved_key(key: &str) -> (r: bool)
        ensures
            r == is_reserved(key@),
    {
        let n = key.unicode_len();
        n >= 2 && key.get_char(0) == '_' && key.get_char(1) == '_'
    }

    fn find(&self, key: &String) -> (r: Option<usize>)
        requires
            self.wf(),
        ensures
            match r {
                Some(i) => i < self.entries@.len() && self.entries@[i as int].0@ == key@,
                None => !self.view().contains_key(key@),
            },
    {
        let mut i: usize = 0;
        while i < self.entries.len()
            invariant
                i <= self.entries@.len(),
                forall|j: int| 0 <= j < i ==> self.entries@[j].0@ != key@,
            decreases self.entries@.len() - i,
        {
            if self.entries[i].0 == *key {
                return Some(i);
            }
            i = i + 1;
        }
        proof {
            if self.contents@.contains_key(key@) {
                let j = choose|j: int| 0 <= j < self.entries@.len() && self.entries@[j].0@ == key@;
                assert(self.entries@[j].0@ == key@);
            }
        }
        None
    }

    /// The value under `key`; a missing key is no error.
    pub fn get(&self, key: &str) -> (r: Option<String>)
        requires
            self.wf(),
        ensures
            match r {
                Some(v) => self.view().contains_key(key@) && v@ == self.view()[key@],
                None => !self.view().contains_key(key@),
            },
    {
        let k = key.to_owned();
        match self.find(&k) {
            Some(i) => {
                assert(self.entries@[i as int].0@ == key@);
                Some(self.entries[i].1.clone())
            },
            None => None,
        }
    }

    /// The value under `key`, or `default` where there is none.
    pub fn get_or(&self, key: &str, default: &str) -> (r: String)
        requires
            self.wf(),
        ensures
            r@ == value_or(self.view(), key@, default@),
    {
        match self.get(key) {
            Some(v) => v,
            None => default.to_owned(),
        }
    }

    /// Puts `value` under `key`, whatever the key, without recording a change:
    /// this is how contents already on disk come back into memory.
    pub fn restore(&mut self, key: String, value: String)
        requires
            old(self).wf(),
        ensures
            final(self).wf(),
            final(self).view() == old(self).view().insert(key@, value@),
            final(self).pending() == old(self).pending(),
    {
        self.put(key, value);
    }

    fn put(&mut self, key: String, value: String)
        requires
            old(self).wf(),
        ensures
            final(self).wf(),
            final(self).view() == old(self).view().insert(key@, value@),
            final(self).pending@ == old(self).pending@,
    {
        let ghost old_entries = self.entries@;
        let ghost m = self.contents@.insert(key@, value@);
        match self.find(&key) {
            Some(i) => {
                self.entries.remove(i);
                self.entries.insert(i, (key, value));
                proof {
                    assert(self.entries@ =~= old_entries.update(i as int, self.entries@[i as int]));
                    self.contents = Ghost(m);
                    assert forall|k: Seq<char>| #[trigger] m.contains_key(k) implies exists|j: int|
                        0 <= j < self.entries@.len() && #[trigger] self.entries@[j].0@ == k by {
                        if k != self.entries@[i as int].0@ {
                            let j = choose|j: int|
                                0 <= j < old_entries.len() && #[trigger] old_entries[j].0@ == k;
                            assert(self.entries@[j].0@ == k);
                        }
                    }
                }
            },
            None => {
                self.entries.push((key, value));
                proof {
                    self.contents = Ghost(m);
                    let n = old_entries.len() as int;
                    assert(self.entries@[n].0@ == key@);
                    assert forall|k: Seq<char>| #[trigger] m.contains_key(k) implies exists|j: int|
                        0 <= j < self.entries@.len() && #[trigger] self.entries@[j].0@ == k by {
                        if k != key@ {
                            let j = choose|j: int|
                                0 <= j < old_entries.len() && #[trigger] old_entries[j].0@ == k;
                            assert(self.entries@[j] == old_entries[j]);
                        }
                    }
                }
            },
        }
    }

    /// Sets `key` to `value` and records the change. A reserved key is refused
    /// and leaves the store as it was.
    pub fn set(&mut self, key: &str, value: &str) -> (r: Result<(), ConfigError>)
        requires
            old(self).wf(),
        ensures
            final(self).wf(),
            is_reserved(key@) ==> r == Err::<(), ConfigError>(ConfigError::PermissionDenied)
                && final(self).view() == old(self).view() && final(self).pending() == old(self).pending(),
            !is_reserved(key@) ==> r is Ok && final(self).view() == old(self).view().insert(key@, value@)
                && final(self).pending() == old(self).pending().push(Change::Put(key@, value@)),
    {
        if ConfigStore::is_reserved_key(key) {
            return Err(ConfigError::PermissionDenied);
        }
        self.put(key.to_owned(), value.to_owned());
        self.record(StoreChange::Put { key: key.to_owned(), value: value.to_owned() });
        Ok(())
    }

    fn record(&mut self, c: StoreChange)
        requires
            old(self).wf(),
        ensures
            final(self).wf(),
            final(self).view() == old(self).view(),
            final(self).pending() == old(self).pending().push(c@),
    {
        self.pending.push(c);
        assert(self.entries@ == old(self).entries@);
        assert(self.pending@.map_values(|c: StoreChange| c@) =~= old(self).pending@.map_values(
            |c: StoreChange| c@,
        ).push(c@));
    }

    /// Removes `key`, if present, and records the change. A reserved key is
    /// refused and leaves the store as it was.
    pub fn unset(&mut self, key: &str) -> (r: Result<(), ConfigError>)
        requires
            old(self).wf(),
        ensures
            final(self).wf(),
            is_reserved(key@) ==> r == Err::<(), ConfigError>(ConfigError::PermissionDenied)
                && final(self).view() == old(self).view() && final(self).pending() == old(self).pending(),
            !is_reserved(key@) ==> r is Ok && final(self).view() == old(self).view().remove(key@)
                && final(self).pending() == old(self).pending().push(Change::Remove(key@)),
    {
        if ConfigStore::is_reserved_key(key) {
            return Err(ConfigError::PermissionDenied);
        }
        self.delete(&key.to_owned());
        self.record(StoreChange::Remove { key: key.to_owned() });
        Ok(())
    }

    fn delete(&mut self, key: &String)
        requires
            old(self).wf(),
        ensures
            final(self).wf(),
            final(self).view() == old(self).view().remove(key@),
            final(self).pending@ == old(self).pending@,
    {
        let ghost old_entries = self.entries@;
        let ghost m = self.contents@.remove(key@);
        match self.find(key) {
            Some(i) => {
                self.entries.remove(i);
                proof {
                    self.contents = Ghost(m);
                    assert forall|j: int| 0 <= j < self.entries@.len() implies
                        #[trigger] self.entries@[j] == (if j < i { old_entries[j] } else { old_entries[j + 1] })
                        by {}
                    assert forall|k: Seq<char>| #[trigger] m.contains_key(k) implies exists|j: int|
                        0 <= j < self.entries@.len() && #[trigger] self.entries@[j].0@ == k by {
                        let j = choose|j: int|
                            0 <= j < old_entries.len() && #[trigger] old_entries[j].0@ == k;
                        if j < i {
                            assert(self.entries@[j] == old_entries[j]);
                        } else {
                            assert(j != i);
                            assert(self.entries@[j - 1] == old_entries[j]);
                        }
                    }
                }
            },
            None => {
                proof {
                    assert(m =~= self.contents@);
                }
            },
        }
    }

    /// Hands out the recorded changes, oldest first, and empties the journal.
    pub fn take_pending(&mut self) -> (r: Vec<StoreChange>)
        requires
            old(self).wf(),
        ensures
            final(self).wf(),
            r@.map_values(|c: StoreChange| c@) == old(self).pending(),
            final(self).pending() == Seq::<Change>::empty(),
            final(self).view() == old(self).view(),
    {
        let mut r: Vec<StoreChange> = Vec::new();
        r.append(&mut self.pending);
        assert(self.entries@ == old(self).entries@);
        assert(r@ =~= old(self).pending@);
        assert(self.pending@.map_values(|c: StoreChange| c@) =~= Seq::<Change>::empty());
        r
    }
}

/// Setting a key that is not reserved and then reading it gives back the
/// value set, whatever the store held before.
pub proof fn lemma_set_then_get(before: ConfigStore, after: ConfigStore, key: Seq<char>, value: Seq<char>)
    requires
        !is_reserved(key),
        after.view() == before.view().insert(key, value),
    ensures
        after.view().contains_key(key),
        after.view()[key] == value,
{
}

} // verus!
