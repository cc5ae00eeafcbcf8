//! The keyed queue store: a mapping from transaction identifier to a boolean
//! "queued" flag. Absence means `false`; entries are never removed, their
//! flags toggle. Held as a vector of entries with pairwise-distinct keys.

use vstd::prelude::*;
use crate::ident::TxId;

verus! {

struct Entry {
    id: TxId,
    flag: bool,
}

/// Keyed store: identifier -> queued flag, with default `false` on a miss.
pub struct QueueStore {
    entries: Vec<Entry>,
}

impl QueueStore {
    /// The flag stored under `id`; `false` where no entry exists.
    pub closed spec fn flag_of(&self, id: Seq<u8>) -> bool {
        exists|i: int|
            0 <= i < self.entries@.len() && self.entries@[i].id@ == id && self.entries@[i].flag
    }

    /// The set of identifiers whose flag is `true`.
    pub open spec fn queued_set(&self) -> Set<Seq<u8>> {
        Set::new(|id: Seq<u8>| self.flag_of(id))
    }

    /// Entries carry pairwise-distinct identifiers.
    pub closed spec fn wf(&self) -> bool {
        forall|i: int, j: int|
            0 <= i < j < self.entries@.len() ==> self.entries@[i].id@ != self.entries@[j].id@
    }

    /// An empty store: every flag reads `false`.
    pub fn new() -> (r: QueueStore)
        ensures
            r.wf(),
            forall|id: Seq<u8>| !r.flag_of(id),
            r.queued_set() == Set::<Seq<u8>>::empty(),
    {
        let r = QueueStore { entries: Vec::new() };
        proof {
            assert(r.queued_set() =~= Set::<Seq<u8>>::empty());
        }
        r
    }

    /// Reads the flag stored under `id`.
    pub fn get(&self, id: &TxId) -> (r: bool)
        requires
            self.wf(),
        ensures
            r == self.flag_of(id@),
    {
        let n = self.entries.len();
        let mut i: usize = 0;
        while i < n
            invariant
                i <= n,
                n == self.entries@.len(),
                self.wf(),
                forall|j: int| 0 <= j < i ==> self.entries@[j].id@ != id@,
            decreases n - i,
        {
            if self.entries[i].id.eq_id(id) {
                let f = self.entries[i].flag;
                proof {
                    if f {
                        assert(self.flag_of(id@));
                    } else {
                        assert forall|k: int|
                            0 <= k < self.entries@.len() implies !(self.entries@[k].id@ == id@
                            && self.entries@[k].flag) by {
                            if k != i {
                                assert(self.entries@[k].id@ != self.entries@[i as int].id@);
                            }
                        }
                    }
                }
                return f;
            }
            i += 1;
        }
        proof {
            assert(!self.flag_of(id@));
        }
        false
    }

    /// Writes `flag` under `id`: overwrites the entry that carries `id`, or
    /// adds one. Every other identifier keeps its flag.
    pub fn set_flag(&mut self, id: TxId, flag: bool)
        requires
            old(self).wf(),
        ensures
            final(self).wf(),
            final(self).flag_of(id@) == flag,
            forall|x: Seq<u8>| x != id@ ==> final(self).flag_of(x) == old(self).flag_of(x),
            final(self).queued_set() == (if flag {
                old(self).queued_set().insert(id@)
            } else {
                old(self).queued_set().remove(id@)
            }),
    {
        let n = self.entries.len();
        let mut i: usize = 0;
        while i < n
            invariant
                i <= n,
                n == self.entries@.len(),
                *self == *old(self),
                self.wf(),
                forall|j: int| 0 <= j < i ==> self.entries@[j].id@ != id@,
            decreases n - i,
        {
            if self.entries[i].id.eq_id(&id) {
                self.entries[i] = Entry { id, flag };
                proof {
                    self.lemma_after_update(*old(self), i as int, flag);
                }
                return;
            }
            i += 1;
        }
        self.entries.push(Entry { id, flag });
        proof {
            self.lemma_after_push(*old(self), flag);
        }
    }

    /// After overwriting the entry at `i`, the flag under its identifier is
    /// `flag`, all other identifiers are untouched, and distinctness holds.
    proof fn lemma_after_update(&self, prev: QueueStore, i: int, flag: bool)
        requires
            prev.wf(),
            0 <= i < prev.entries@.len(),
            self.entries@ == prev.entries@.update(i, self.entries@[i]),
            self.entries@[i].id@ == prev.entries@[i].id@,
            self.entries@[i].flag == flag,
        ensures
            self.wf(),
            self.flag_of(self.entries@[i].id@) == flag,
            forall|x: Seq<u8>|
                x != self.entries@[i].id@ ==> self.flag_of(x) == prev.flag_of(x),
            self.queued_set() == (if flag {
                prev.queued_set().insert(self.entries@[i].id@)
            } else {
                prev.queued_set().remove(self.entries@[i].id@)
            }),
    {
        let id = self.entries@[i].id@;
        assert forall|p: int, q: int|
            0 <= p < q < self.entries@.len() implies self.entries@[p].id@
            != self.entries@[q].id@ by {
            assert(prev.entries@[p].id@ != prev.entries@[q].id@);
        }
        if flag {
            assert(self.flag_of(id));
        } else {
            assert forall|k: int|
                0 <= k < self.entries@.len() implies !(self.entries@[k].id@ == id
                && self.entries@[k].flag) by {
                if k != i {
                    assert(prev.entries@[k].id@ != prev.entries@[i].id@);
                }
            }
        }
        assert forall|x: Seq<u8>| x != id implies self.flag_of(x) == prev.flag_of(x) by {
            if self.flag_of(x) {
                let k = choose|k: int|
                    0 <= k < self.entries@.len() && self.entries@[k].id@ == x
                        && self.entries@[k].flag;
                assert(prev.entries@[k].id@ == x && prev.entries@[k].flag);
            }
            if prev.flag_of(x) {
                let k = choose|k: int|
                    0 <= k < prev.entries@.len() && prev.entries@[k].id@ == x
                        && prev.entries@[k].flag;
                assert(self.entries@[k].id@ == x && self.entries@[k].flag);
            }
        }
        if flag {
            assert(self.queued_set() =~= prev.queued_set().insert(id));
        } else {
            assert(self.queued_set() =~= prev.queued_set().remove(id));
        }
    }

    /// After appending an entry whose identifier no earlier entry carries,
    /// the flag under it is `flag`, all other identifiers are untouched, and
    /// distinctness holds.
    proof fn lemma_after_push(&self, prev: QueueStore, flag: bool)
        requires
            prev.wf(),
            self.entries@ == prev.entries@.push(self.entries@[self.entries@.len() - 1]),
            self.entries@[self.entries@.len() - 1].flag == flag,
            forall|j: int|
                0 <= j < prev.entries@.len() ==> prev.entries@[j].id@ != self.entries@[self.entries@.len()
                    - 1].id@,
        ensures
            self.wf(),
            self.flag_of(self.entries@[self.entries@.len() - 1].id@) == flag,
            forall|x: Seq<u8>|
                x != self.entries@[self.entries@.len() - 1].id@ ==> self.flag_of(x)
                    == prev.flag_of(x),
            self.queued_set() == (if flag {
                prev.queued_set().insert(self.entries@[self.entries@.len() - 1].id@)
            } else {
                prev.queued_set().remove(self.entries@[self.entries@.len() - 1].id@)
            }),
    {
        let last = self.entries@.len() - 1;
        let id = self.entries@[last].id@;
        assert forall|p: int, q: int|
            0 <= p < q < self.entries@.len() implies self.entries@[p].id@
            != self.entries@[q].id@ by {
            if q < last {
                assert(prev.entries@[p].id@ != prev.entries@[q].id@);
            } else {
                assert(prev.entries@[p].id@ != id);
            }
        }
        if flag {
            assert(self.entries@[last].id@ == id && self.entries@[last].flag);
            assert(self.flag_of(id));
        } else {
            assert forall|k: int|
                0 <= k < self.entries@.len() implies !(self.entries@[k].id@ == id
                && self.entries@[k].flag) by {
                if k < last {
                    assert(prev.entries@[k].id@ != id);
                }
            }
        }
        assert forall|x: Seq<u8>| x != id implies self.flag_of(x) == prev.flag_of(x) by {
            if self.flag_of(x) {
                let k = choose|k: int|
                    0 <= k < self.entries@.len() && self.entries@[k].id@ == x
                        && self.entries@[k].flag;
                assert(k < last);
                assert(prev.entries@[k].id@ == x && prev.entries@[k].flag);
            }
            if prev.flag_of(x) {
                let k = choose|k: int|
                    0 <= k < prev.entries@.len() && prev.entries@[k].id@ == x
                        && prev.entries@[k].flag;
                assert(self.entries@[k].id@ == x && self.entries@[k].flag);
            }
        }
        if flag {
            assert(self.queued_set() =~= prev.queued_set().insert(id));
        } else {
            assert(self.queued_set() =~= prev.queued_set().remove(id));
        }
    }
}

} // verus!
