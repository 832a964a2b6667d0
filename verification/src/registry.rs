//! The session registry: a map from session key to the handle of the one
//! live process of that session. The registry holds at most one entry per
//! key; a second request for a running session displaces the old handle and
//! hands it back so the caller can terminate it (supersede, never leak).
//!
//! The surrounding application guards one shared registry with a lock held
//! only for the duration of a single operation here, never across process
//! waits or output draining.

use vstd::prelude::*;
use crate::text::str_eq;

verus! {

/// One tracked process: the session key and an opaque handle by which the
/// surrounding application identifies the OS process.
pub struct SessionEntry {
    pub key: String,
    pub handle: u64,
}

/// The process-wide registry of live processes, at most one per session key.
pub struct SessionRegistry {
    pub entries: Vec<SessionEntry>,
}

impl SessionRegistry {
    /// Well-formed: no session key occurs twice.
    pub open spec fn wf(self) -> bool {
        forall|i: int, j: int|
            0 <= i < j < self.entries@.len() ==> (#[trigger] self.entries@[i].key@) != (
            #[trigger] self.entries@[j].key@)
    }

    /// How many sessions currently have a tracked process.
    pub open spec fn spec_len(self) -> nat {
        self.entries@.len()
    }

    /// Whether the session currently has a tracked process.
    pub open spec fn spec_contains(self, k: Seq<char>) -> bool {
        exists|i: int|
            0 <= i < self.entries@.len() && (#[trigger] self.entries@[i].key@) == k
    }

    /// The position of the session's entry.
    pub open spec fn index_of(self, k: Seq<char>) -> int {
        choose|i: int|
            0 <= i < self.entries@.len() && (#[trigger] self.entries@[i].key@) == k
    }

    /// The handle tracked for the session.
    pub open spec fn spec_handle(self, k: Seq<char>) -> u64 {
        self.entries@[self.index_of(k)].handle
    }

    /// In a well-formed registry an entry's position is determined by its
    /// key: at most one tracked process per session at any time.
    pub proof fn lemma_at_most_one_per_session(self, k: Seq<char>, i: int, j: int)
        requires
            self.wf(),
            0 <= i < self.entries@.len(),
            0 <= j < self.entries@.len(),
            self.entries@[i].key@ == k,
            self.entries@[j].key@ == k,
        ensures
            i == j,
            self.index_of(k) == i,
    {
        assert(self.spec_contains(k));
    }

    /// An empty registry: nothing is tracked.
    pub fn new() -> (r: SessionRegistry)
        ensures
            r.wf(),
            r.spec_len() == 0,
            forall|k: Seq<char>| !r.spec_contains(k),
    {
        SessionRegistry { entries: Vec::new() }
    }

    /// The position of the session's entry, if it has one.
    fn find(&self, key: &str) -> (r: Option<usize>)
        ensures
            match r {
                Some(i) => i < self.entries@.len() && self.entries@[i as int].key@ == key@,
                None => !self.spec_contains(key@),
            },
    {
        let n = self.entries.len();
        let mut i: usize = 0;
        while i < n
            invariant
                n == self.entries@.len(),
                i <= n,
                forall|j: int| 0 <= j < i ==> (#[trigger] self.entries@[j].key@) != key@,
            decreases n - i,
        {
            let e: &SessionEntry = &self.entries[i];
            if str_eq(e.key.as_str(), key) {
                return Some(i);
            }
            i += 1;
        }
        None
    }

    /// Whether the session currently has a tracked process.
    pub fn has_process(&self, key: &str) -> (r: bool)
        ensures
            r == self.spec_contains(key@),
    {
        match self.find(key) {
            Some(_) => true,
            None => false,
        }
    }

    /// Tracks a process for the session. If the session already had one, the
    /// new handle silently takes its place and the displaced handle is
    /// returned, so the caller can terminate the superseded process rather
    /// than leak it; with no prior process the result is `None`.
    pub fn insert(&mut self, key: String, handle: u64) -> (displaced: Option<u64>)
        requires
            old(self).wf(),
        ensures
            final(self).wf(),
            final(self).spec_contains(key@),
            final(self).spec_handle(key@) == handle,
            forall|k: Seq<char>|
                k != key@ ==> final(self).spec_contains(k) == old(self).spec_contains(k),
            forall|k: Seq<char>|
                k != key@ && old(self).spec_contains(k) ==> final(self).spec_handle(k) == old(
                    self,
                ).spec_handle(k),
            match displaced {
                Some(h) => old(self).spec_contains(key@) && h == old(self).spec_handle(key@)
                    && final(self).spec_len() == old(self).spec_len(),
                None => !old(self).spec_contains(key@) && final(self).spec_len() == old(
                    self,
                ).spec_len() + 1,
            },
    {
        let ghost prev = *self;
        match self.find(&key.as_str()) {
            Some(i) => {
                let ghost k0 = key@;
                let old_handle = self.entries[i].handle;
                let e = &mut self.entries[i];
                e.key = key;
                e.handle = handle;
                proof {
                    prev.lemma_at_most_one_per_session(k0, i as int, i as int);
                    assert(old_handle == prev.spec_handle(k0));
                    Self::lemma_update_preserves(prev, *self, i as int, k0);
                }
                Some(old_handle)
            },
            None => {
                let ghost k0 = key@;
                self.entries.push(SessionEntry { key, handle });
                proof {
                    let n = prev.entries@.len() as int;
                    assert(self.entries@[n].key@ == k0);
                    assert(self.spec_contains(k0));
                    self.lemma_at_most_one_per_session(k0, n, n);
                    assert forall|k: Seq<char>| k != k0 implies self.spec_contains(k)
                        == prev.spec_contains(k) by {
                        if self.spec_contains(k) {
                            let j = choose|j: int|
                                0 <= j < self.entries@.len() && (#[trigger] self.entries@[j].key@)
                                    == k;
                            assert(j < n);
                            assert(prev.entries@[j].key@ == k);
                        }
                        if prev.spec_contains(k) {
                            let j = choose|j: int|
                                0 <= j < prev.entries@.len() && (#[trigger] prev.entries@[j].key@)
                                    == k;
                            assert(self.entries@[j].key@ == k);
                        }
                    }
                    assert forall|k: Seq<char>| k != k0 && prev.spec_contains(k) implies self
                        .spec_handle(k) == prev.spec_handle(k) by {
                        let j = choose|j: int|
                            0 <= j < prev.entries@.len() && (#[trigger] prev.entries@[j].key@)
                                == k;
                        self.lemma_at_most_one_per_session(k, j, j);
                        prev.lemma_at_most_one_per_session(k, j, j);
                    }
                }
                None
            },
        }
    }

    /// Replacing the entry at `i` with one for the same key keeps every other
    /// session's tracking unchanged.
    proof fn lemma_update_preserves(prev: Self, cur: Self, i: int, k0: Seq<char>)
        requires
            prev.wf(),
            0 <= i < prev.entries@.len(),
            prev.entries@[i].key@ == k0,
            cur.entries@.len() == prev.entries@.len(),
            cur.entries@[i].key@ == k0,
            forall|j: int|
                0 <= j < prev.entries@.len() && j != i ==> cur.entries@[j]
                    == prev.entries@[j],
        ensures
            cur.wf(),
            cur.spec_contains(k0),
            cur.spec_handle(k0) == cur.entries@[i].handle,
            forall|k: Seq<char>| k != k0 ==> cur.spec_contains(k) == prev.spec_contains(k),
            forall|k: Seq<char>|
                k != k0 && prev.spec_contains(k) ==> cur.spec_handle(k) == prev.spec_handle(k),
    {
        assert forall|a: int, b: int| 0 <= a < b < cur.entries@.len() implies (
        #[trigger] cur.entries@[a].key@) != (#[trigger] cur.entries@[b].key@) by {
            assert(prev.entries@[a].key@ != prev.entries@[b].key@);
            if a != i && b != i {
            } else if a == i {
                assert(cur.entries@[b] == prev.entries@[b]);
            } else {
                assert(cur.entries@[a] == prev.entries@[a]);
            }
        }
        assert(cur.spec_contains(k0));
        cur.lemma_at_most_one_per_session(k0, i, i);
        assert forall|k: Seq<char>| k != k0 implies cur.spec_contains(k) == prev.spec_contains(
            k,
        ) by {
            if cur.spec_contains(k) {
                let j = choose|j: int|
                    0 <= j < cur.entries@.len() && (#[trigger] cur.entries@[j].key@) == k;
                assert(j != i);
                assert(prev.entries@[j].key@ == k);
            }
            if prev.spec_contains(k) {
                let j = choose|j: int|
                    0 <= j < prev.entries@.len() && (#[trigger] prev.entries@[j].key@) == k;
                assert(j != i);
                assert(cur.entries@[j].key@ == k);
            }
        }
        assert forall|k: Seq<char>| k != k0 && prev.spec_contains(k) implies cur.spec_handle(k)
            == prev.spec_handle(k) by {
            let j = choose|j: int|
                0 <= j < prev.entries@.len() && (#[trigger] prev.entries@[j].key@) == k;
            assert(j != i);
            assert(cur.entries@[j].key@ == k);
            cur.lemma_at_most_one_per_session(k, j, j);
            prev.lemma_at_most_one_per_session(k, j, j);
        }
    }

    /// Stops tracking the session and returns ownership of its handle. On a
    /// session with no tracked process this returns `None` and changes
    /// nothing, so repeated stops report "not found" again without error.
    pub fn remove(&mut self, key: &str) -> (r: Option<u64>)
        requires
            old(self).wf(),
        ensures
            final(self).wf(),
            !final(self).spec_contains(key@),
            forall|k: Seq<char>|
                k != key@ ==> final(self).spec_contains(k) == old(self).spec_contains(k),
            forall|k: Seq<char>|
                k != key@ && old(self).spec_contains(k) ==> final(self).spec_handle(k) == old(
                    self,
                ).spec_handle(k),
            match r {
                Some(h) => old(self).spec_contains(key@) && h == old(self).spec_handle(key@)
                    && final(self).spec_len() == old(self).spec_len() - 1,
                None => !old(self).spec_contains(key@) && *final(self) == *old(self),
            },
    {
        let ghost prev = *self;
        match self.find(key) {
            Some(i) => {
                let entry = self.entries.remove(i);
                proof {
                    prev.lemma_at_most_one_per_session(key@, i as int, i as int);
                    Self::lemma_remove_preserves(prev, *self, i as int, key@);
                }
                Some(entry.handle)
            },
            None => None,
        }
    }

    /// Removing the entry at `i` untracks exactly that key and keeps every
    /// other session's tracking unchanged.
    proof fn lemma_remove_preserves(prev: Self, cur: Self, i: int, k0: Seq<char>)
        requires
            prev.wf(),
            0 <= i < prev.entries@.len(),
            prev.entries@[i].key@ == k0,
            cur.entries@ == prev.entries@.remove(i),
        ensures
            cur.wf(),
            !cur.spec_contains(k0),
            forall|k: Seq<char>| k != k0 ==> cur.spec_contains(k) == prev.spec_contains(k),
            forall|k: Seq<char>|
                k != k0 && prev.spec_contains(k) ==> cur.spec_handle(k) == prev.spec_handle(k),
    {
        let pre = prev.entries@;
        let post = cur.entries@;
        assert(post.len() == pre.len() - 1);
        assert forall|j: int| 0 <= j < post.len() implies post[j] == (if j < i {
            pre[j]
        } else {
            pre[j + 1]
        }) by {}
        assert forall|a: int, b: int| 0 <= a < b < post.len() implies (
        #[trigger] post[a].key@) != (#[trigger] post[b].key@) by {
            let a0 = if a < i { a } else { a + 1 };
            let b0 = if b < i { b } else { b + 1 };
            assert(pre[a0].key@ != pre[b0].key@);
        }
        if cur.spec_contains(k0) {
            let j = choose|j: int| 0 <= j < post.len() && (#[trigger] post[j].key@) == k0;
            let j0 = if j < i { j } else { j + 1 };
            assert(pre[j0].key@ == k0);
            prev.lemma_at_most_one_per_session(k0, j0, i);
            assert(false);
        }
        assert forall|k: Seq<char>| k != k0 implies cur.spec_contains(k) == prev.spec_contains(
            k,
        ) by {
            if cur.spec_contains(k) {
                let j = choose|j: int| 0 <= j < post.len() && (#[trigger] post[j].key@) == k;
                let j0 = if j < i { j } else { j + 1 };
                assert(pre[j0].key@ == k);
            }
            if prev.spec_contains(k) {
                let j0 = choose|j0: int| 0 <= j0 < pre.len() && (#[trigger] pre[j0].key@) == k;
                assert(j0 != i);
                let j = if j0 < i { j0 } else { j0 - 1 };
                assert(post[j].key@ == k);
            }
        }
        assert forall|k: Seq<char>| k != k0 && prev.spec_contains(k) implies cur.spec_handle(k)
            == prev.spec_handle(k) by {
            let j0 = choose|j0: int| 0 <= j0 < pre.len() && (#[trigger] pre[j0].key@) == k;
            assert(j0 != i);
            let j = if j0 < i { j0 } else { j0 - 1 };
            assert(post[j].key@ == k);
            cur.lemma_at_most_one_per_session(k, j, j);
            prev.lemma_at_most_one_per_session(k, j0, j0);
        }
    }
}

} // verus!
