//! The collider-handle to entity-identifier side-table.
//!
//! The physics engine reports contacts in terms of opaque collider handles.
//! A separate attachment pass records, once per collider, which entity owns
//! it; the contact adapter then resolves handles through this table. A handle
//! that has not been attached yet simply resolves to nothing.

use vstd::prelude::*;

verus! {

/// Maps collider handles to the entity identifiers that own them.
/// Each handle is attached at most once.
#[derive(Clone, Debug)]
pub struct HandleTable {
    /// Pairs of collider handle and owning entity identifier.
    pub entries: Vec<(u64, u64)>,
}

/// First entity recorded for `handle` in `entries`, if any.
pub open spec fn spec_lookup(entries: Seq<(u64, u64)>, handle: u64) -> Option<u64>
    decreases entries.len(),
{
    if entries.len() == 0 {
        None
    } else if entries[0].0 == handle {
        Some(entries[0].1)
    } else {
        spec_lookup(entries.drop_first(), handle)
    }
}

/// A lookup succeeds exactly when some entry carries the handle.
pub proof fn lemma_lookup_found(entries: Seq<(u64, u64)>, handle: u64, k: int)
    requires
        0 <= k < entries.len(),
        entries[k].0 == handle,
        forall|m: int| 0 <= m < k ==> (#[trigger] entries[m]).0 != handle,
    ensures
        spec_lookup(entries, handle) == Some(entries[k].1),
    decreases entries.len(),
{
    if k > 0 {
        assert forall|m: int| 0 <= m < k - 1 implies (#[trigger] entries.drop_first()[m]).0
            != handle by {
            assert(entries.drop_first()[m] == entries[m + 1]);
        }
        lemma_lookup_found(entries.drop_first(), handle, k - 1);
    }
}

/// A lookup fails exactly when no entry carries the handle.
pub proof fn lemma_lookup_absent(entries: Seq<(u64, u64)>, handle: u64)
    requires
        forall|m: int| 0 <= m < entries.len() ==> (#[trigger] entries[m]).0 != handle,
    ensures
        spec_lookup(entries, handle) is None,
    decreases entries.len(),
{
    if entries.len() > 0 {
        assert forall|m: int| 0 <= m < entries.drop_first().len() implies (
        #[trigger] entries.drop_first()[m]).0 != handle by {
            assert(entries.drop_first()[m] == entries[m + 1]);
        }
        lemma_lookup_absent(entries.drop_first(), handle);
    }
}

/// A lookup cannot fail while some entry carries the handle.
pub proof fn lemma_lookup_present(entries: Seq<(u64, u64)>, handle: u64, k: int)
    requires
        0 <= k < entries.len(),
        entries[k].0 == handle,
    ensures
        spec_lookup(entries, handle) is Some,
    decreases entries.len(),
{
    if entries[0].0 != handle {
        assert(entries.drop_first()[k - 1] == entries[k]);
        lemma_lookup_present(entries.drop_first(), handle, k - 1);
    }
}

impl HandleTable {
    /// An empty table.
    pub fn new() -> (t: HandleTable)
        ensures
            t.entries@ == Seq::<(u64, u64)>::empty(),
    {
        HandleTable { entries: Vec::new() }
    }

    /// Resolves a collider handle to the entity that owns it, if one was
    /// attached.
    pub fn lookup(&self, handle: u64) -> (r: Option<u64>)
        ensures
            r == spec_lookup(self.entries@, handle),
    {
        let n = self.entries.len();
        let mut i: usize = 0;
        while i < n
            invariant
                n == self.entries@.len(),
                0 <= i <= n,
                forall|m: int| 0 <= m < i ==> (#[trigger] self.entries@[m]).0 != handle,
            decreases n - i,
        {
            let (h, e) = self.entries[i];
            if h == handle {
                proof {
                    lemma_lookup_found(self.entries@, handle, i as int);
                }
                return Some(e);
            }
            i = i + 1;
        }
        proof {
            lemma_lookup_absent(self.entries@, handle);
        }
        None
    }

    /// Records `entity` as the owner of `handle`. A handle that already has
    /// an owner keeps it: attachment happens at most once per collider.
    pub fn attach(&mut self, handle: u64, entity: u64)
        ensures
            spec_lookup(old(self).entries@, handle) is Some ==> final(self).entries@ == old(
                self,
            ).entries@,
            spec_lookup(old(self).entries@, handle) is None ==> final(self).entries@ == old(
                self,
            ).entries@.push((handle, entity)),
            spec_lookup(final(self).entries@, handle) == match spec_lookup(
                old(self).entries@,
                handle,
            ) {
                Some(e) => Some(e),
                None => Some(entity),
            },
    {
        let existing = self.lookup(handle);
        if existing.is_none() {
            self.entries.push((handle, entity));
            proof {
                let entries = self.entries@;
                let k = entries.len() - 1;
                assert(entries[k] == (handle, entity));
                assert forall|m: int| 0 <= m < k implies (#[trigger] entries[m]).0 != handle by {
                    assert(entries[m] == old(self).entries@[m]);
                    if entries[m].0 == handle {
                        lemma_lookup_present(old(self).entries@, handle, m);
                    }
                }
                lemma_lookup_found(entries, handle, k);
            }
        }
    }
}

} // verus!
