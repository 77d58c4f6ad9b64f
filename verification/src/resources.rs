//! Registry mapping integer ids to typed, host-owned resources.
//!
//! The table is the sole owner of every resource it holds; guest code only
//! ever sees the integer id. Ids are allocated monotonically and are never
//! reissued after a close: a closed id is terminal, so a stale id can never
//! silently reach a newer resource. The table itself is sequential; the
//! embedding session guards it with one mutual-exclusion critical section
//! acquired per operation, never held across a suspension point.

use vstd::prelude::*;
use crate::errors::OpError;

verus! {

/// The first id the table hands out; 0 never names a resource.
pub const FIRST_RESOURCE_ID: u32 = 1;

/// Registry of host-owned resources. Each live slot carries a kind label,
/// used only to detect access under the wrong kind, and the resource itself.
pub struct ResourceTable<R> {
    entries: Vec<Option<(String, R)>>,
}

impl<R> ResourceTable<R> {
    spec fn slot_live(self, id: u32) -> bool {
        &&& FIRST_RESOURCE_ID <= id
        &&& id - FIRST_RESOURCE_ID < self.entries@.len()
        &&& self.entries@[id - FIRST_RESOURCE_ID] is Some
    }

    /// The live entries: each id maps to its kind label and resource.
    pub closed spec fn contents(self) -> Map<u32, (Seq<char>, R)> {
        Map::new(
            |id: u32| self.slot_live(id),
            |id: u32|
                (
                    self.entries@[id - FIRST_RESOURCE_ID].unwrap().0@,
                    self.entries@[id - FIRST_RESOURCE_ID].unwrap().1,
                ),
        )
    }

    /// How many ids have ever been allocated; closing never lowers it.
    pub closed spec fn allocated(self) -> nat {
        self.entries@.len()
    }

    /// The id the next `add` will return.
    pub open spec fn next_id(self) -> int {
        FIRST_RESOURCE_ID + self.allocated()
    }

    pub fn new() -> (t: ResourceTable<R>)
        ensures
            t.contents() == Map::<u32, (Seq<char>, R)>::empty(),
            t.allocated() == 0,
    {
        let t = ResourceTable { entries: Vec::new() };
        proof {
            assert(t.contents() =~= Map::<u32, (Seq<char>, R)>::empty());
        }
        t
    }

    /// How many ids have ever been allocated, as a value the embedder can
    /// test against the id headroom `add` asks for.
    pub fn allocations(&self) -> (n: usize)
        ensures
            n == self.allocated(),
    {
        self.entries.len()
    }

    /// Allocates a fresh id, one that neither is nor ever was live, and takes
    /// ownership of `resource` under it.
    pub fn add(&mut self, kind: &str, resource: R) -> (id: u32)
        requires
            old(self).next_id() < u32::MAX,
        ensures
            id == old(self).next_id(),
            !old(self).contents().dom().contains(id),
            final(self).contents() == old(self).contents().insert(id, (kind@, resource)),
            final(self).allocated() == old(self).allocated() + 1,
    {
        let id = FIRST_RESOURCE_ID + (self.entries.len() as u32);
        self.entries.push(Some((kind.to_owned(), resource)));
        proof {
            assert(self.contents() =~= old(self).contents().insert(id, (kind@, resource)));
        }
        id
    }

    /// Returns the resource exactly when `id` is live with the expected
    /// kind; absence or a kind mismatch is a reported bad-resource
    /// condition, never a fault.
    pub fn get<'a>(&'a self, id: u32, kind: &str) -> (r: Result<&'a R, OpError>)
        ensures
            r is Ok <==> (self.contents().dom().contains(id) && self.contents()[id].0 == kind@),
            match r {
                Ok(res) => *res == self.contents()[id].1,
                Err(e) => e.is_bad_resource(),
            },
    {
        if id < FIRST_RESOURCE_ID {
            return Err(OpError::bad_resource());
        }
        let idx = (id - FIRST_RESOURCE_ID) as usize;
        if idx >= self.entries.len() {
            return Err(OpError::bad_resource());
        }
        let expected = kind.to_owned();
        match &self.entries[idx] {
            Some(pair) => {
                if pair.0 == expected {
                    Ok(&pair.1)
                } else {
                    Err(OpError::bad_resource())
                }
            },
            None => Err(OpError::bad_resource()),
        }
    }

    /// Removes and releases the entry if present, reporting whether anything
    /// was actually removed: double-close and close of a never-added id
    /// report `false`, never a fault. The id is terminal afterwards; it is
    /// never reissued.
    pub fn close(&mut self, id: u32) -> (removed: bool)
        ensures
            removed == old(self).contents().dom().contains(id),
            final(self).contents() == old(self).contents().remove(id),
            final(self).allocated() == old(self).allocated(),
    {
        if id < FIRST_RESOURCE_ID {
            proof {
                assert(self.contents() =~= old(self).contents().remove(id));
            }
            return false;
        }
        let idx = (id - FIRST_RESOURCE_ID) as usize;
        if idx >= self.entries.len() {
            proof {
                assert(self.contents() =~= old(self).contents().remove(id));
            }
            return false;
        }
        let removed = self.entries[idx].is_some();
        self.entries[idx] = None;
        proof {
            assert(self.contents() =~= old(self).contents().remove(id));
        }
        removed
    }
}

/// Add, then close, then look up: the closed id is absent from the table's
/// contents, so the lookup reports bad-resource rather than reaching any
/// resource.
pub proof fn lemma_add_close_leaves_id_absent<R>(
    m: Map<u32, (Seq<char>, R)>,
    id: u32,
    v: (Seq<char>, R),
)
    ensures
        !m.insert(id, v).remove(id).dom().contains(id),
{
}

/// Two successive allocations always yield distinct ids, whatever else the
/// table holds.
pub proof fn lemma_successive_ids_distinct<R>(
    t0: ResourceTable<R>,
    t1: ResourceTable<R>,
    id1: u32,
    id2: u32,
)
    requires
        id1 == t0.next_id(),
        t1.allocated() == t0.allocated() + 1,
        id2 == t1.next_id(),
    ensures
        id1 != id2,
{
}

} // verus!
