//! Synchronization groups.
//!
//! A synchronization group represents a domain of mutual-exclusion and
//! ordering guarantees shared by one or more object sets. This layer needs
//! nothing of a group but its identity: the builder compares groups to reject
//! views that would straddle two independent synchronization domains. The
//! actual ordering machinery lives with the external execution-compilation
//! stage.

use vstd::prelude::*;

use crate::id::{GlobalId, GlobalIdSource};

verus! {

/// An equality-comparable handle for one synchronization domain.
#[derive(Clone, Copy, PartialEq, Eq, Structural, Debug)]
pub struct SynchronizationGroup {
    id: GlobalId,
}

impl SynchronizationGroup {
    pub closed spec fn spec_id(&self) -> GlobalId {
        self.id
    }

    /// Creates a new group with a fresh identity: it is equal to no group
    /// created before or after it.
    pub fn new(source: &mut GlobalIdSource) -> (r: Self)
        requires
            old(source).wf(),
            old(source).spec_next() < u64::MAX,
        ensures
            r.spec_id().wf(),
            r.spec_id().spec_raw() == old(source).spec_next(),
            final(source).wf(),
            final(source).spec_next() == old(source).spec_next() + 1,
            final(source).issued() == old(source).issued().insert(r.spec_id().spec_raw()),
    {
        SynchronizationGroup { id: GlobalId::new(source) }
    }

    /// Returns the identity of the group.
    pub fn get_id(&self) -> (r: GlobalId)
        ensures
            r == self.spec_id(),
    {
        self.id
    }
}

} // verus!
