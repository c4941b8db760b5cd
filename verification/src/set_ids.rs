//! Composite ids addressing resources inside an object set.
//!
//! A resource inside a set is addressed by the pair of the set's
//! [`GlobalId`] and the local index of the resource within the set. Two ids
//! compare equal only if both the set id and the index match. The typed ids
//! reuse the phantom kind markers of [`crate::refs`], so a buffer id inside a
//! set can never be confused with an image id.

use core::marker::PhantomData;
use vstd::prelude::*;

use crate::id::GlobalId;
use crate::refs::{BufferKind, BufferViewKind, ImageKind, ImageViewKind};

verus! {

/// An untyped composite id: a (set global id, local index) pair.
#[derive(Clone, Copy, PartialEq, Eq, Structural, Debug)]
pub struct GenericId {
    global: GlobalId,
    index: u64,
}

impl GenericId {
    pub closed spec fn spec_global(&self) -> GlobalId {
        self.global
    }

    pub closed spec fn spec_index(&self) -> u64 {
        self.index
    }

    pub fn new(global: GlobalId, index: u64) -> (r: GenericId)
        ensures
            r.spec_global() == global,
            r.spec_index() == index,
    {
        GenericId { global, index }
    }

    /// Returns the global id of the set this id belongs to.
    pub fn get_global_id(&self) -> (r: GlobalId)
        ensures
            r == self.spec_global(),
    {
        self.global
    }

    /// Returns the local index of the resource within its set.
    pub fn get_index(&self) -> (r: u64)
        ensures
            r == self.spec_index(),
    {
        self.index
    }
}

/// A composite id typed by the resource kind `K`.
#[derive(Debug)]
pub struct SetObjectId<K> {
    global: GlobalId,
    index: u64,
    kind: PhantomData<K>,
}

impl<K> Clone for SetObjectId<K> {
    fn clone(&self) -> (r: Self)
        ensures
            r == *self,
    {
        SetObjectId { global: self.global, index: self.index, kind: PhantomData }
    }
}

impl<K> Copy for SetObjectId<K> {}

impl<K> SetObjectId<K> {
    pub closed spec fn spec_global(&self) -> GlobalId {
        self.global
    }

    pub closed spec fn spec_index(&self) -> u64 {
        self.index
    }

    pub fn new(global: GlobalId, index: u64) -> (r: Self)
        ensures
            r.spec_global() == global,
            r.spec_index() == index,
    {
        SetObjectId { global, index, kind: PhantomData }
    }

    /// Returns the global id of the set this id belongs to.
    pub fn get_global_id(&self) -> (r: GlobalId)
        ensures
            r == self.spec_global(),
    {
        self.global
    }

    /// Returns the local index of the resource within its set.
    pub fn get_index(&self) -> (r: u64)
        ensures
            r == self.spec_index(),
    {
        self.index
    }

    /// Forgets the kind, keeping the same set scope and index.
    pub fn as_generic(&self) -> (r: GenericId)
        ensures
            r.spec_global() == self.spec_global(),
            r.spec_index() == self.spec_index(),
    {
        GenericId { global: self.global, index: self.index }
    }
}

impl<K> PartialEq for SetObjectId<K> {
    /// Two ids compare equal only if both the set id and the index match.
    fn eq(&self, other: &Self) -> (r: bool)
        ensures
            r == (self.spec_global() == other.spec_global() && self.spec_index()
                == other.spec_index()),
            r == (*self == *other),
    {
        self.global == other.global && self.index == other.index
    }
}

impl<K> Eq for SetObjectId<K> {}

impl<K> vstd::std_specs::cmp::PartialEqSpecImpl for SetObjectId<K> {
    open spec fn obeys_eq_spec() -> bool {
        true
    }

    open spec fn eq_spec(&self, other: &SetObjectId<K>) -> bool {
        self.spec_global() == other.spec_global() && self.spec_index() == other.spec_index()
    }
}

/// A composite id referencing a buffer inside an object set.
pub type BufferId = SetObjectId<BufferKind>;

/// A composite id referencing a buffer view inside an object set.
pub type BufferViewId = SetObjectId<BufferViewKind>;

/// A composite id referencing an image inside an object set.
pub type ImageId = SetObjectId<ImageKind>;

/// A composite id referencing an image view inside an object set.
pub type ImageViewId = SetObjectId<ImageViewKind>;

} // verus!
