//! The generic object reference model.
//!
//! Every resource kind (buffer, buffer view, image, image view) shares one
//! identified, possibly-not-yet-defined reference concept: an opaque
//! [`ResourceId`], a [`Definition`] pairing an id with a borrowed descriptor
//! record, and a [`Reference`] that is either `Defined` or a `Placeholder`
//! carrying only the id. The kind is a phantom type parameter, so ids of
//! different kinds can never be compared to each other, while equality within
//! one kind is id-based across all three shapes: a placeholder and the
//! definition that later resolves it are interchangeable.

use core::marker::PhantomData;
use vstd::prelude::*;

verus! {

/// Kind marker for buffers.
#[derive(Clone, Copy, Debug)]
pub struct BufferKind;

/// Kind marker for buffer views.
#[derive(Clone, Copy, Debug)]
pub struct BufferViewKind;

/// Kind marker for images.
#[derive(Clone, Copy, Debug)]
pub struct ImageKind;

/// Kind marker for image views.
#[derive(Clone, Copy, Debug)]
pub struct ImageViewKind;

/// Descriptor record for a buffer.
pub struct BufferInfo {}

/// Descriptor record for a buffer view.
pub struct BufferViewInfo {}

/// Descriptor record for an image.
pub struct ImageInfo {}

/// Descriptor record for an image view.
pub struct ImageViewInfo {}

/// Hands out raw values for fresh resource ids of every kind.
///
/// The counter starts at `1` and never revisits a value, so constructing a
/// resource id always yields a fresh, never-before-seen value.
pub struct ResourceIdSource {
    next: u64,
}

impl ResourceIdSource {
    /// The raw value the next id constructed from this source will carry.
    pub closed spec fn spec_next(&self) -> u64 {
        self.next
    }

    pub open spec fn wf(&self) -> bool {
        self.spec_next() >= 1
    }

    /// The raw value the `k`-th future id drawn from this source will carry.
    pub open spec fn upcoming(&self, k: nat) -> int {
        self.spec_next() + k
    }

    pub fn new() -> (r: Self)
        ensures
            r.wf(),
            r.spec_next() == 1,
    {
        ResourceIdSource { next: 1 }
    }
}

/// A unique id referencing one resource of kind `K`.
///
/// Ids are ordered and comparable only to ids of the same kind; a buffer id
/// can never be confused with an image id.
#[derive(Debug)]
pub struct ResourceId<K> {
    raw: u64,
    kind: PhantomData<K>,
}

impl<K> Clone for ResourceId<K> {
    fn clone(&self) -> (r: Self)
        ensures
            r == *self,
    {
        ResourceId { raw: self.raw, kind: PhantomData }
    }
}

impl<K> Copy for ResourceId<K> {}

impl<K> ResourceId<K> {
    pub closed spec fn spec_raw(&self) -> u64 {
        self.raw
    }

    /// Draws a fresh id from `source`. The result was never produced before
    /// and all later draws differ from it.
    pub fn new(source: &mut ResourceIdSource) -> (r: Self)
        requires
            old(source).wf(),
            old(source).spec_next() < u64::MAX,
        ensures
            r.spec_raw() == old(source).spec_next(),
            final(source).wf(),
            final(source).spec_next() == old(source).spec_next() + 1,
    {
        let raw = source.next;
        source.next = source.next + 1;
        ResourceId { raw, kind: PhantomData }
    }

    /// Returns the raw 64 bit value of the id.
    pub fn as_u64(&self) -> (r: u64)
        ensures
            r == self.spec_raw(),
    {
        self.raw
    }
}

impl<K> PartialEq for ResourceId<K> {
    fn eq(&self, other: &Self) -> (r: bool)
        ensures
            r == (self.spec_raw() == other.spec_raw()),
            r == (*self == *other),
    {
        self.raw == other.raw
    }
}

impl<K> Eq for ResourceId<K> {}

impl<K> vstd::std_specs::cmp::PartialEqSpecImpl for ResourceId<K> {
    open spec fn obeys_eq_spec() -> bool {
        true
    }

    open spec fn eq_spec(&self, other: &ResourceId<K>) -> bool {
        self.spec_raw() == other.spec_raw()
    }
}

/// Uniqueness of resource ids: distinct draws from one source never collide.
pub proof fn lemma_resource_ids_pairwise_distinct<K>(
    s: ResourceIdSource,
    i: nat,
    j: nat,
    a: ResourceId<K>,
    b: ResourceId<K>,
)
    requires
        i != j,
        a.spec_raw() == s.upcoming(i),
        b.spec_raw() == s.upcoming(j),
    ensures
        a != b,
{
}

/// A resource of kind `K` whose descriptor record is concretely known.
///
/// Equality is by id only: the descriptor payload is ignored entirely.
pub struct Definition<'a, K, Info> {
    info: &'a Info,
    id: ResourceId<K>,
}

impl<'a, K, Info> Clone for Definition<'a, K, Info> {
    fn clone(&self) -> (r: Self)
        ensures
            r == *self,
    {
        Definition { info: self.info, id: self.id }
    }
}

impl<'a, K, Info> Copy for Definition<'a, K, Info> {}

impl<'a, K, Info> Definition<'a, K, Info> {
    pub closed spec fn spec_id(&self) -> ResourceId<K> {
        self.id
    }

    pub closed spec fn spec_info(&self) -> &'a Info {
        self.info
    }

    pub fn new(id: ResourceId<K>, info: &'a Info) -> (r: Self)
        ensures
            r.spec_id() == id,
            r.spec_info() == info,
    {
        Definition { info, id }
    }

    pub fn get_id(&self) -> (r: ResourceId<K>)
        ensures
            r == self.spec_id(),
    {
        self.id
    }

    pub fn get_info(&self) -> (r: &'a Info)
        ensures
            r == self.spec_info(),
    {
        self.info
    }
}

impl<'a, K, Info> PartialEq for Definition<'a, K, Info> {
    fn eq(&self, other: &Self) -> (r: bool)
        ensures
            r == (self.spec_id() == other.spec_id()),
    {
        self.id == other.id
    }
}

impl<'a, K, Info> vstd::std_specs::cmp::PartialEqSpecImpl for Definition<'a, K, Info> {
    open spec fn obeys_eq_spec() -> bool {
        true
    }

    open spec fn eq_spec(&self, other: &Definition<'a, K, Info>) -> bool {
        self.spec_id() == other.spec_id()
    }
}

impl<'a, K, Info> PartialEq<ResourceId<K>> for Definition<'a, K, Info> {
    fn eq(&self, other: &ResourceId<K>) -> (r: bool)
        ensures
            r == (self.spec_id() == *other),
    {
        self.id == *other
    }
}

impl<'a, K, Info> vstd::std_specs::cmp::PartialEqSpecImpl<ResourceId<K>> for Definition<'a, K, Info> {
    open spec fn obeys_eq_spec() -> bool {
        true
    }

    open spec fn eq_spec(&self, other: &ResourceId<K>) -> bool {
        self.spec_id() == *other
    }
}

/// A reference to a resource of kind `K`: either a full [`Definition`] or a
/// placeholder carrying only the id.
///
/// A placeholder is used when a dependent resource is declared before its
/// target is concretely known. Equality is id-based in both states, so a
/// placeholder and its later-defined counterpart compare equal and are
/// interchangeable as map keys.
pub enum Reference<'a, K, Info> {
    Defined(Definition<'a, K, Info>),
    Placeholder(ResourceId<K>),
}

impl<'a, K, Info> Clone for Reference<'a, K, Info> {
    fn clone(&self) -> (r: Self)
        ensures
            r == *self,
    {
        match self {
            Reference::Defined(def) => Reference::Defined(*def),
            Reference::Placeholder(id) => Reference::Placeholder(*id),
        }
    }
}

impl<'a, K, Info> Copy for Reference<'a, K, Info> {}

impl<'a, K, Info> Reference<'a, K, Info> {
    /// The id this reference carries, in either state.
    pub open spec fn spec_id(&self) -> ResourceId<K> {
        match self {
            Reference::Defined(def) => def.spec_id(),
            Reference::Placeholder(id) => *id,
        }
    }

    pub fn get_id(&self) -> (r: ResourceId<K>)
        ensures
            r == self.spec_id(),
    {
        match self {
            Reference::Defined(def) => def.get_id(),
            Reference::Placeholder(id) => *id,
        }
    }

    /// Returns the descriptor record when the reference is defined, and
    /// nothing when it is a placeholder.
    pub fn get_info(&self) -> (r: Option<&'a Info>)
        ensures
            match r {
                Some(info) => self matches Reference::Defined(def) && info == def.spec_info(),
                None => self is Placeholder,
            },
    {
        match self {
            Reference::Defined(def) => Some(def.get_info()),
            Reference::Placeholder(_) => None,
        }
    }

    pub fn is_defined(&self) -> (r: bool)
        ensures
            r == (self is Defined),
    {
        match self {
            Reference::Defined(_) => true,
            Reference::Placeholder(_) => false,
        }
    }

    pub fn is_placeholder(&self) -> (r: bool)
        ensures
            r == (self is Placeholder),
    {
        match self {
            Reference::Defined(_) => false,
            Reference::Placeholder(_) => true,
        }
    }
}

impl<'a, K, Info> PartialEq for Reference<'a, K, Info> {
    fn eq(&self, other: &Self) -> (r: bool)
        ensures
            r == (self.spec_id() == other.spec_id()),
    {
        self.get_id() == other.get_id()
    }
}

impl<'a, K, Info> vstd::std_specs::cmp::PartialEqSpecImpl for Reference<'a, K, Info> {
    open spec fn obeys_eq_spec() -> bool {
        true
    }

    open spec fn eq_spec(&self, other: &Reference<'a, K, Info>) -> bool {
        self.spec_id() == other.spec_id()
    }
}

impl<'a, K, Info> PartialEq<ResourceId<K>> for Reference<'a, K, Info> {
    fn eq(&self, other: &ResourceId<K>) -> (r: bool)
        ensures
            r == (self.spec_id() == *other),
    {
        self.get_id() == *other
    }
}

impl<'a, K, Info> vstd::std_specs::cmp::PartialEqSpecImpl<ResourceId<K>> for Reference<'a, K, Info> {
    open spec fn obeys_eq_spec() -> bool {
        true
    }

    open spec fn eq_spec(&self, other: &ResourceId<K>) -> bool {
        self.spec_id() == *other
    }
}

impl<'a, K, Info> PartialEq<Definition<'a, K, Info>> for Reference<'a, K, Info> {
    fn eq(&self, other: &Definition<'a, K, Info>) -> (r: bool)
        ensures
            r == (self.spec_id() == other.spec_id()),
    {
        self.get_id() == other.get_id()
    }
}

impl<'a, K, Info> vstd::std_specs::cmp::PartialEqSpecImpl<Definition<'a, K, Info>> for Reference<'a, K, Info> {
    open spec fn obeys_eq_spec() -> bool {
        true
    }

    open spec fn eq_spec(&self, other: &Definition<'a, K, Info>) -> bool {
        self.spec_id() == other.spec_id()
    }
}

/// Equality transitivity across shapes: a placeholder reference and a later
/// defined reference that resolves the same id compare equal to each other
/// and to the id itself.
pub proof fn lemma_reference_equality_transitive<'a, K, Info>(
    p: Reference<'a, K, Info>,
    d: Reference<'a, K, Info>,
    def: Definition<'a, K, Info>,
    id: ResourceId<K>,
)
    requires
        p == Reference::<'a, K, Info>::Placeholder(id),
        d == Reference::<'a, K, Info>::Defined(def),
        def.spec_id() == id,
    ensures
        p.spec_id() == d.spec_id(),
        p.spec_id() == id,
        d.spec_id() == id,
{
}

/// A unique id referencing a buffer.
pub type BufferId = ResourceId<BufferKind>;

/// A buffer whose descriptor record is concretely known.
pub type DefinedBuffer<'a> = Definition<'a, BufferKind, BufferInfo>;

/// A reference to a buffer, defined or placeholder.
pub type BufferReference<'a> = Reference<'a, BufferKind, BufferInfo>;

/// A unique id referencing a buffer view.
pub type BufferViewId = ResourceId<BufferViewKind>;

/// A buffer view whose descriptor record is concretely known.
pub type DefinedBufferView<'a> = Definition<'a, BufferViewKind, BufferViewInfo>;

/// A reference to a buffer view, defined or placeholder.
pub type BufferViewReference<'a> = Reference<'a, BufferViewKind, BufferViewInfo>;

/// A unique id referencing an image.
pub type ImageId = ResourceId<ImageKind>;

/// An image whose descriptor record is concretely known.
pub type DefinedImage<'a> = Definition<'a, ImageKind, ImageInfo>;

/// A reference to an image, defined or placeholder.
pub type ImageReference<'a> = Reference<'a, ImageKind, ImageInfo>;

/// A unique id referencing an image view.
pub type ImageViewId = ResourceId<ImageViewKind>;

/// An image view whose descriptor record is concretely known.
pub type DefinedImageView<'a> = Definition<'a, ImageViewKind, ImageViewInfo>;

/// A reference to an image view, defined or placeholder.
pub type ImageViewReference<'a> = Reference<'a, ImageViewKind, ImageViewInfo>;

} // verus!
