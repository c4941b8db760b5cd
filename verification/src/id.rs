//! Globally unique identifiers.
//!
//! A [`UUID`] pairs a [`GlobalId`] with a [`LocalId`]. The global id names a
//! local address space, so each subsystem can generate local ids however it
//! likes while the pair stays unique process-wide. Global ids are drawn from
//! an explicit [`GlobalIdSource`], whose counter never revisits a value, and
//! the raw value `1` is reserved for the name-derived identifier space used by
//! [`NamedUUID`].

use vstd::prelude::*;

verus! {

/// Raw value of the global id space reserved for name-derived identifiers.
pub const NAMED_GLOBAL_ID_RAW: u64 = 1;

/// Hands out raw values for fresh global ids.
///
/// The counter starts at `2`: `0` is never a valid id and `1` is reserved for
/// the named-identifier space. A value, once issued, is never issued again,
/// which is what makes every [`GlobalId`] drawn from one source unique.
pub struct GlobalIdSource {
    next: u64,
}

impl GlobalIdSource {
    /// The raw value the next call to [`GlobalId::new`] will hand out.
    pub closed spec fn spec_next(&self) -> u64 {
        self.next
    }

    pub open spec fn wf(&self) -> bool {
        self.spec_next() >= 2
    }

    /// The raw values this source has already handed out.
    pub open spec fn issued(&self) -> Set<u64> {
        Set::new(|v: u64| 2 <= v && v < self.spec_next())
    }

    /// The raw value the `k`-th future draw from this source will produce.
    pub open spec fn upcoming(&self, k: nat) -> int {
        self.spec_next() + k
    }

    pub fn new() -> (r: Self)
        ensures
            r.wf(),
            r.spec_next() == 2,
            r.issued() == Set::<u64>::empty(),
    {
        let r = GlobalIdSource { next: 2 };
        proof {
            assert(r.issued() =~= Set::<u64>::empty());
        }
        r
    }
}

/// Uniqueness of global ids: distinct draws from one source never collide.
pub proof fn lemma_global_ids_pairwise_distinct(
    s: GlobalIdSource,
    i: nat,
    j: nat,
    a: GlobalId,
    b: GlobalId,
)
    requires
        i != j,
        a.spec_raw() == s.upcoming(i),
        b.spec_raw() == s.upcoming(j),
    ensures
        a != b,
{
}

/// A global id backed by a 64 bit value.
///
/// Global ids are globally unique: they are handed out by the incrementing
/// counter of a [`GlobalIdSource`] and are always non zero.
#[derive(Clone, Copy, PartialEq, Eq, Structural, PartialOrd, Ord, Hash, Debug)]
pub struct GlobalId {
    raw: u64,
}

impl GlobalId {
    pub closed spec fn spec_raw(&self) -> u64 {
        self.raw
    }

    pub open spec fn wf(&self) -> bool {
        self.spec_raw() != 0
    }

    /// Draws a fresh globally unique id from `source`.
    ///
    /// The result was never issued before, is never the reserved named-id
    /// space, and all later draws differ from it. Counter overflow is a fatal
    /// condition and is excluded by the precondition.
    pub fn new(source: &mut GlobalIdSource) -> (r: GlobalId)
        requires
            old(source).wf(),
            old(source).spec_next() < u64::MAX,
        ensures
            r.wf(),
            r.spec_raw() == old(source).spec_next(),
            r.spec_raw() != NAMED_GLOBAL_ID_RAW,
            !old(source).issued().contains(r.spec_raw()),
            final(source).wf(),
            final(source).spec_next() == old(source).spec_next() + 1,
            final(source).issued() == old(source).issued().insert(r.spec_raw()),
    {
        let raw = source.next;
        source.next = source.next + 1;
        let r = GlobalId { raw };
        proof {
            assert(source.issued() =~= old(source).issued().insert(raw));
        }
        r
    }

    /// Reconstructs an id from a raw value previously produced by
    /// [`GlobalId::new`]. A zero value is a contract violation and is excluded
    /// by the precondition.
    pub fn from_raw(id: u64) -> (r: GlobalId)
        requires
            id != 0,
        ensures
            r.wf(),
            r.spec_raw() == id,
    {
        GlobalId { raw: id }
    }

    /// Returns the raw 64 bit value of the id.
    pub fn get_raw(&self) -> (r: u64)
        ensures
            r == self.spec_raw(),
    {
        self.raw
    }
}

/// Collapses a hash to a valid local id value: a zero hash becomes `1`.
pub open spec fn hash_to_raw(hash: u64) -> u64 {
    if hash == 0 {
        1
    } else {
        hash
    }
}

/// A local id backed by a non zero 64 bit value.
///
/// Local ids need not be unique on their own; only the pair of a global and a
/// local id is. They may come from a counter or from hashing a name.
#[derive(Clone, Copy, PartialEq, Eq, Structural, PartialOrd, Ord, Hash, Debug)]
pub struct LocalId {
    raw: u64,
}

impl LocalId {
    pub closed spec fn spec_raw(&self) -> u64 {
        self.raw
    }

    pub open spec fn wf(&self) -> bool {
        self.spec_raw() != 0
    }

    /// Creates a local id from a raw value. A zero value is a contract
    /// violation and is excluded by the precondition.
    pub fn from_raw(value: u64) -> (r: LocalId)
        requires
            value != 0,
        ensures
            r.wf(),
            r.spec_raw() == value,
    {
        LocalId { raw: value }
    }

    /// Creates a local id from a hash value. A zero hash is remapped to `1`
    /// instead of failing, a deliberate collision-risk trade-off.
    pub fn from_hash(hash: u64) -> (r: LocalId)
        ensures
            r.wf(),
            r.spec_raw() == hash_to_raw(hash),
    {
        if hash == 0 {
            LocalId { raw: 1 }
        } else {
            LocalId { raw: hash }
        }
    }

    /// Returns the raw 64 bit value of the id.
    pub fn get_raw(&self) -> (r: u64)
        ensures
            r == self.spec_raw(),
    {
        self.raw
    }
}

/// A universally unique identifier: a (global id, local id) pair.
///
/// The derived ordering is lexicographic on `(global, local)`, so a `UUID`
/// can serve as a sorted-map key.
#[derive(Clone, Copy, PartialEq, Eq, Structural, PartialOrd, Ord, Hash, Debug)]
pub struct UUID {
    pub global: GlobalId,
    pub local: LocalId,
}

impl UUID {
    pub open spec fn wf(&self) -> bool {
        self.global.wf() && self.local.wf()
    }
}

/// A simple incrementing-counter local id generator.
///
/// The generator owns its own global id, so the uuids it produces are unique
/// within its own address space and therefore globally unique.
pub struct IncrementingGenerator {
    global: GlobalId,
    next: u64,
}

impl IncrementingGenerator {
    pub closed spec fn spec_global(&self) -> GlobalId {
        self.global
    }

    /// The raw local value the next call to [`Self::next`] will hand out.
    pub closed spec fn spec_next(&self) -> u64 {
        self.next
    }

    pub open spec fn wf(&self) -> bool {
        self.spec_global().wf() && self.spec_next() >= 1
    }

    /// The raw local value the `k`-th future call will produce.
    pub open spec fn upcoming_local(&self, k: nat) -> int {
        self.spec_next() + k
    }

    /// Creates a new generator with a fresh global id and a local counter
    /// starting at `1`.
    pub fn new(source: &mut GlobalIdSource) -> (r: Self)
        requires
            old(source).wf(),
            old(source).spec_next() < u64::MAX,
        ensures
            r.wf(),
            r.spec_next() == 1,
            r.spec_global().spec_raw() == old(source).spec_next(),
            !old(source).issued().contains(r.spec_global().spec_raw()),
            final(source).wf(),
            final(source).spec_next() == old(source).spec_next() + 1,
            final(source).issued() == old(source).issued().insert(r.spec_global().spec_raw()),
    {
        IncrementingGenerator { global: GlobalId::new(source), next: 1 }
    }

    /// Returns the global id of the generator.
    pub fn get_global_id(&self) -> (r: GlobalId)
        ensures
            r == self.spec_global(),
    {
        self.global
    }

    /// Creates a new uuid. The `Option` mirrors the signature shape only:
    /// within the precondition the call always succeeds.
    pub fn next(&mut self) -> (r: Option<UUID>)
        requires
            old(self).wf(),
            old(self).spec_next() < u64::MAX,
        ensures
            final(self).wf(),
            final(self).spec_global() == old(self).spec_global(),
            final(self).spec_next() == old(self).spec_next() + 1,
            r matches Some(u) && u.global == old(self).spec_global()
                && u.local.spec_raw() == old(self).spec_next() && u.wf(),
    {
        let local = self.next;
        self.next = self.next + 1;
        Some(UUID { global: self.global, local: LocalId::from_raw(local) })
    }
}

/// Uniqueness of generated uuids: distinct calls on one generator never
/// produce equal uuids, whatever other generators do concurrently.
pub proof fn lemma_generator_uuids_pairwise_distinct(
    g: IncrementingGenerator,
    i: nat,
    j: nat,
    a: UUID,
    b: UUID,
)
    requires
        i != j,
        a.global == g.spec_global(),
        a.local.spec_raw() == g.upcoming_local(i),
        b.global == g.spec_global(),
        b.local.spec_raw() == g.upcoming_local(j),
    ensures
        a != b,
{
    assert(a.local.spec_raw() != b.local.spec_raw());
}

/// The local id value every name-derived uuid with this name carries.
///
/// This is a function of the name alone, which is what makes named ids
/// deterministic across calls and across process runs.
pub open spec fn named_local_raw(name: Seq<char>) -> u64 {
    hash_to_raw(xxh3_of(name))
}

/// The 64 bit xxh3 hash of a name, as a function of its characters alone.
pub uninterp spec fn xxh3_of(name: Seq<char>) -> u64;

/// The one uuid every name-derived id with this name denotes: the reserved
/// global id paired with the hash-derived local id.
pub closed spec fn named_uuid_of(name: Seq<char>) -> UUID {
    UUID {
        global: GlobalId { raw: NAMED_GLOBAL_ID_RAW },
        local: LocalId { raw: named_local_raw(name) },
    }
}

/// Relies on `xxhash_rust::xxh3::xxh3_64`: the hash is a pure, stable
/// function of the input bytes, identical across calls and process runs.
#[verifier::external_body]
fn hash_name(name: &str) -> (r: u64)
    ensures
        r == xxh3_of(name@),
{
    xxhash_rust::xxh3::xxh3_64(name.as_bytes())
}

/// A uuid generated from a string.
///
/// Named uuids live in one reserved global id space; the local id is the hash
/// of the name, so independent subsystems agree on the identifier for a
/// shared concept without coordination. Uniqueness is probabilistic: two
/// names whose hashes collide yield equal ids, a known, documented
/// limitation. The name is retained for debugging.
#[derive(Debug)]
pub struct NamedUUID {
    name: String,
    id: LocalId,
}

impl Clone for NamedUUID {
    /// The clone carries the same name and the same id.
    fn clone(&self) -> (r: Self)
        ensures
            r == *self,
    {
        NamedUUID { name: self.name.clone(), id: self.id }
    }
}

impl NamedUUID {
    pub closed spec fn spec_name(&self) -> Seq<char> {
        self.name@
    }

    pub closed spec fn spec_local(&self) -> LocalId {
        self.id
    }

    pub closed spec fn spec_uuid(&self) -> UUID {
        UUID { global: GlobalId { raw: NAMED_GLOBAL_ID_RAW }, local: self.id }
    }

    pub open spec fn wf(&self) -> bool {
        &&& self.spec_local().spec_raw() == named_local_raw(self.spec_name())
        &&& self.spec_uuid() == named_uuid_of(self.spec_name())
        &&& self.spec_uuid().local == self.spec_local()
        &&& self.spec_uuid().global.spec_raw() == NAMED_GLOBAL_ID_RAW
    }

    /// Creates the uuid derived from `name` without retaining the name.
    pub fn new_const(name: &str) -> (r: UUID)
        ensures
            r.wf(),
            r == named_uuid_of(name@),
            r.global.spec_raw() == NAMED_GLOBAL_ID_RAW,
            r.local.spec_raw() == named_local_raw(name@),
    {
        let hash = hash_name(name);
        UUID { global: GlobalId::from_raw(NAMED_GLOBAL_ID_RAW), local: LocalId::from_hash(hash) }
    }

    /// Creates a named uuid, retaining the name for debugging.
    pub fn new(name: String) -> (r: NamedUUID)
        ensures
            r.wf(),
            r.spec_name() == name@,
    {
        let hash = hash_name(name.as_str());
        NamedUUID { name, id: LocalId::from_hash(hash) }
    }

    /// Returns the string that generated the uuid.
    pub fn get_name(&self) -> (r: &String)
        ensures
            r@ == self.spec_name(),
    {
        &self.name
    }

    /// Returns the uuid.
    pub fn get_uuid(&self) -> (r: UUID)
        ensures
            r == self.spec_uuid(),
            r.global.spec_raw() == NAMED_GLOBAL_ID_RAW,
            r.local == self.spec_local(),
    {
        UUID { global: GlobalId::from_raw(NAMED_GLOBAL_ID_RAW), local: self.id }
    }

    /// Returns the global id shared by all named uuids.
    pub fn get_global_id(&self) -> (r: GlobalId)
        ensures
            r.spec_raw() == NAMED_GLOBAL_ID_RAW,
    {
        GlobalId::from_raw(NAMED_GLOBAL_ID_RAW)
    }

    /// Returns the local id.
    pub fn get_local_id(&self) -> (r: LocalId)
        ensures
            r == self.spec_local(),
    {
        self.id
    }
}

/// Named-id determinism: named uuids built from equal names carry equal ids,
/// across repeated calls and across process runs.
pub proof fn lemma_named_uuid_deterministic(a: NamedUUID, b: NamedUUID)
    requires
        a.wf(),
        b.wf(),
        a.spec_name() == b.spec_name(),
    ensures
        a.spec_local() == b.spec_local(),
        a.spec_uuid() == b.spec_uuid(),
{
    assert(a.spec_local().spec_raw() == b.spec_local().spec_raw());
}

impl PartialEq for NamedUUID {
    /// Named uuids compare equal exactly when their hash-derived local ids
    /// do: two distinct names whose hashes collide compare equal.
    fn eq(&self, other: &Self) -> (r: bool)
        ensures
            r == (self.spec_local() == other.spec_local()),
    {
        self.id.get_raw() == other.id.get_raw()
    }
}

impl Eq for NamedUUID {}

impl vstd::std_specs::cmp::PartialEqSpecImpl for NamedUUID {
    open spec fn obeys_eq_spec() -> bool {
        true
    }

    open spec fn eq_spec(&self, other: &NamedUUID) -> bool {
        self.spec_local() == other.spec_local()
    }
}

impl PartialOrd for NamedUUID {
    /// Named uuids order by their hash-derived local ids, as their plain
    /// uuids would: the retained name plays no part.
    fn partial_cmp(&self, other: &Self) -> (r: Option<core::cmp::Ordering>) {
        if self.id.get_raw() < other.id.get_raw() {
            Some(core::cmp::Ordering::Less)
        } else if self.id.get_raw() == other.id.get_raw() {
            Some(core::cmp::Ordering::Equal)
        } else {
            Some(core::cmp::Ordering::Greater)
        }
    }
}

impl vstd::std_specs::cmp::PartialOrdSpecImpl for NamedUUID {
    open spec fn obeys_partial_cmp_spec() -> bool {
        true
    }

    open spec fn partial_cmp_spec(&self, other: &NamedUUID) -> Option<core::cmp::Ordering> {
        if self.spec_local().spec_raw() < other.spec_local().spec_raw() {
            Some(core::cmp::Ordering::Less)
        } else if self.spec_local().spec_raw() == other.spec_local().spec_raw() {
            Some(core::cmp::Ordering::Equal)
        } else {
            Some(core::cmp::Ordering::Greater)
        }
    }
}

impl PartialEq<UUID> for NamedUUID {
    /// A named uuid compares equal to the plain uuid it denotes.
    fn eq(&self, other: &UUID) -> (r: bool)
        ensures
            r == (self.spec_uuid() == *other),
    {
        self.get_uuid() == *other
    }
}

impl vstd::std_specs::cmp::PartialEqSpecImpl<UUID> for NamedUUID {
    open spec fn obeys_eq_spec() -> bool {
        true
    }

    open spec fn eq_spec(&self, other: &UUID) -> bool {
        self.spec_uuid() == *other
    }
}

} // verus!
