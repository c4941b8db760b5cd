//! Object sets and their builder.
//!
//! An [`ObjectSetBuilder`] accumulates typed creation requests bound to one
//! synchronization group and hands them, in registration order, to the
//! external allocation/creation service. The resulting handles are wrapped
//! into an immutable [`ObjectSet`], whose members are addressed by composite
//! ids scoped to the set's global id and are torn down together in one
//! batched operation, never partially.
//!
//! Contract violations (a builder without its required synchronization
//! group, a view request whose target lies in another scope or another
//! synchronization domain, an in-scope id with an invalid index) are caller
//! bugs, not runtime conditions: they are excluded by preconditions rather
//! than reported, mirroring a fail-fast style. Looking up an id whose set
//! scope does not match is, by contrast, a normal outcome and yields
//! "not present".

use vstd::prelude::*;

use crate::descriptors::{
    Allocation, AllocationStrategy, BufferCreateDesc, BufferViewCreateDesc, ImageCreateDesc,
    ImageViewCreateDesc,
};
use crate::id::{GlobalId, GlobalIdSource};
use crate::set_ids::{BufferId, BufferViewId, GenericId, ImageId, ImageViewId};
use crate::sync_group::SynchronizationGroup;

verus! {

/// One pending creation request registered with a builder.
pub enum ObjectSetRequest {
    Buffer { desc: BufferCreateDesc, strategy: AllocationStrategy },
    BufferView { desc: BufferViewCreateDesc, source_set: Option<ObjectSet>, buffer: BufferId },
    Image { desc: ImageCreateDesc, strategy: AllocationStrategy },
    ImageView { desc: ImageViewCreateDesc, source_set: Option<ObjectSet>, image: ImageId },
}

/// One concretely created member of an object set.
///
/// A view member retains the external set it draws from, so that set can
/// never be destroyed while still referenced; `None` marks a view of a
/// resource in the same set.
pub enum ObjectData {
    Buffer { handle: u64 },
    BufferView { handle: u64, source_set: Option<ObjectSet> },
    Image { handle: u64 },
    ImageView { handle: u64, source_set: Option<ObjectSet> },
}

impl ObjectData {
    /// The raw 64 bit handle of the member.
    pub open spec fn spec_raw_handle(&self) -> u64 {
        match self {
            ObjectData::Buffer { handle } => *handle,
            ObjectData::BufferView { handle, .. } => *handle,
            ObjectData::Image { handle, .. } => *handle,
            ObjectData::ImageView { handle, .. } => *handle,
        }
    }

    pub fn get_raw_handle(&self) -> (r: u64)
        ensures
            r == self.spec_raw_handle(),
    {
        match self {
            ObjectData::Buffer { handle } => *handle,
            ObjectData::BufferView { handle, .. } => *handle,
            ObjectData::Image { handle, .. } => *handle,
            ObjectData::ImageView { handle, .. } => *handle,
        }
    }
}

/// The member that one request and the handle created for it produce.
pub open spec fn object_for(req: ObjectSetRequest, handle: u64) -> ObjectData {
    match req {
        ObjectSetRequest::Buffer { .. } => ObjectData::Buffer { handle },
        ObjectSetRequest::BufferView { source_set, .. } => ObjectData::BufferView {
            handle,
            source_set,
        },
        ObjectSetRequest::Image { .. } => ObjectData::Image { handle },
        ObjectSetRequest::ImageView { source_set, .. } => ObjectData::ImageView {
            handle,
            source_set,
        },
    }
}

/// Utility struct used to build an object set.
///
/// Collects creation requests; the objects are only created once the request
/// list is handed to the external creation service and the resulting handles
/// are passed to [`ObjectSetBuilder::build`].
pub struct ObjectSetBuilder {
    synchronization_group: Option<SynchronizationGroup>,
    set_id: GlobalId,
    requests: Vec<ObjectSetRequest>,
    requires_group: bool,
}

impl ObjectSetBuilder {
    pub closed spec fn spec_group(&self) -> Option<SynchronizationGroup> {
        self.synchronization_group
    }

    pub closed spec fn spec_set_id(&self) -> GlobalId {
        self.set_id
    }

    pub closed spec fn spec_requests(&self) -> Seq<ObjectSetRequest> {
        self.requests@
    }

    /// Whether any registered request required a synchronization group; only
    /// then is the group retained on the built set.
    pub closed spec fn spec_requires_group(&self) -> bool {
        self.requires_group
    }

    /// Creates a builder bound to `synchronization_group`, with a fresh
    /// global id as the address space of the future set.
    pub fn new(synchronization_group: SynchronizationGroup, source: &mut GlobalIdSource) -> (r:
        Self)
        requires
            old(source).wf(),
            old(source).spec_next() < u64::MAX,
        ensures
            r.spec_group() == Some(synchronization_group),
            r.spec_set_id().wf(),
            r.spec_set_id().spec_raw() == old(source).spec_next(),
            r.spec_requests() == Seq::<ObjectSetRequest>::empty(),
            !r.spec_requires_group(),
            final(source).wf(),
            final(source).spec_next() == old(source).spec_next() + 1,
    {
        ObjectSetBuilder {
            synchronization_group: Some(synchronization_group),
            set_id: GlobalId::new(source),
            requests: Vec::new(),
            requires_group: false,
        }
    }

    /// Creates a builder without a synchronization group. Such a builder can
    /// only register group-independent work: every `add_*` request demands a
    /// group and is excluded by its precondition.
    pub fn new_no_group(source: &mut GlobalIdSource) -> (r: Self)
        requires
            old(source).wf(),
            old(source).spec_next() < u64::MAX,
        ensures
            r.spec_group() is None,
            r.spec_set_id().wf(),
            r.spec_set_id().spec_raw() == old(source).spec_next(),
            r.spec_requests() == Seq::<ObjectSetRequest>::empty(),
            !r.spec_requires_group(),
            final(source).wf(),
            final(source).spec_next() == old(source).spec_next() + 1,
    {
        ObjectSetBuilder {
            synchronization_group: None,
            set_id: GlobalId::new(source),
            requests: Vec::new(),
            requires_group: false,
        }
    }

    /// Adds a request for a buffer that only needs to be accessed by the gpu.
    ///
    /// The returned id is scoped to this builder's set and usable to wire up
    /// view requests before anything is actually created.
    pub fn add_default_gpu_only_buffer(&mut self, desc: BufferCreateDesc) -> (r: BufferId)
        requires
            old(self).spec_group() is Some,
        ensures
            final(self).spec_group() == old(self).spec_group(),
            final(self).spec_set_id() == old(self).spec_set_id(),
            final(self).spec_requires_group(),
            final(self).spec_requests() == old(self).spec_requests().push(
                ObjectSetRequest::Buffer { desc, strategy: AllocationStrategy::AutoGpuOnly },
            ),
            r.spec_global() == old(self).spec_set_id(),
            r.spec_index() == old(self).spec_requests().len(),
    {
        self.requires_group = true;
        let index = self.requests.len();
        self.requests.push(ObjectSetRequest::Buffer {
            desc,
            strategy: AllocationStrategy::AutoGpuOnly,
        });
        BufferId::new(self.set_id, index as u64)
    }

    /// Adds a request for a buffer that needs to be accessed by both gpu and
    /// cpu.
    pub fn add_default_gpu_cpu_buffer(&mut self, desc: BufferCreateDesc) -> (r: BufferId)
        requires
            old(self).spec_group() is Some,
        ensures
            final(self).spec_group() == old(self).spec_group(),
            final(self).spec_set_id() == old(self).spec_set_id(),
            final(self).spec_requires_group(),
            final(self).spec_requests() == old(self).spec_requests().push(
                ObjectSetRequest::Buffer { desc, strategy: AllocationStrategy::AutoGpuCpu },
            ),
            r.spec_global() == old(self).spec_set_id(),
            r.spec_index() == old(self).spec_requests().len(),
    {
        self.requires_group = true;
        let index = self.requests.len();
        self.requests.push(ObjectSetRequest::Buffer {
            desc,
            strategy: AllocationStrategy::AutoGpuCpu,
        });
        BufferId::new(self.set_id, index as u64)
    }

    /// Adds a buffer view for a buffer created as part of this object set.
    /// The target must have been requested earlier in this same builder.
    pub fn add_internal_buffer_view(&mut self, desc: BufferViewCreateDesc, buffer: BufferId) -> (r:
        BufferViewId)
        requires
            old(self).spec_group() is Some,
            buffer.spec_global() == old(self).spec_set_id(),
        ensures
            final(self).spec_group() == old(self).spec_group(),
            final(self).spec_set_id() == old(self).spec_set_id(),
            final(self).spec_requires_group(),
            final(self).spec_requests() == old(self).spec_requests().push(
                ObjectSetRequest::BufferView { desc, source_set: None, buffer },
            ),
            r.spec_global() == old(self).spec_set_id(),
            r.spec_index() == old(self).spec_requests().len(),
    {
        self.requires_group = true;
        let index = self.requests.len();
        self.requests.push(ObjectSetRequest::BufferView { desc, source_set: None, buffer });
        BufferViewId::new(self.set_id, index as u64)
    }

    /// Whether [`Self::add_external_buffer_view`] may be called with `set`
    /// and `buffer`: the target must belong to `set`, and `set` must be bound
    /// to the very synchronization group this builder is bound to. A view
    /// must never straddle two independent synchronization domains.
    pub fn can_add_external_buffer_view(&self, set: &ObjectSet, buffer: BufferId) -> (r: bool)
        ensures
            r == (self.spec_group() is Some && set.spec_group() is Some && set.spec_group()
                == self.spec_group() && buffer.spec_global() == set.spec_set_id()),
    {
        match (&self.synchronization_group, set.get_synchronization_group()) {
            (Some(own), Some(other)) => *own == *other && buffer.get_global_id()
                == set.get_set_id(),
            _ => false,
        }
    }

    /// Adds a buffer view for a buffer owned by a different, already built
    /// object set. The external set is retained inside the request, and later
    /// inside the built set, so it cannot be destroyed while the view lives.
    pub fn add_external_buffer_view(
        &mut self,
        desc: BufferViewCreateDesc,
        set: ObjectSet,
        buffer: BufferId,
    ) -> (r: BufferViewId)
        requires
            old(self).spec_group() is Some,
            set.spec_group() is Some,
            set.spec_group() == old(self).spec_group(),
            buffer.spec_global() == set.spec_set_id(),
        ensures
            final(self).spec_group() == old(self).spec_group(),
            final(self).spec_set_id() == old(self).spec_set_id(),
            final(self).spec_requires_group(),
            final(self).spec_requests() == old(self).spec_requests().push(
                ObjectSetRequest::BufferView { desc, source_set: Some(set), buffer },
            ),
            r.spec_global() == old(self).spec_set_id(),
            r.spec_index() == old(self).spec_requests().len(),
    {
        self.requires_group = true;
        let index = self.requests.len();
        self.requests.push(ObjectSetRequest::BufferView { desc, source_set: Some(set), buffer });
        BufferViewId::new(self.set_id, index as u64)
    }

    /// Adds a request for an image that only needs to be accessed by the gpu.
    pub fn add_default_gpu_only_image(&mut self, desc: ImageCreateDesc) -> (r: ImageId)
        requires
            old(self).spec_group() is Some,
        ensures
            final(self).spec_group() == old(self).spec_group(),
            final(self).spec_set_id() == old(self).spec_set_id(),
            final(self).spec_requires_group(),
            final(self).spec_requests() == old(self).spec_requests().push(
                ObjectSetRequest::Image { desc, strategy: AllocationStrategy::AutoGpuOnly },
            ),
            r.spec_global() == old(self).spec_set_id(),
            r.spec_index() == old(self).spec_requests().len(),
    {
        self.requires_group = true;
        let index = self.requests.len();
        self.requests.push(ObjectSetRequest::Image {
            desc,
            strategy: AllocationStrategy::AutoGpuOnly,
        });
        ImageId::new(self.set_id, index as u64)
    }

    /// Adds a request for an image that needs to be accessed by both gpu and
    /// cpu.
    pub fn add_default_gpu_cpu_image(&mut self, desc: ImageCreateDesc) -> (r: ImageId)
        requires
            old(self).spec_group() is Some,
        ensures
            final(self).spec_group() == old(self).spec_group(),
            final(self).spec_set_id() == old(self).spec_set_id(),
            final(self).spec_requires_group(),
            final(self).spec_requests() == old(self).spec_requests().push(
                ObjectSetRequest::Image { desc, strategy: AllocationStrategy::AutoGpuCpu },
            ),
            r.spec_global() == old(self).spec_set_id(),
            r.spec_index() == old(self).spec_requests().len(),
    {
        self.requires_group = true;
        let index = self.requests.len();
        self.requests.push(ObjectSetRequest::Image {
            desc,
            strategy: AllocationStrategy::AutoGpuCpu,
        });
        ImageId::new(self.set_id, index as u64)
    }

    /// Adds an image view for an image created as part of this object set.
    /// The target must have been requested earlier in this same builder.
    pub fn add_internal_image_view(&mut self, desc: ImageViewCreateDesc, image: ImageId) -> (r:
        ImageViewId)
        requires
            old(self).spec_group() is Some,
            image.spec_global() == old(self).spec_set_id(),
        ensures
            final(self).spec_group() == old(self).spec_group(),
            final(self).spec_set_id() == old(self).spec_set_id(),
            final(self).spec_requires_group(),
            final(self).spec_requests() == old(self).spec_requests().push(
                ObjectSetRequest::ImageView { desc, source_set: None, image },
            ),
            r.spec_global() == old(self).spec_set_id(),
            r.spec_index() == old(self).spec_requests().len(),
    {
        self.requires_group = true;
        let index = self.requests.len();
        self.requests.push(ObjectSetRequest::ImageView { desc, source_set: None, image });
        ImageViewId::new(self.set_id, index as u64)
    }

    /// Whether [`Self::add_external_image_view`] may be called with `set` and
    /// `image`; the same cross-domain rule as for external buffer views.
    pub fn can_add_external_image_view(&self, set: &ObjectSet, image: ImageId) -> (r: bool)
        ensures
            r == (self.spec_group() is Some && set.spec_group() is Some && set.spec_group()
                == self.spec_group() && image.spec_global() == set.spec_set_id()),
    {
        match (&self.synchronization_group, set.get_synchronization_group()) {
            (Some(own), Some(other)) => *own == *other && image.get_global_id()
                == set.get_set_id(),
            _ => false,
        }
    }

    /// Adds an image view for an image owned by a different, already built
    /// object set. The external set is retained inside the request, and later
    /// inside the built set, so it cannot be destroyed while the view lives.
    pub fn add_external_image_view(
        &mut self,
        desc: ImageViewCreateDesc,
        set: ObjectSet,
        image: ImageId,
    ) -> (r: ImageViewId)
        requires
            old(self).spec_group() is Some,
            set.spec_group() is Some,
            set.spec_group() == old(self).spec_group(),
            image.spec_global() == set.spec_set_id(),
        ensures
            final(self).spec_group() == old(self).spec_group(),
            final(self).spec_set_id() == old(self).spec_set_id(),
            final(self).spec_requires_group(),
            final(self).spec_requests() == old(self).spec_requests().push(
                ObjectSetRequest::ImageView { desc, source_set: Some(set), image },
            ),
            r.spec_global() == old(self).spec_set_id(),
            r.spec_index() == old(self).spec_requests().len(),
    {
        self.requires_group = true;
        let index = self.requests.len();
        self.requests.push(ObjectSetRequest::ImageView { desc, source_set: Some(set), image });
        ImageViewId::new(self.set_id, index as u64)
    }

    /// The requests registered so far, in registration order: the list the
    /// external creation service is handed to realize the set.
    pub fn get_requests(&self) -> (r: &Vec<ObjectSetRequest>)
        ensures
            r@ == self.spec_requests(),
    {
        &self.requests
    }

    /// Wraps the handles and allocations the external creation service
    /// produced for this builder's requests into the finished object set.
    ///
    /// The service returns handles matched 1:1 by index to the requests, in
    /// registration order; the `i`-th member of the set is therefore the
    /// `i`-th request realized with the `i`-th handle, and a view member
    /// retains the external set its request carried. The synchronization
    /// group is retained on the set only if some request required one.
    pub fn build(self, handles: Vec<u64>, allocations: Vec<Allocation>) -> (r: ObjectSet)
        requires
            handles@.len() == self.spec_requests().len(),
        ensures
            r.spec_set_id() == self.spec_set_id(),
            r.spec_group() == (if self.spec_requires_group() {
                self.spec_group()
            } else {
                None
            }),
            r.spec_objects().len() == self.spec_requests().len(),
            forall|i: int|
                0 <= i < r.spec_objects().len() ==> r.spec_objects()[i] == object_for(
                    self.spec_requests()[i],
                    handles@[i],
                ),
            r.spec_member_handles() == handles@,
            r.spec_allocations() == allocations@,
    {
        let ObjectSetBuilder { synchronization_group, set_id, mut requests, requires_group } =
            self;
        let ghost orig = requests@;
        let n = requests.len();
        let mut objects: Vec<ObjectData> = Vec::new();
        while requests.len() > 0
            invariant
                objects@.len() + requests@.len() == n,
                n == orig.len(),
                n == handles@.len(),
                requests@ == orig.subrange(objects@.len() as int, n as int),
                forall|k: int|
                    0 <= k < objects@.len() ==> objects@[k] == object_for(orig[k], handles@[k]),
            decreases requests@.len(),
        {
            let i = objects.len();
            let req = requests.remove(0);
            proof {
                assert(req == orig[i as int]);
                assert(requests@ =~= orig.subrange(i + 1, n as int));
            }
            let handle = handles[i];
            let obj = match req {
                ObjectSetRequest::Buffer { .. } => ObjectData::Buffer { handle },
                ObjectSetRequest::BufferView { source_set, .. } => ObjectData::BufferView {
                    handle,
                    source_set,
                },
                ObjectSetRequest::Image { .. } => ObjectData::Image { handle },
                ObjectSetRequest::ImageView { source_set, .. } => ObjectData::ImageView {
                    handle,
                    source_set,
                },
            };
            objects.push(obj);
        }
        let group = if requires_group {
            synchronization_group
        } else {
            None
        };
        let r = ObjectSet { set_id, group, objects, allocations };
        proof {
            assert(r.spec_member_handles() =~= handles@);
        }
        r
    }
}

/// An immutable batch of concretely created resources.
///
/// The set is tagged with the global id used as its address space and,
/// possibly, the synchronization group its members are bound to. After
/// construction it is read only; its members are destroyed together, in one
/// batched teardown, never partially.
pub struct ObjectSet {
    set_id: GlobalId,
    group: Option<SynchronizationGroup>,
    objects: Vec<ObjectData>,
    allocations: Vec<Allocation>,
}

impl ObjectSet {
    pub closed spec fn spec_set_id(&self) -> GlobalId {
        self.set_id
    }

    pub closed spec fn spec_group(&self) -> Option<SynchronizationGroup> {
        self.group
    }

    pub closed spec fn spec_objects(&self) -> Seq<ObjectData> {
        self.objects@
    }

    pub closed spec fn spec_allocations(&self) -> Seq<Allocation> {
        self.allocations@
    }

    /// The raw handles of all members, in creation order.
    pub open spec fn spec_member_handles(&self) -> Seq<u64> {
        Seq::new(self.spec_objects().len(), |i: int| self.spec_objects()[i].spec_raw_handle())
    }

    /// What addressing this set with an id of the given scope and index
    /// yields: "not present" when the scope is not this set's, and the
    /// member's handle when it is.
    pub open spec fn spec_lookup(&self, global: GlobalId, index: u64) -> Option<u64> {
        if global != self.spec_set_id() {
            None
        } else {
            Some(self.spec_objects()[index as int].spec_raw_handle())
        }
    }

    /// An in-scope id must carry a valid index: a matching scope with an
    /// out-of-range index indicates internal inconsistency, since no other
    /// path can have issued such an id.
    pub open spec fn spec_index_valid(&self, global: GlobalId, index: u64) -> bool {
        global == self.spec_set_id() ==> index < self.spec_objects().len()
    }

    pub fn get_set_id(&self) -> (r: GlobalId)
        ensures
            r == self.spec_set_id(),
    {
        self.set_id
    }

    /// Returns the synchronization group that controls access to this object
    /// set, if the set carries one.
    pub fn get_synchronization_group(&self) -> (r: Option<&SynchronizationGroup>)
        ensures
            match r {
                Some(g) => self.spec_group() == Some(*g),
                None => self.spec_group() is None,
            },
    {
        match &self.group {
            Some(g) => Some(g),
            None => None,
        }
    }

    /// Returns the handle of an object that is part of this object set, and
    /// "not present" when the id's set scope does not match this set.
    pub fn get_raw_handle(&self, id: GenericId) -> (r: Option<u64>)
        requires
            self.spec_index_valid(id.spec_global(), id.spec_index()),
        ensures
            r == self.spec_lookup(id.spec_global(), id.spec_index()),
    {
        if id.get_global_id() != self.set_id {
            return None;
        }
        let index64 = id.get_index();
        proof {
            assert(self.objects.len() == self.spec_objects().len());
            assert(index64 < self.spec_objects().len());
        }
        let index = index64 as usize;
        Some(self.objects[index].get_raw_handle())
    }

    /// Returns the handle of a buffer that is part of this object set, and
    /// "not present" when the id's set scope does not match this set. An
    /// in-scope id must address a buffer member.
    pub fn get_buffer_handle(&self, id: BufferId) -> (r: Option<u64>)
        requires
            self.spec_index_valid(id.spec_global(), id.spec_index()),
            id.spec_global() == self.spec_set_id() ==> self.spec_objects()[id.spec_index() as int]
                is Buffer,
        ensures
            r == self.spec_lookup(id.spec_global(), id.spec_index()),
    {
        if id.get_global_id() != self.set_id {
            return None;
        }
        let index64 = id.get_index();
        proof {
            assert(self.objects.len() == self.spec_objects().len());
            assert(index64 < self.spec_objects().len());
        }
        let index = index64 as usize;
        match &self.objects[index] {
            ObjectData::Buffer { handle } => Some(*handle),
            _ => unreached(),
        }
    }

    /// Returns the handle of a buffer view that is part of this object set,
    /// and "not present" when the id's set scope does not match this set. An
    /// in-scope id must address a buffer view member.
    pub fn get_buffer_view_handle(&self, id: BufferViewId) -> (r: Option<u64>)
        requires
            self.spec_index_valid(id.spec_global(), id.spec_index()),
            id.spec_global() == self.spec_set_id() ==> self.spec_objects()[id.spec_index() as int]
                is BufferView,
        ensures
            r == self.spec_lookup(id.spec_global(), id.spec_index()),
    {
        if id.get_global_id() != self.set_id {
            return None;
        }
        let index64 = id.get_index();
        proof {
            assert(self.objects.len() == self.spec_objects().len());
            assert(index64 < self.spec_objects().len());
        }
        let index = index64 as usize;
        match &self.objects[index] {
            ObjectData::BufferView { handle, .. } => Some(*handle),
            _ => unreached(),
        }
    }

    /// Returns the handle of an image that is part of this object set, and
    /// "not present" when the id's set scope does not match this set. An
    /// in-scope id must address an image member.
    pub fn get_image_handle(&self, id: ImageId) -> (r: Option<u64>)
        requires
            self.spec_index_valid(id.spec_global(), id.spec_index()),
            id.spec_global() == self.spec_set_id() ==> self.spec_objects()[id.spec_index() as int]
                is Image,
        ensures
            r == self.spec_lookup(id.spec_global(), id.spec_index()),
    {
        if id.get_global_id() != self.set_id {
            return None;
        }
        let index64 = id.get_index();
        proof {
            assert(self.objects.len() == self.spec_objects().len());
            assert(index64 < self.spec_objects().len());
        }
        let index = index64 as usize;
        match &self.objects[index] {
            ObjectData::Image { handle, .. } => Some(*handle),
            _ => unreached(),
        }
    }

    /// Returns the handle of an image view that is part of this object set,
    /// and "not present" when the id's set scope does not match this set. An
    /// in-scope id must address an image view member.
    pub fn get_image_view_handle(&self, id: ImageViewId) -> (r: Option<u64>)
        requires
            self.spec_index_valid(id.spec_global(), id.spec_index()),
            id.spec_global() == self.spec_set_id() ==> self.spec_objects()[id.spec_index() as int]
                is ImageView,
        ensures
            r == self.spec_lookup(id.spec_global(), id.spec_index()),
    {
        if id.get_global_id() != self.set_id {
            return None;
        }
        let index64 = id.get_index();
        proof {
            assert(self.objects.len() == self.spec_objects().len());
            assert(index64 < self.spec_objects().len());
        }
        let index = index64 as usize;
        match &self.objects[index] {
            ObjectData::ImageView { handle, .. } => Some(*handle),
            _ => unreached(),
        }
    }

    /// The one batched teardown covering this set: every member handle and
    /// every backing allocation, with nothing left out. The owner hands the
    /// batch to the external destruction service exactly once, when the last
    /// shared reference to the set is released; a partial or staged teardown
    /// does not exist.
    pub fn teardown_batch(&self) -> (r: (Vec<u64>, Vec<Allocation>))
        ensures
            r.0@ == self.spec_member_handles(),
            r.1@ == self.spec_allocations(),
    {
        let mut handles: Vec<u64> = Vec::new();
        let mut i: usize = 0;
        while i < self.objects.len()
            invariant
                i <= self.objects.len(),
                handles@.len() == i,
                forall|k: int|
                    0 <= k < i ==> handles@[k] == self.spec_objects()[k].spec_raw_handle(),
            decreases self.objects.len() - i,
        {
            handles.push(self.objects[i].get_raw_handle());
            i = i + 1;
        }
        let mut allocations: Vec<Allocation> = Vec::new();
        let mut j: usize = 0;
        while j < self.allocations.len()
            invariant
                j <= self.allocations.len(),
                allocations@.len() == j,
                forall|k: int| 0 <= k < j ==> allocations@[k] == self.spec_allocations()[k],
            decreases self.allocations.len() - j,
        {
            allocations.push(self.allocations[j]);
            j = j + 1;
        }
        proof {
            assert(handles@ =~= self.spec_member_handles());
            assert(allocations@ =~= self.spec_allocations());
        }
        (handles, allocations)
    }
}

impl PartialEq for ObjectSet {
    /// Equality of object sets is defined solely by the set's own global id,
    /// independent of content.
    fn eq(&self, other: &Self) -> (r: bool)
        ensures
            r == (self.spec_set_id() == other.spec_set_id()),
    {
        self.set_id == other.set_id
    }
}

impl vstd::std_specs::cmp::PartialEqSpecImpl for ObjectSet {
    open spec fn obeys_eq_spec() -> bool {
        true
    }

    open spec fn eq_spec(&self, other: &ObjectSet) -> bool {
        self.spec_set_id() == other.spec_set_id()
    }
}

impl PartialOrd for ObjectSet {
    /// Object sets order by their own global id, content-independent, so a
    /// set can serve as a sorted-map key with O(1)-class comparison.
    fn partial_cmp(&self, other: &Self) -> (r: Option<core::cmp::Ordering>) {
        if self.set_id.get_raw() < other.set_id.get_raw() {
            Some(core::cmp::Ordering::Less)
        } else if self.set_id.get_raw() == other.set_id.get_raw() {
            Some(core::cmp::Ordering::Equal)
        } else {
            Some(core::cmp::Ordering::Greater)
        }
    }
}

impl vstd::std_specs::cmp::PartialOrdSpecImpl for ObjectSet {
    open spec fn obeys_partial_cmp_spec() -> bool {
        true
    }

    open spec fn partial_cmp_spec(&self, other: &ObjectSet) -> Option<core::cmp::Ordering> {
        if self.spec_set_id().spec_raw() < other.spec_set_id().spec_raw() {
            Some(core::cmp::Ordering::Less)
        } else if self.spec_set_id().spec_raw() == other.spec_set_id().spec_raw() {
            Some(core::cmp::Ordering::Equal)
        } else {
            Some(core::cmp::Ordering::Greater)
        }
    }
}

/// Scope isolation: looking up an id native to one set inside a set with a
/// different identity yields "not present" — never a value and never a
/// failure.
pub proof fn lemma_scope_isolation(a: ObjectSet, b: ObjectSet, global: GlobalId, index: u64)
    requires
        a.spec_set_id() != b.spec_set_id(),
        global == b.spec_set_id(),
    ensures
        a.spec_lookup(global, index) is None,
        a.spec_index_valid(global, index),
{
}

} // verus!
