use rosella::descriptors::{
    Allocation, BufferCreateDesc, BufferViewCreateDesc, ImageCreateDesc, ImageViewCreateDesc,
};
use rosella::id::GlobalIdSource;
use rosella::object_set::ObjectSetBuilder;
use rosella::sync_group::SynchronizationGroup;

fn buffer_desc() -> BufferCreateDesc {
    BufferCreateDesc { size: 1024, usage_flags: 3 }
}

fn buffer_view_desc() -> BufferViewCreateDesc {
    BufferViewCreateDesc { format: 44, offset: 0, range: 1024 }
}

fn image_desc() -> ImageCreateDesc {
    ImageCreateDesc { width: 64, height: 64, format: 37, usage_flags: 5 }
}

fn image_view_desc() -> ImageViewCreateDesc {
    ImageViewCreateDesc { format: 37 }
}

#[test]
fn build_and_lookup() {
    let mut source = GlobalIdSource::new();
    let group = SynchronizationGroup::new(&mut source);
    let mut builder = ObjectSetBuilder::new(group, &mut source);

    let buffer = builder.add_default_gpu_only_buffer(buffer_desc());
    let view = builder.add_internal_buffer_view(buffer_view_desc(), buffer);
    let image = builder.add_default_gpu_cpu_image(image_desc());
    let image_view = builder.add_internal_image_view(image_view_desc(), image);
    assert_eq!(builder.get_requests().len(), 4);

    let handles = vec![70, 71, 72, 73];
    let allocations = vec![Allocation { handle: 900 }, Allocation { handle: 901 }];
    let set = builder.build(handles, allocations);

    assert_eq!(set.get_set_id(), buffer.get_global_id());
    assert_eq!(set.get_buffer_handle(buffer), Some(70));
    assert_eq!(set.get_buffer_view_handle(view), Some(71));
    assert_eq!(set.get_image_handle(image), Some(72));
    assert_eq!(set.get_image_view_handle(image_view), Some(73));
    assert_eq!(set.get_raw_handle(buffer.as_generic()), Some(70));
    assert_eq!(set.get_raw_handle(image_view.as_generic()), Some(73));

    let retained = set.get_synchronization_group().expect("group must be retained");
    assert_eq!(*retained, group);
}

#[test]
fn gpu_cpu_buffer_and_gpu_only_image() {
    let mut source = GlobalIdSource::new();
    let group = SynchronizationGroup::new(&mut source);
    let mut builder = ObjectSetBuilder::new(group, &mut source);
    let buffer = builder.add_default_gpu_cpu_buffer(buffer_desc());
    let image = builder.add_default_gpu_only_image(image_desc());
    let set = builder.build(vec![5, 6], vec![]);
    assert_eq!(set.get_buffer_handle(buffer), Some(5));
    assert_eq!(set.get_image_handle(image), Some(6));
}

#[test]
fn scope_isolation() {
    // an id native to set B is "not present" in set A: never a value,
    // never a crash
    let mut source = GlobalIdSource::new();
    let group = SynchronizationGroup::new(&mut source);

    let mut builder_a = ObjectSetBuilder::new(group, &mut source);
    let buffer_a = builder_a.add_default_gpu_only_buffer(buffer_desc());
    let set_a = builder_a.build(vec![10], vec![]);

    let mut builder_b = ObjectSetBuilder::new(group, &mut source);
    let buffer_b = builder_b.add_default_gpu_only_buffer(buffer_desc());
    let image_b = builder_b.add_default_gpu_only_image(image_desc());
    let set_b = builder_b.build(vec![20, 21], vec![]);

    assert_ne!(set_a.get_set_id(), set_b.get_set_id());
    assert_eq!(set_a.get_buffer_handle(buffer_b), None);
    assert_eq!(set_a.get_image_handle(image_b), None);
    assert_eq!(set_a.get_raw_handle(buffer_b.as_generic()), None);
    assert_eq!(set_a.get_raw_handle(image_b.as_generic()), None);
    assert_eq!(set_b.get_buffer_handle(buffer_a), None);
    // lookups in the native set still succeed
    assert_eq!(set_a.get_buffer_handle(buffer_a), Some(10));
    assert_eq!(set_b.get_buffer_handle(buffer_b), Some(20));
}

#[test]
fn object_sets_compare_by_identity() {
    let mut source = GlobalIdSource::new();
    let group = SynchronizationGroup::new(&mut source);
    let mut builder_a = ObjectSetBuilder::new(group, &mut source);
    builder_a.add_default_gpu_only_buffer(buffer_desc());
    let set_a = builder_a.build(vec![1], vec![]);
    let mut builder_b = ObjectSetBuilder::new(group, &mut source);
    builder_b.add_default_gpu_only_buffer(buffer_desc());
    let set_b = builder_b.build(vec![1], vec![]);
    // identical content, distinct identity
    assert!(set_a != set_b);
    // ordering is by identity too: the first set drew the smaller global id
    assert!(set_a < set_b);
}

#[test]
fn atomic_teardown_batch_covers_all_members() {
    // building [bufferA, viewOfA] yields one teardown batch covering both
    // members and every backing allocation; nothing is torn down piecemeal
    let mut source = GlobalIdSource::new();
    let group = SynchronizationGroup::new(&mut source);
    let mut builder = ObjectSetBuilder::new(group, &mut source);
    let buffer_a = builder.add_default_gpu_only_buffer(buffer_desc());
    builder.add_internal_buffer_view(buffer_view_desc(), buffer_a);
    let set = builder.build(vec![700, 701], vec![Allocation { handle: 42 }]);

    let (handles, allocations) = set.teardown_batch();
    assert_eq!(handles, vec![700, 701]);
    assert_eq!(allocations, vec![Allocation { handle: 42 }]);
}

#[test]
fn cross_domain_rejection() {
    // a target set bound to a different synchronization group must be
    // rejected before build() is ever reached
    let mut source = GlobalIdSource::new();
    let group_one = SynchronizationGroup::new(&mut source);
    let group_two = SynchronizationGroup::new(&mut source);
    assert_ne!(group_one, group_two);

    let mut builder_other = ObjectSetBuilder::new(group_two, &mut source);
    let foreign_buffer = builder_other.add_default_gpu_only_buffer(buffer_desc());
    let foreign_set = builder_other.build(vec![30], vec![]);

    let builder = ObjectSetBuilder::new(group_one, &mut source);
    assert!(!builder.can_add_external_buffer_view(&foreign_set, foreign_buffer));
}

#[test]
fn cross_domain_rejection_images() {
    let mut source = GlobalIdSource::new();
    let group_one = SynchronizationGroup::new(&mut source);
    let group_two = SynchronizationGroup::new(&mut source);

    let mut builder_other = ObjectSetBuilder::new(group_two, &mut source);
    let foreign_image = builder_other.add_default_gpu_only_image(image_desc());
    let foreign_set = builder_other.build(vec![31], vec![]);

    let builder = ObjectSetBuilder::new(group_one, &mut source);
    assert!(!builder.can_add_external_image_view(&foreign_set, foreign_image));
}

#[test]
fn external_view_same_domain_accepted() {
    let mut source = GlobalIdSource::new();
    let group = SynchronizationGroup::new(&mut source);

    let mut builder_source = ObjectSetBuilder::new(group, &mut source);
    let source_buffer = builder_source.add_default_gpu_only_buffer(buffer_desc());
    let source_set = builder_source.build(vec![500], vec![]);

    let mut builder = ObjectSetBuilder::new(group, &mut source);
    assert!(builder.can_add_external_buffer_view(&source_set, source_buffer));
    let view = builder.add_external_buffer_view(buffer_view_desc(), source_set, source_buffer);
    let set = builder.build(vec![501], vec![]);
    assert_eq!(set.get_buffer_view_handle(view), Some(501));
}

#[test]
fn external_image_view_same_domain_accepted() {
    let mut source = GlobalIdSource::new();
    let group = SynchronizationGroup::new(&mut source);

    let mut builder_source = ObjectSetBuilder::new(group, &mut source);
    let source_image = builder_source.add_default_gpu_only_image(image_desc());
    let source_set = builder_source.build(vec![600], vec![]);

    let mut builder = ObjectSetBuilder::new(group, &mut source);
    assert!(builder.can_add_external_image_view(&source_set, source_image));
    let view = builder.add_external_image_view(image_view_desc(), source_set, source_image);
    let set = builder.build(vec![601], vec![]);
    assert_eq!(set.get_image_view_handle(view), Some(601));
}

#[test]
fn group_retained_only_if_required() {
    let mut source = GlobalIdSource::new();

    // a builder that registered nothing never required its group
    let group = SynchronizationGroup::new(&mut source);
    let idle_builder = ObjectSetBuilder::new(group, &mut source);
    let idle_set = idle_builder.build(vec![], vec![]);
    assert!(idle_set.get_synchronization_group().is_none());

    // a builder without a group can still produce an (empty) set
    let no_group_builder = ObjectSetBuilder::new_no_group(&mut source);
    let no_group_set = no_group_builder.build(vec![], vec![]);
    assert!(no_group_set.get_synchronization_group().is_none());

    // one registered request retains the group on the set
    let mut active_builder = ObjectSetBuilder::new(group, &mut source);
    active_builder.add_default_gpu_only_buffer(buffer_desc());
    let active_set = active_builder.build(vec![1], vec![]);
    assert!(active_set.get_synchronization_group().is_some());
}
