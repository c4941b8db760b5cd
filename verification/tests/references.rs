use rosella::refs::{
    BufferInfo, BufferReference, Definition, ImageInfo, Reference, ResourceIdSource,
};

#[test]
fn resource_ids_pairwise_distinct() {
    let mut source = ResourceIdSource::new();
    let a = rosella::refs::BufferId::new(&mut source);
    let b = rosella::refs::BufferId::new(&mut source);
    let c = rosella::refs::BufferId::new(&mut source);
    assert_ne!(a, b);
    assert_ne!(a, c);
    assert_ne!(b, c);
}

#[test]
fn reference_state_queries() {
    let mut source = ResourceIdSource::new();
    let id = rosella::refs::BufferId::new(&mut source);
    let info = BufferInfo {};
    let def = Definition::new(id, &info);
    assert_eq!(def.get_id(), id);

    let placeholder: BufferReference = Reference::Placeholder(id);
    assert!(placeholder.is_placeholder());
    assert!(!placeholder.is_defined());
    assert!(placeholder.get_info().is_none());
    assert_eq!(placeholder.get_id(), id);

    let defined: BufferReference = Reference::Defined(def);
    assert!(defined.is_defined());
    assert!(!defined.is_placeholder());
    assert!(defined.get_info().is_some());
    assert_eq!(defined.get_id(), id);
}

#[test]
fn reference_equality_transitive() {
    // a placeholder and the later definition resolving the same id compare
    // equal to each other and to the id itself, across all three shapes
    let mut source = ResourceIdSource::new();
    let id = rosella::refs::BufferId::new(&mut source);
    let info = BufferInfo {};
    let def = Definition::new(id, &info);
    let placeholder: BufferReference = Reference::Placeholder(id);
    let defined: BufferReference = Reference::Defined(def);

    assert!(placeholder == defined);
    assert!(placeholder == id);
    assert!(defined == id);
    assert!(defined == def);
    assert!(placeholder == def);
    assert!(def == id);
}

#[test]
fn equality_ignores_descriptor_payload() {
    let mut source = ResourceIdSource::new();
    let id = rosella::refs::ImageId::new(&mut source);
    let info_a = ImageInfo {};
    let info_b = ImageInfo {};
    let def_a = Definition::new(id, &info_a);
    let def_b = Definition::new(id, &info_b);
    assert!(def_a == def_b);

    let other = rosella::refs::ImageId::new(&mut source);
    let def_other = Definition::new(other, &info_a);
    assert!(def_a != def_other);
}
