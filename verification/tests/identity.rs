use rosella::id::{GlobalId, GlobalIdSource, IncrementingGenerator, LocalId, NamedUUID, UUID};

#[test]
fn global_ids_pairwise_distinct() {
    let mut source = GlobalIdSource::new();
    let a = GlobalId::new(&mut source);
    let b = GlobalId::new(&mut source);
    let c = GlobalId::new(&mut source);
    assert_ne!(a, b);
    assert_ne!(a, c);
    assert_ne!(b, c);
    assert_ne!(a.get_raw(), 0);
    assert_ne!(b.get_raw(), 0);
    assert_ne!(c.get_raw(), 0);
}

#[test]
fn global_id_never_reserved_named_space() {
    let mut source = GlobalIdSource::new();
    for _ in 0..16 {
        let id = GlobalId::new(&mut source);
        assert_ne!(id.get_raw(), 1);
    }
}

#[test]
fn global_id_from_raw_round_trip() {
    let id = GlobalId::from_raw(42);
    assert_eq!(id.get_raw(), 42);
    let same = id.clone();
    assert_eq!(id, same);
    let other = GlobalId::from_raw(43);
    assert_ne!(id, other);
}

#[test]
fn local_id_from_raw_and_hash() {
    let a = LocalId::from_raw(1);
    let b = a.clone();
    assert_eq!(a, b);
    let c = LocalId::from_raw(1);
    assert_eq!(a, c);
    // a zero hash is remapped to 1 instead of failing
    assert_eq!(LocalId::from_hash(0).get_raw(), 1);
    assert_eq!(LocalId::from_hash(7).get_raw(), 7);
}

#[test]
fn uuid_ordering_is_lexicographic() {
    let small = UUID { global: GlobalId::from_raw(2), local: LocalId::from_raw(99) };
    let large = UUID { global: GlobalId::from_raw(3), local: LocalId::from_raw(1) };
    assert!(small < large);
    let tie_small = UUID { global: GlobalId::from_raw(2), local: LocalId::from_raw(1) };
    assert!(tie_small < small);
}

#[test]
fn generator_uuids_pairwise_distinct() {
    let mut source = GlobalIdSource::new();
    let mut generator = IncrementingGenerator::new(&mut source);
    let global = generator.get_global_id();
    let a = generator.next().unwrap();
    let b = generator.next().unwrap();
    let c = generator.next().unwrap();
    assert_eq!(a.global, global);
    assert_eq!(b.global, global);
    assert_eq!(c.global, global);
    assert_ne!(a, b);
    assert_ne!(a, c);
    assert_ne!(b, c);
}

#[test]
fn generators_never_share_an_address_space() {
    let mut source = GlobalIdSource::new();
    let mut g1 = IncrementingGenerator::new(&mut source);
    let mut g2 = IncrementingGenerator::new(&mut source);
    let a = g1.next().unwrap();
    let b = g2.next().unwrap();
    assert_ne!(a.global, b.global);
    assert_ne!(a, b);
}

#[test]
fn named_uuid_deterministic() {
    let a = NamedUUID::new(String::from("foo"));
    let b = NamedUUID::new(String::from("foo"));
    assert_eq!(a.get_local_id(), b.get_local_id());
    assert_eq!(a.get_uuid(), b.get_uuid());
    assert_eq!(a, b);
    let c = NamedUUID::new_const("foo");
    assert_eq!(a.get_uuid(), c);
}

#[test]
fn named_uuid_matches_xxh3_of_name() {
    // the hash-derived local id is exactly the xxh3 of the name's bytes,
    // collapsed to 1 when the hash is 0
    let named = NamedUUID::new(String::from("foo"));
    let hash = xxhash_rust::xxh3::xxh3_64("foo".as_bytes());
    let expected = if hash == 0 { 1 } else { hash };
    assert_eq!(named.get_local_id().get_raw(), expected);
}

#[test]
fn named_uuid_shape() {
    let named = NamedUUID::new(String::from("shared-concept"));
    assert_eq!(named.get_name().as_str(), "shared-concept");
    assert_eq!(named.get_global_id().get_raw(), 1);
    let uuid = named.get_uuid();
    assert_eq!(uuid.global, named.get_global_id());
    assert_eq!(uuid.local, named.get_local_id());
    let different = NamedUUID::new(String::from("other-concept"));
    assert_ne!(named, different);
}

#[test]
fn named_uuid_orders_by_local_id() {
    let a = NamedUUID::new(String::from("foo"));
    let b = NamedUUID::new(String::from("bar"));
    let by_raw = a.get_local_id().get_raw() < b.get_local_id().get_raw();
    assert_eq!(a < b, by_raw);
    assert!(a <= a.clone());
}

#[test]
fn named_uuid_compares_to_plain_uuid() {
    let named = NamedUUID::new(String::from("foo"));
    let uuid = NamedUUID::new_const("foo");
    assert!(named == uuid);
    let other = NamedUUID::new_const("bar");
    assert!(named != other);
}
