use ws_push::id::ConnectionIdGenerator;

#[test]
fn ids_are_distinct_and_increasing() {
    let mut generator = ConnectionIdGenerator::new();
    let a = generator.generate_id();
    let b = generator.generate_id();
    let c = generator.generate_id();
    assert_ne!(a, b);
    assert_ne!(a, c);
    assert_ne!(b, c);
    assert!(a.value() < b.value());
    assert!(b.value() < c.value());
}

#[test]
fn numbering_starts_at_one() {
    let mut generator = ConnectionIdGenerator::new();
    assert_eq!(generator.generate_id().value(), 1);
    assert_eq!(generator.generate_id().value(), 2);
}

#[test]
fn default_generator_matches_new() {
    let mut by_default = ConnectionIdGenerator::default();
    let mut by_new = ConnectionIdGenerator::new();
    assert_eq!(by_default.generate_id(), by_new.generate_id());
}

#[test]
fn fresh_generator_restarts_numbering() {
    let mut first = ConnectionIdGenerator::new();
    first.generate_id();
    first.generate_id();
    let mut second = ConnectionIdGenerator::new();
    assert_eq!(second.generate_id().value(), 1);
}

#[test]
fn many_ids_are_pairwise_distinct() {
    let mut generator = ConnectionIdGenerator::new();
    let mut seen: Vec<u64> = Vec::new();
    let mut n: usize = 0;
    while n < 100 {
        let id = generator.generate_id();
        assert!(!seen.contains(&id.value()));
        seen.push(id.value());
        n += 1;
    }
}
