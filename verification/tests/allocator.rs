use publish::context::Context;

#[test]
fn first_allocation_is_zero() {
    let mut ctx = Context::new();
    assert_eq!(ctx.allocate(), 0);
}

#[test]
fn allocations_are_sequential() {
    let mut ctx = Context::new();
    for expected in 0u64..100 {
        assert_eq!(ctx.allocate(), expected);
    }
}

#[test]
fn allocations_are_pairwise_distinct() {
    let mut ctx = Context::new();
    let mut seen = std::collections::HashSet::new();
    for _ in 0..3000 {
        let id = ctx.allocate();
        assert!(seen.insert(id), "identifier {} was issued twice", id);
    }
    assert_eq!(seen.len(), 3000);
}

#[test]
fn allocations_are_strictly_increasing() {
    let mut ctx = Context::new();
    let mut previous = ctx.allocate();
    for _ in 0..3000 {
        let next = ctx.allocate();
        assert!(previous < next);
        previous = next;
    }
}

#[test]
fn fresh_context_can_allocate() {
    let ctx = Context::new();
    assert!(ctx.can_allocate());
}
