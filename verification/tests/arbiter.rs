use pinetime_core::arbiter::{Resource, ResourceArbiter};

// The battery state is shared by a priority-1 sampler and a priority-2
// renderer, so its ceiling is 2; the radio interrupt at priority 3 does not
// share it.
const SHARED_CEILING: u8 = 2;
const SHARER_PRIORITY: u8 = 2;
const WRITER_PRIORITY: u8 = 1;
const NON_SHARER_PRIORITY: u8 = 3;

#[test]
fn sharers_are_masked_at_every_preemption_point_inside_a_section() {
    // a two-field value whose halves must never be seen out of step
    let mut res: Resource<(u32, u32)> = Resource::new(SHARED_CEILING, (0, 0));
    let mut arb = ResourceArbiter::begin(WRITER_PRIORITY);

    arb.enter(SHARED_CEILING);
    let pair = res.borrow_mut(&arb);
    pair.0 = 7;
    // injected preemption point between the two half-writes: a task that
    // shares the resource must not run here
    assert!(!arb.may_preempt(SHARER_PRIORITY));
    assert!(!arb.may_preempt(WRITER_PRIORITY));
    pair.1 = 14;
    arb.exit();

    // once the section is closed, the sharer runs and sees both halves
    let mut sharer = ResourceArbiter::begin(SHARER_PRIORITY);
    assert!(arb.may_preempt(SHARER_PRIORITY));
    sharer.enter(SHARED_CEILING);
    let observed = *res.get(&sharer);
    sharer.exit();
    assert_eq!(observed, (7, 14));
}

#[test]
fn non_sharing_interrupt_still_preempts_mid_section() {
    let mut res: Resource<(u32, u32)> = Resource::new(SHARED_CEILING, (1, 2));
    let mut arb = ResourceArbiter::begin(WRITER_PRIORITY);

    arb.enter(SHARED_CEILING);
    let pair = res.borrow_mut(&arb);
    pair.0 = 3;
    // the radio interrupt does not touch this resource and keeps its
    // latency: it may fire between the half-writes
    assert!(arb.may_preempt(NON_SHARER_PRIORITY));
    pair.1 = 6;
    arb.exit();
}

#[test]
fn repeated_sections_never_expose_a_torn_pair() {
    // writer keeps the invariant second == 2 * first, updating in two
    // steps; the sharer polls at every injected preemption point and reads
    // only when it would actually get to run
    let mut res: Resource<(u32, u32)> = Resource::new(SHARED_CEILING, (0, 0));
    let mut writer = ResourceArbiter::begin(WRITER_PRIORITY);
    let mut sharer = ResourceArbiter::begin(SHARER_PRIORITY);

    for round in 1..50u32 {
        writer.enter(SHARED_CEILING);
        let pair = res.borrow_mut(&writer);
        pair.0 = round;
        // preemption point: the sharer is masked while the pair is torn
        assert!(!writer.may_preempt(SHARER_PRIORITY));
        pair.1 = 2 * round;
        writer.exit();

        // the sharer runs now and must see a consistent pair
        assert!(writer.may_preempt(SHARER_PRIORITY));
        sharer.enter(SHARED_CEILING);
        let observed = *res.get(&sharer);
        sharer.exit();
        assert_eq!(observed.1, 2 * observed.0);
    }
}

#[test]
fn exit_restores_the_prior_priority() {
    let mut arb = ResourceArbiter::begin(WRITER_PRIORITY);
    assert!(arb.may_preempt(SHARER_PRIORITY));
    arb.enter(SHARED_CEILING);
    assert!(!arb.may_preempt(SHARER_PRIORITY));
    arb.exit();
    assert!(arb.may_preempt(SHARER_PRIORITY));
}
