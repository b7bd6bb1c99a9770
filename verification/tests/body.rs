use glam::DVec3;
use planet_sim::ids::IdAllocator;
use planet_sim::sim::body::{Body, BodyBuilder};

#[test]
fn allocator_counts_up_from_zero() {
    let mut ids = IdAllocator::new();
    assert_eq!(ids.allocate(), 0);
    assert_eq!(ids.allocate(), 1);
    assert_eq!(ids.allocate(), 2);
}

#[test]
fn allocators_are_independent() {
    let mut a = IdAllocator::new();
    let mut b = IdAllocator::new();
    assert_eq!(a.allocate(), 0);
    assert_eq!(a.allocate(), 1);
    assert_eq!(b.allocate(), 0);
}

#[test]
fn builder_defaults_to_the_zero_vector() {
    let mut ids = IdAllocator::new();
    let body: Body<f64, DVec3> = BodyBuilder::new(2.5).build(&mut ids, DVec3::ZERO);
    assert_eq!(body.mass(), 2.5);
    assert_eq!(body.position(), DVec3::ZERO);
    assert_eq!(body.velocity(), DVec3::ZERO);
    assert_eq!(body.id(), 0);
}

#[test]
fn builder_keeps_what_it_was_given() {
    let mut ids = IdAllocator::new();
    let body = BodyBuilder::new(3e-6)
        .with_position(DVec3::new(0.0, -0.98329, 0.0))
        .with_velocity(DVec3::new(6.38966, 0.0, 0.0))
        .build(&mut ids, DVec3::ZERO);
    assert_eq!(body.mass(), 3e-6);
    assert_eq!(body.position(), DVec3::new(0.0, -0.98329, 0.0));
    assert_eq!(body.velocity(), DVec3::new(6.38966, 0.0, 0.0));
}

#[test]
fn builder_with_only_a_velocity() {
    let mut ids = IdAllocator::new();
    let body = BodyBuilder::new(1.0).with_velocity(DVec3::new(1.0, 2.0, 3.0)).build(&mut ids, DVec3::ZERO);
    assert_eq!(body.position(), DVec3::ZERO);
    assert_eq!(body.velocity(), DVec3::new(1.0, 2.0, 3.0));
}

#[test]
fn a_later_choice_replaces_an_earlier_one() {
    let mut ids = IdAllocator::new();
    let body = BodyBuilder::new(1.0)
        .with_position(DVec3::new(1.0, 1.0, 1.0))
        .with_position(DVec3::new(2.0, 2.0, 2.0))
        .build(&mut ids, DVec3::ZERO);
    assert_eq!(body.position(), DVec3::new(2.0, 2.0, 2.0));
}

#[test]
fn one_builder_builds_many_bodies_with_fresh_ids() {
    let mut ids = IdAllocator::new();
    let builder = BodyBuilder::new(1.0).with_position(DVec3::new(4.0, 5.0, 6.0));
    let first: Body<f64, DVec3> = builder.build(&mut ids, DVec3::ZERO);
    let second = builder.build(&mut ids, DVec3::ZERO);
    let third = builder.build(&mut ids, DVec3::ZERO);
    assert_eq!(first.id(), 0);
    assert_eq!(second.id(), 1);
    assert_eq!(third.id(), 2);
    assert_eq!(second.position(), first.position());
    assert_eq!(third.mass(), 1.0);
}

#[test]
fn apply_leaves_the_committed_state_alone() {
    let mut ids = IdAllocator::new();
    let mut body = BodyBuilder::new(1.0)
        .with_position(DVec3::new(1.0, 2.0, 3.0))
        .with_velocity(DVec3::new(4.0, 5.0, 6.0))
        .build(&mut ids, DVec3::ZERO);
    body.apply(DVec3::new(7.0, 8.0, 9.0), DVec3::new(-1.0, -2.0, -3.0));
    assert_eq!(body.position(), DVec3::new(1.0, 2.0, 3.0));
    assert_eq!(body.velocity(), DVec3::new(4.0, 5.0, 6.0));
    assert_eq!(body.mass(), 1.0);
    assert_eq!(body.id(), 0);
}

#[test]
fn advance_commits_what_was_applied() {
    let mut ids = IdAllocator::new();
    let mut body = BodyBuilder::new(1.0).with_position(DVec3::new(1.0, 2.0, 3.0)).build(&mut ids, DVec3::ZERO);
    body.apply(DVec3::new(7.0, 8.0, 9.0), DVec3::new(-1.0, -2.0, -3.0));
    body.advance();
    assert_eq!(body.position(), DVec3::new(7.0, 8.0, 9.0));
    assert_eq!(body.velocity(), DVec3::new(-1.0, -2.0, -3.0));
    assert_eq!(body.mass(), 1.0);
    assert_eq!(body.id(), 0);
}

#[test]
fn advance_without_apply_changes_nothing() {
    let mut ids = IdAllocator::new();
    let mut body = BodyBuilder::new(1.0)
        .with_position(DVec3::new(1.0, 2.0, 3.0))
        .with_velocity(DVec3::new(4.0, 5.0, 6.0))
        .build(&mut ids, DVec3::ZERO);
    body.advance();
    assert_eq!(body.position(), DVec3::new(1.0, 2.0, 3.0));
    assert_eq!(body.velocity(), DVec3::new(4.0, 5.0, 6.0));
}

#[test]
fn only_the_last_apply_is_committed() {
    let mut ids = IdAllocator::new();
    let mut body: Body<f64, DVec3> = BodyBuilder::new(1.0).build(&mut ids, DVec3::ZERO);
    body.apply(DVec3::new(1.0, 0.0, 0.0), DVec3::new(0.0, 1.0, 0.0));
    body.apply(DVec3::new(2.0, 0.0, 0.0), DVec3::new(0.0, 2.0, 0.0));
    body.advance();
    body.advance();
    assert_eq!(body.position(), DVec3::new(2.0, 0.0, 0.0));
    assert_eq!(body.velocity(), DVec3::new(0.0, 2.0, 0.0));
}

#[test]
fn bodies_work_with_integer_arithmetic_too() {
    let mut ids = IdAllocator::new();
    ids.allocate();
    let mut body: Body<u32, i64> = BodyBuilder::new(9).with_velocity(-4).build(&mut ids, 0);
    assert_eq!(body.id(), 1);
    assert_eq!(body.position(), 0);
    body.apply(5, 6);
    body.advance();
    assert_eq!((body.mass(), body.position(), body.velocity()), (9, 5, 6));
}

#[test]
fn what_was_not_chosen_is_the_zero_that_is_handed_in() {
    let mut ids = IdAllocator::new();
    let origin = DVec3::new(0.0, 0.0, 0.0);
    let body: Body<f64, DVec3> = BodyBuilder::new(2.5).build(&mut ids, origin);
    assert_eq!(body.mass(), 2.5);
    assert_eq!(body.position(), DVec3::ZERO);
    assert_eq!(body.velocity(), DVec3::ZERO);
    // The builder takes the zero on trust: with whole numbers counted from
    // seven, seven is where an unplaced body stands.
    let body: Body<u32, i64> = BodyBuilder::new(1).with_velocity(3).build(&mut ids, 7);
    assert_eq!(body.position(), 7);
    assert_eq!(body.velocity(), 3);
}

#[test]
fn one_builder_builds_the_same_body_again() {
    let mut ids = IdAllocator::new();
    let builder: BodyBuilder<f64, DVec3> = BodyBuilder::new(4.0).with_velocity(DVec3::new(1.0, 0.0, 0.0));
    let first = builder.build(&mut ids, DVec3::ZERO);
    let second = builder.build(&mut ids, DVec3::ZERO);
    assert!(second.id() > first.id());
    assert_eq!(second.mass(), first.mass());
    assert_eq!(second.position(), first.position());
    assert_eq!(second.position(), DVec3::ZERO);
    assert_eq!(second.velocity(), first.velocity());
}
