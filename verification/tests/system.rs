use planet_sim::ids::IdAllocator;
use planet_sim::sim::body::BodyBuilder;
use planet_sim::sim::system::System;

fn three_bodies() -> System<i64, i64> {
    let mut ids = IdAllocator::new();
    let mut system = System::new();
    system.insert(BodyBuilder::new(10).with_position(1).with_velocity(100).build(&mut ids, 0));
    system.insert(BodyBuilder::new(20).with_position(2).with_velocity(200).build(&mut ids, 0));
    system.insert(BodyBuilder::new(30).with_position(3).with_velocity(300).build(&mut ids, 0));
    system
}

#[test]
fn a_new_system_is_empty() {
    let system: System<f64, f64> = System::new();
    assert!(system.bodies().is_empty());
}

#[test]
fn insert_keeps_the_order() {
    let system = three_bodies();
    let masses: Vec<i64> = system.bodies().iter().map(|b| b.mass()).collect();
    let ids: Vec<usize> = system.bodies().iter().map(|b| b.id()).collect();
    assert_eq!(masses, vec![10, 20, 30]);
    assert_eq!(ids, vec![0, 1, 2]);
}

#[test]
fn the_sweep_leaves_the_body_itself_out() {
    let system = three_bodies();
    let bodies = system.bodies();
    let sum_of_masses = |total: i64, mass: i64, _position: i64| total + mass;
    assert_eq!(system.sweep(&bodies[0], 0, sum_of_masses), 50);
    assert_eq!(system.sweep(&bodies[1], 0, sum_of_masses), 40);
    assert_eq!(system.sweep(&bodies[2], 0, sum_of_masses), 30);
}

#[test]
fn the_sweep_starts_from_the_start_value() {
    let system = three_bodies();
    let bodies = system.bodies();
    let sum_of_positions = |total: i64, _mass: i64, position: i64| total + position;
    assert_eq!(system.sweep(&bodies[1], 1000, sum_of_positions), 1004);
}

#[test]
fn the_sweep_visits_the_others_in_order() {
    let system = three_bodies();
    let bodies = system.bodies();
    let append = |total: i64, mass: i64, _position: i64| total * 100 + mass;
    assert_eq!(system.sweep(&bodies[1], 0, append), 1030);
    assert_eq!(system.sweep(&bodies[0], 7, append), 72030);
}

#[test]
fn an_isolated_body_feels_nothing() {
    let mut ids = IdAllocator::new();
    let mut system: System<i64, i64> = System::new();
    system.insert(BodyBuilder::new(10).with_position(1).build(&mut ids, 0));
    let bodies = system.bodies();
    let total = system.sweep(&bodies[0], 42, |_total, _mass, _position| unreachable!());
    assert_eq!(total, 42);
}

#[test]
fn the_sweep_over_an_empty_system_is_the_start_value() {
    let mut ids = IdAllocator::new();
    let stranger = BodyBuilder::new(10).with_position(1).build(&mut ids, 0);
    let system: System<i64, i64> = System::new();
    assert_eq!(system.sweep(&stranger, 5, |total, mass, _position| total + mass), 5);
}

#[test]
fn exclusion_goes_by_identifier_not_by_place() {
    let mut ids = IdAllocator::new();
    let mut system: System<i64, i64> = System::new();
    system.insert(BodyBuilder::new(10).build(&mut ids, 0));
    system.insert(BodyBuilder::new(20).build(&mut ids, 0));
    // A body that is not in the system but carries the identifier 1.
    let mut other_ids = IdAllocator::new();
    other_ids.allocate();
    let twin = BodyBuilder::new(99).build(&mut other_ids, 0);
    assert_eq!(twin.id(), 1);
    assert_eq!(system.sweep(&twin, 0, |total, mass, _position| total + mass), 10);
}

#[test]
fn step_moves_every_body_to_what_the_integrator_returns() {
    let mut system = three_bodies();
    system.step_with(5, |system: &System<i64, i64>, index: usize, dt: i64| {
        let body = &system.bodies()[index];
        (body.position() + dt * body.velocity(), body.velocity() + 1)
    });
    let positions: Vec<i64> = system.bodies().iter().map(|b| b.position()).collect();
    let velocities: Vec<i64> = system.bodies().iter().map(|b| b.velocity()).collect();
    assert_eq!(positions, vec![501, 1002, 1503]);
    assert_eq!(velocities, vec![101, 201, 301]);
}

#[test]
fn step_shows_every_body_the_state_at_the_start() {
    let mut system = three_bodies();
    // Every body takes over the position of its successor. If a body saw a
    // neighbour that had already moved, the positions would not rotate.
    system.step_with((), |system: &System<i64, i64>, index: usize, _dt: ()| {
        let bodies = system.bodies();
        let successor = &bodies[(index + 1) % bodies.len()];
        (successor.position(), successor.velocity())
    });
    let positions: Vec<i64> = system.bodies().iter().map(|b| b.position()).collect();
    let velocities: Vec<i64> = system.bodies().iter().map(|b| b.velocity()).collect();
    assert_eq!(positions, vec![2, 3, 1]);
    assert_eq!(velocities, vec![200, 300, 100]);
}

#[test]
fn step_keeps_identifiers_masses_and_count() {
    let mut system = three_bodies();
    for _ in 0..10 {
        system.step_with(1, |system: &System<i64, i64>, index: usize, dt: i64| {
            let body = &system.bodies()[index];
            (body.position() + dt, -body.velocity())
        });
    }
    let ids: Vec<usize> = system.bodies().iter().map(|b| b.id()).collect();
    let masses: Vec<i64> = system.bodies().iter().map(|b| b.mass()).collect();
    let positions: Vec<i64> = system.bodies().iter().map(|b| b.position()).collect();
    assert_eq!(ids, vec![0, 1, 2]);
    assert_eq!(masses, vec![10, 20, 30]);
    assert_eq!(positions, vec![11, 12, 13]);
}

#[test]
fn step_asks_the_integrator_once_for_each_body_in_order() {
    let mut system = three_bodies();
    let asked = std::cell::RefCell::new(Vec::new());
    system.step_with(0, |system: &System<i64, i64>, index: usize, _dt: i64| {
        asked.borrow_mut().push(index);
        let body = &system.bodies()[index];
        (body.position(), body.velocity())
    });
    assert_eq!(asked.into_inner(), vec![0, 1, 2]);
}

#[test]
fn step_of_an_empty_system_does_nothing() {
    let mut system: System<i64, i64> = System::new();
    system.step_with(1, |_system: &System<i64, i64>, _index: usize, _dt: i64| unreachable!());
    assert!(system.bodies().is_empty());
}

#[test]
fn a_step_commits_so_that_a_later_advance_changes_nothing() {
    let mut ids = IdAllocator::new();
    let mut system: System<i64, i64> = System::new();
    system.insert(BodyBuilder::new(1).with_position(7).build(&mut ids, 0));
    system.step_with(3, |system: &System<i64, i64>, index: usize, dt: i64| {
        let body = &system.bodies()[index];
        (body.position() + dt, body.velocity())
    });
    assert_eq!(system.bodies()[0].position(), 10);
    system.step_with(3, |system: &System<i64, i64>, index: usize, dt: i64| {
        let body = &system.bodies()[index];
        (body.position() + dt, body.velocity())
    });
    assert_eq!(system.bodies()[0].position(), 13);
}
