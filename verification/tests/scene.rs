use glam::{DVec3, Quat, Vec3};
use planet_sim::engine::mesh::Mesh;
use planet_sim::engine::object::DrawCall;
use planet_sim::engine::scene::Scene;
use planet_sim::ids::IdAllocator;
use planet_sim::sim::body::BodyBuilder;
use planet_sim::sim::integrator::{Arithmetic, Weights};
use planet_sim::sim::Sim;

fn plus(a: DVec3, b: DVec3) -> DVec3 {
    a + b
}

fn minus(a: DVec3, b: DVec3) -> DVec3 {
    a - b
}

fn scale(s: f64, a: DVec3) -> DVec3 {
    s * a
}

fn times(a: DVec3, b: DVec3) -> DVec3 {
    a * b
}

type Op = fn(DVec3, DVec3) -> DVec3;

const ARITHMETIC: Arithmetic<DVec3, Op, Op, fn(f64, DVec3) -> DVec3, Op> = Arithmetic {
    zero: DVec3::ZERO,
    plus,
    minus,
    scale,
    times,
};

// Bodies that do not attract each other move in straight lines, a sixth of
// step times velocity with every step.
fn no_attraction(_mass: f64, _separation: DVec3) -> DVec3 {
    DVec3::ZERO
}

fn weights(step: f64) -> Weights<f64> {
    Weights {
        step,
        half_step: step / 2.0,
        sixth_step: step / 6.0,
        two: 2.0,
    }
}

fn frame(scene: &mut Scene<f64, DVec3, Vec3, Quat>, dt: f64) {
    scene.step_sim(weights(dt), &ARITHMETIC, &no_attraction, place, shade);
}

fn place(position: DVec3) -> Vec3 {
    position.as_vec3()
}

fn shade(velocity: DVec3) -> Vec3 {
    Vec3::new((velocity.length_squared() / 100.0) as f32, 0.0, 0.0)
}

fn scene() -> Scene<f64, DVec3, Vec3, Quat> {
    let sim = Sim::new(&mut IdAllocator::new(), vec![
        BodyBuilder::new(1.0),
        BodyBuilder::new(3e-6)
            .with_position(DVec3::new(0.0, -0.98329, 0.0))
            .with_velocity(DVec3::new(5.0, 0.0, 0.0)),
        BodyBuilder::new(2.0).with_position(DVec3::new(3.0, 4.0, 5.0)),
    ], DVec3::ZERO);
    let mesh = Mesh::quad(0u8, 1, 2, 3);
    Scene::new(sim, &mesh, Quat::from_rotation_z(0.0), Vec3::new(1.0, 0.0, 0.0), place)
}

#[test]
fn a_new_scene_has_one_instance_for_each_body() {
    let scene = scene();
    let instances = scene.object().instances();
    assert_eq!(instances.len(), 3);
    assert_eq!(instances.len(), scene.sim().system().bodies().len());
    assert_eq!(instances[0].position, Vec3::ZERO);
    assert_eq!(instances[1].position, Vec3::new(0.0, -0.98329, 0.0));
    assert_eq!(instances[2].position, Vec3::new(3.0, 4.0, 5.0));
    for instance in instances {
        assert_eq!(instance.rotation, Quat::IDENTITY);
        assert_eq!(instance.color, Vec3::new(1.0, 0.0, 0.0));
    }
}

#[test]
fn a_new_scene_draws_its_mesh_once_for_each_body() {
    let scene = scene();
    assert_eq!(scene.object().mesh().vertices, 4);
    match scene.object().odc() {
        DrawCall::Indexed(call) => {
            assert_eq!(call.indices, 0..6);
            assert_eq!(call.instances, 0..3);
        }
        DrawCall::Vertex(_) => panic!("a quad has an index list"),
    }
    assert_eq!(scene.object().staged_instance_buffer().size(), 3 * 76);
}

#[test]
fn a_frame_steps_the_simulation_and_moves_the_instances() {
    let mut scene = scene();
    frame(&mut scene, 3.0);
    let bodies = scene.sim().system().bodies();
    assert_eq!(bodies[1].position(), DVec3::new(2.5, -0.98329, 0.0));
    assert_eq!(bodies[1].velocity(), DVec3::new(5.0, 0.0, 0.0));
    let instances = scene.object().instances();
    assert_eq!(instances[0].position, Vec3::ZERO);
    assert_eq!(instances[0].color, Vec3::ZERO);
    assert_eq!(instances[1].position, Vec3::new(2.5, -0.98329, 0.0));
    assert_eq!(instances[1].color, Vec3::new(0.25, 0.0, 0.0));
    assert_eq!(instances[2].position, Vec3::new(3.0, 4.0, 5.0));
    assert_eq!(instances[2].color, Vec3::ZERO);
}

#[test]
fn a_frame_leaves_rotations_and_mesh_alone() {
    let sim = Sim::new(&mut IdAllocator::new(), vec![BodyBuilder::new(1.0), BodyBuilder::new(2.0).with_velocity(DVec3::X)], DVec3::ZERO);
    let turned = Quat::from_rotation_z(1.0);
    let mesh = Mesh::triangle(0u8, 1, 2);
    let mut scene = Scene::new(sim, &mesh, turned, Vec3::ONE, place);
    frame(&mut scene, 1.0);
    for instance in scene.object().instances() {
        assert_eq!(instance.rotation, turned);
    }
    assert_eq!(scene.object().mesh().vertices, 3);
    assert_eq!(scene.object().mesh().indices, None);
}

#[test]
fn the_instance_count_never_changes() {
    let mut scene = scene();
    for count in 0..200 {
        frame(&mut scene, 1e-3 * count as f64);
        assert_eq!(scene.object().instances().len(), 3);
        assert_eq!(scene.sim().system().bodies().len(), 3);
    }
}

#[test]
fn an_empty_scene_stays_empty() {
    let sim: Sim<f64, DVec3> = Sim::new(&mut IdAllocator::new(), Vec::new(), DVec3::ZERO);
    let mesh = Mesh::quad(0u8, 1, 2, 3);
    let mut scene = Scene::new(sim, &mesh, Quat::IDENTITY, Vec3::X, place);
    assert!(scene.object().instances().is_empty());
    frame(&mut scene, 1.0);
    assert!(scene.object().instances().is_empty());
    assert!(scene.sim().system().bodies().is_empty());
}

#[test]
fn instances_follow_the_bodies_in_order() {
    let mut scene = scene();
    for _ in 0..3 {
        frame(&mut scene, 0.25);
    }
    let bodies = scene.sim().system().bodies();
    let instances = scene.object().instances();
    for (body, instance) in bodies.iter().zip(instances) {
        assert_eq!(instance.position, body.position().as_vec3());
        assert_eq!(instance.color, shade(body.velocity()));
    }
}

#[test]
fn a_frame_with_gravity_colours_by_the_new_velocity() {
    let attraction = |mass: f64, x: DVec3| 6.67430e-11 * mass / x.length().powi(3) * x;
    let sim = Sim::new(&mut IdAllocator::new(), vec![
        BodyBuilder::new(1.0),
        BodyBuilder::new(3e-6)
            .with_position(DVec3::new(0.0, -0.98329, 0.0))
            .with_velocity(DVec3::new(6.38966, 0.0, 0.0)),
    ], DVec3::ZERO);
    let mesh = Mesh::quad(0u8, 1, 2, 3);
    let mut scene = Scene::new(sim, &mesh, Quat::IDENTITY, Vec3::X, place);
    scene.step_sim(weights(1e-3), &ARITHMETIC, &attraction, place, shade);
    let earth = &scene.sim().system().bodies()[1];
    assert!((earth.position().x - 1.064943333333333e-3).abs() < 1e-15);
    let instance = &scene.object().instances()[1];
    assert_eq!(instance.position, earth.position().as_vec3());
    assert_eq!(instance.color, shade(earth.velocity()));
    assert!((instance.color.x - 0.40827754).abs() < 1e-6);
}
