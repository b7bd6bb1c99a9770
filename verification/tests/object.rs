use glam::{Quat, Vec3};
use planet_sim::engine::mesh::Mesh;
use planet_sim::engine::layout::INSTANCE_RAW_SIZE;
use planet_sim::engine::object::{DrawCall, EngineObject, IndexFormat, IndexedDc, Instance, VertexDc};

fn instances(count: usize) -> Vec<Instance<Vec3, Quat>> {
    (0..count).map(|i| Instance::new(Vec3::splat(i as f32), Quat::IDENTITY, Vec3::X)).collect()
}

#[test]
fn instance_holds_what_it_was_given() {
    let instance = Instance::new(Vec3::new(1.0, 2.0, 3.0), Quat::from_rotation_z(0.0), Vec3::new(1.0, 0.0, 0.0));
    assert_eq!(instance.position, Vec3::new(1.0, 2.0, 3.0));
    assert_eq!(instance.rotation, Quat::IDENTITY);
    assert_eq!(instance.color, Vec3::X);
}

#[test]
fn a_raw_instance_is_nineteen_floats() {
    assert_eq!(INSTANCE_RAW_SIZE, 19 * std::mem::size_of::<f32>() as u64);
    assert_eq!(INSTANCE_RAW_SIZE, std::mem::size_of::<([[f32; 4]; 4], [f32; 3])>() as u64);
}

#[test]
fn staged_buffer_covers_all_instances_from_the_start() {
    let object = EngineObject::new(&Mesh::quad(1, 2, 3, 4), instances(2));
    let staged = object.staged_instance_buffer();
    assert_eq!(staged.offset(), 0);
    assert_eq!(staged.size(), 152);
    let object = EngineObject::new(&Mesh::quad(1, 2, 3, 4), instances(1));
    assert_eq!(object.staged_instance_buffer().size(), 76);
    let object = EngineObject::new(&Mesh::quad(1, 2, 3, 4), instances(1000));
    assert_eq!(object.staged_instance_buffer().size(), 76_000);
}

#[test]
fn an_indexed_mesh_is_drawn_through_its_indices() {
    let object = EngineObject::new(&Mesh::quad(1, 2, 3, 4), instances(5));
    match object.odc() {
        DrawCall::Indexed(call) => {
            assert_eq!(call.indices, 0..6);
            assert_eq!(call.instances, 0..5);
            assert_eq!(call.format, None);
            assert_eq!(call.base_vertex, None);
            assert_eq!(call.index_format(), IndexFormat::Uint16);
            assert_eq!(call.first_vertex(), 0);
        }
        DrawCall::Vertex(_) => panic!("a quad has an index list"),
    }
}

#[test]
fn a_mesh_without_indices_is_drawn_vertex_by_vertex() {
    let object = EngineObject::new(&Mesh::triangle(1, 2, 3), instances(2));
    match object.odc() {
        DrawCall::Vertex(call) => {
            assert_eq!(call.vertices, 0..3);
            assert_eq!(call.instances, 0..2);
        }
        DrawCall::Indexed(_) => panic!("a triangle has no index list"),
    }
}

#[test]
fn an_object_without_instances_draws_nothing() {
    let object = EngineObject::new(&Mesh::triangle(1, 2, 3), instances(0));
    match object.odc() {
        DrawCall::Vertex(call) => assert_eq!(call.instances, 0..0),
        DrawCall::Indexed(_) => panic!("a triangle has no index list"),
    }
}

#[test]
fn draw_calls_hold_what_they_were_given() {
    let call = VertexDc::new(1..4, 2..9);
    assert_eq!((call.vertices, call.instances), (1..4, 2..9));
    let call = IndexedDc::new(0..6, 0..2, Some(IndexFormat::Uint32), Some(-3));
    assert_eq!(call.index_format(), IndexFormat::Uint32);
    assert_eq!(call.first_vertex(), -3);
}

#[test]
fn object_describes_its_mesh() {
    let object = EngineObject::new(&Mesh::quad(1, 2, 3, 4), instances(1));
    assert_eq!(object.mesh().vertices, 4);
    assert_eq!(object.mesh().indices, Some(6));
    assert_eq!(object.instances().len(), 1);
}

#[test]
fn repaint_moves_and_recolours_one_instance() {
    let mut object = EngineObject::new(&Mesh::quad(1, 2, 3, 4), instances(3));
    object.repaint(1, Vec3::new(9.0, 8.0, 7.0), Vec3::Y);
    let all = object.instances();
    assert_eq!(all.len(), 3);
    assert_eq!(all[0].position, Vec3::splat(0.0));
    assert_eq!(all[0].color, Vec3::X);
    assert_eq!(all[1].position, Vec3::new(9.0, 8.0, 7.0));
    assert_eq!(all[1].color, Vec3::Y);
    assert_eq!(all[1].rotation, Quat::IDENTITY);
    assert_eq!(all[2].position, Vec3::splat(2.0));
}

#[test]
fn instances_can_be_rewritten_in_place() {
    let mut object = EngineObject::new(&Mesh::quad(1, 2, 3, 4), instances(2));
    for instance in object.instances_mut() {
        instance.color = Vec3::Z;
    }
    assert_eq!(object.instances().len(), 2);
    assert!(object.instances().iter().all(|i| i.color == Vec3::Z));
    assert_eq!(object.mesh().vertices, 4);
}
