use planet_sim::engine::mesh::{count_for_draw, Mesh, MeshDescriptor, Tri};

#[test]
fn quad_has_four_corners_and_two_triangles() {
    let mesh = Mesh::quad('a', 'b', 'c', 'd');
    assert_eq!(mesh.vertices(), &['a', 'b', 'c', 'd']);
    assert_eq!(mesh.indices(), Some(&[0u16, 2, 1, 0, 3, 2][..]));
}

#[test]
fn every_quad_index_names_a_corner() {
    let mesh = Mesh::quad(0.5f32, 1.5, 2.5, 3.5);
    for index in mesh.indices().unwrap() {
        assert!((*index as usize) < mesh.vertices().len());
    }
}

#[test]
fn triangle_has_three_corners_and_no_indices() {
    let mesh = Mesh::triangle("top", "left", "right");
    assert_eq!(mesh.vertices(), &["top", "left", "right"]);
    assert_eq!(mesh.indices(), None);
    assert_eq!(mesh.index_bytes(), None);
}

#[test]
fn index_bytes_are_the_indices_in_memory_order() {
    let mesh = Mesh::quad((), (), (), ());
    let bytes = mesh.index_bytes().unwrap();
    let expected: Vec<u8> = [0u16, 2, 1, 0, 3, 2].iter().flat_map(|i| i.to_ne_bytes()).collect();
    assert_eq!(bytes.len(), 12);
    assert_eq!(bytes, expected);
}

#[test]
fn descriptor_counts_vertices_and_indices() {
    let quad = Mesh::quad(1, 2, 3, 4);
    let descriptor = MeshDescriptor::new(&quad);
    assert_eq!(descriptor.vertices, 4);
    assert_eq!(descriptor.indices, Some(6));
    assert!(descriptor.is_indexed());
    assert_eq!(descriptor.vertices(), 0..4);
    assert_eq!(descriptor.indices(), 0..6);
}

#[test]
fn descriptor_of_a_mesh_without_indices() {
    let triangle = Mesh::triangle(1, 2, 3);
    let descriptor = MeshDescriptor::new(&triangle);
    assert_eq!(descriptor.vertices, 3);
    assert_eq!(descriptor.indices, None);
    assert!(!descriptor.is_indexed());
    assert_eq!(descriptor.vertices(), 0..3);
    assert_eq!(descriptor.indices(), 0..0);
}

#[test]
fn counts_keep_their_low_32_bits() {
    assert_eq!(count_for_draw(0), 0);
    assert_eq!(count_for_draw(6), 6);
    assert_eq!(count_for_draw(u32::MAX as usize), u32::MAX);
    if usize::BITS > 32 {
        let big = (1u64 << 32) as usize;
        assert_eq!(count_for_draw(big), 0);
        assert_eq!(count_for_draw(big + 17), 17);
    }
}

#[test]
fn tri_is_a_unit() {
    assert_eq!(Tri::new(), Tri);
    assert_eq!(Tri::default(), Tri::new());
}
