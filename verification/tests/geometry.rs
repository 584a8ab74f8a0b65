use lumen::buffers::{index_buffer_contents, light_buffer_size, slot_offset, MAX_LIGHTS};
use lumen::mesh::{cube_indices, plane_indices, quad_list_indices, sphere_indices};
use lumen::shading::triangles_per_vertex;

#[test]
fn plane_is_two_triangles_over_four_vertices() {
    assert_eq!(plane_indices(), vec![0, 1, 2, 0, 2, 3]);
}

#[test]
fn cube_has_six_quads() {
    let idx = cube_indices();
    assert_eq!(idx.len(), 36);
    assert_eq!(&idx[0..6], &[0, 1, 2, 0, 2, 3]);
    assert_eq!(&idx[30..36], &[20, 21, 22, 20, 22, 23]);
    assert!(idx.iter().all(|&i| i < 24));
}

#[test]
fn quad_list_of_zero_faces_is_empty() {
    assert!(quad_list_indices(0).is_empty());
}

#[test]
fn sphere_one_cell() {
    // one ring of one cell: vertices 0,1 on ring 0 and 2,3 on ring 1
    assert_eq!(sphere_indices(1, 1), vec![0, 2, 1, 2, 3, 1]);
}

#[test]
fn sphere_two_by_three() {
    let idx = sphere_indices(2, 3);
    assert_eq!(idx.len(), 36);
    // cell (y = 1, x = 2): a = 1 * 4 + 2 = 6, b = 10
    let cell = &idx[6 * (1 * 3 + 2)..6 * (1 * 3 + 2) + 6];
    assert_eq!(cell, &[6, 10, 7, 10, 11, 7]);
}

#[test]
fn sphere_indices_stay_inside_vertex_grid() {
    let (lat, lon) = (32u32, 32u32);
    let idx = sphere_indices(lat, lon);
    assert_eq!(idx.len(), 6 * 32 * 32);
    let vertices = (lat + 1) * (lon + 1);
    assert!(idx.iter().all(|&i| i < vertices));
    assert_eq!(*idx.iter().max().unwrap(), vertices - 1);
    for t in idx.chunks(3) {
        assert!(t[0] != t[1] && t[0] != t[2] && t[1] != t[2]);
    }
}

#[test]
fn sphere_without_cells_has_no_indices() {
    assert!(sphere_indices(0, 32).is_empty());
    assert!(sphere_indices(32, 0).is_empty());
}

#[test]
fn corner_counts_of_plane() {
    let counts = triangles_per_vertex(&plane_indices(), 4);
    assert_eq!(counts, vec![2, 1, 2, 1]);
    assert_eq!(counts.iter().sum::<u32>(), 6);
}

#[test]
fn corner_counts_mark_unused_vertices() {
    let counts = triangles_per_vertex(&vec![0, 1, 2, 2, 1, 4], 6);
    assert_eq!(counts, vec![1, 2, 2, 0, 1, 0]);
}

#[test]
fn corner_counts_count_repeated_corners() {
    let counts = triangles_per_vertex(&vec![1, 1, 1], 2);
    assert_eq!(counts, vec![0, 3]);
}

#[test]
fn index_bytes_are_the_indices_in_machine_order() {
    let bytes = index_buffer_contents(&vec![1, 0x0102_0304]);
    assert_eq!(bytes.len(), 8);
    let le = vec![1, 0, 0, 0, 4, 3, 2, 1];
    let be = vec![0, 0, 0, 1, 1, 2, 3, 4];
    assert!(bytes == le || bytes == be);
    let native: Vec<u8> = [1u32, 0x0102_0304].iter().flat_map(|i| i.to_ne_bytes()).collect();
    assert_eq!(bytes, native);
}

#[test]
fn light_slots() {
    assert_eq!(MAX_LIGHTS, 10);
    assert_eq!(light_buffer_size(32), 320);
    assert_eq!(slot_offset(0, 32), 0);
    assert_eq!(slot_offset(9, 32), 288);
    assert!(slot_offset(9, 32) + 32 <= light_buffer_size(32));
    assert_eq!(slot_offset(3, 80), 240);
    // slots of different lights never overlap
    for i in 0..MAX_LIGHTS {
        for j in 0..MAX_LIGHTS {
            if i != j {
                let (a, b) = (slot_offset(i, 32), slot_offset(j, 32));
                assert!(a + 32 <= b || b + 32 <= a);
            }
        }
    }
}

#[test]
fn sequential_binding_numbers() {
    assert_eq!(lumen::layout::sequential_bindings(4), vec![0, 1, 2, 3]);
    assert!(lumen::layout::sequential_bindings(0).is_empty());
}
