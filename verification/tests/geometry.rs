use render_engine::mesh::{
    cube_indices, grid_lines, GRID_SIZE, index_buffer_contents, sequential_indices, sphere_indices, CUBE_VERTEX_COUNT,
};

#[test]
fn cube_index_list() {
    let v = cube_indices();
    assert_eq!(
        v,
        vec![
            0, 1, 2, 0, 2, 3, 4, 5, 6, 4, 6, 7, 8, 9, 10, 8, 10, 11, 12, 13, 14, 12, 14, 15, 16,
            17, 18, 16, 18, 19, 20, 21, 22, 20, 22, 23,
        ]
    );
    assert!(v.iter().all(|&i| i < CUBE_VERTEX_COUNT));
}

#[test]
fn sphere_single_quad() {
    assert_eq!(sphere_indices(1, 1), vec![0, 2, 1, 2, 3, 1]);
}

#[test]
fn sphere_two_by_three() {
    let v = sphere_indices(2, 3);
    assert_eq!(v.len(), 36);
    // Quad at stack 1, slice 2: first = 1 * 4 + 2 = 6, second = 10.
    assert_eq!(&v[30..36], &[6, 10, 7, 10, 11, 7]);
    let vertex_count = (2 + 1) * (3 + 1);
    assert!(v.iter().all(|&i| i < vertex_count));
    assert_eq!(*v.iter().max().unwrap(), vertex_count - 1);
}

#[test]
fn sphere_without_quads_is_empty() {
    assert!(sphere_indices(0, 16).is_empty());
    assert!(sphere_indices(16, 0).is_empty());
    assert!(sphere_indices(0, u32::MAX).is_empty());
}

#[test]
fn sphere_default_tessellation_fits() {
    let v = sphere_indices(32, 32);
    assert_eq!(v.len(), 6 * 32 * 32);
    assert!(v.iter().all(|&i| i < 33 * 33));
}

#[test]
fn sequential_indices_count_up() {
    assert_eq!(sequential_indices(5), vec![0, 1, 2, 3, 4]);
    assert!(sequential_indices(0).is_empty());
}

#[test]
fn index_buffer_bytes_in_machine_order() {
    let indices = vec![1u32, 0x0102_0304, u32::MAX];
    let (bytes, count) = index_buffer_contents(&indices);
    let expected: Vec<u8> = indices.iter().flat_map(|i| i.to_ne_bytes()).collect();
    assert_eq!(bytes, expected);
    assert_eq!(bytes.len(), 12);
    assert_eq!(count, 3);
    let (empty, zero) = index_buffer_contents(&Vec::new());
    assert!(empty.is_empty());
    assert_eq!(zero, 0);
}

#[test]
fn grid_lines_skip_the_axes() {
    let lines = grid_lines();
    assert_eq!(lines.len(), 2 * GRID_SIZE as usize);
    assert_eq!(lines[0].offset, -20);
    assert!(lines[0].major);
    assert_eq!(lines[19].offset, -1);
    assert_eq!(lines[20].offset, 1);
    assert_eq!(lines[39].offset, 20);
    assert!(lines.iter().all(|l| l.offset != 0));
    let majors: Vec<i32> = lines.iter().filter(|l| l.major).map(|l| l.offset).collect();
    assert_eq!(majors, vec![-20, -15, -10, -5, 5, 10, 15, 20]);
}
