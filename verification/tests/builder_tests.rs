use render_core::builder::{BufferBuilder, BuildError, Vec3Bits};
use render_core::schema::{position_color_format, position_color_light_format, position_format};
use render_core::sort::sorted_quad_order;
use render_core::topology::{DrawMode, IntType};

fn vec3(x: f32, y: f32, z: f32) -> Vec3Bits {
    Vec3Bits { x: x.to_bits(), y: y.to_bits(), z: z.to_bits() }
}

fn position_vertex(b: &mut BufferBuilder, x: f32, y: f32, z: f32) {
    b.put_float(0, x.to_bits());
    b.put_float(4, y.to_bits());
    b.put_float(8, z.to_bits());
    b.next_element();
    b.end_vertex();
}

/// The squared distance from the camera to the midpoint of a corner pair,
/// as a sort key: the floating-point kernel the library leaves to its
/// embedder.
fn distance_key(camera: Vec3Bits, first: Vec3Bits, third: Vec3Bits) -> u32 {
    let cx = (f32::from_bits(first.x) + f32::from_bits(third.x)) / 2.0 - f32::from_bits(camera.x);
    let cy = (f32::from_bits(first.y) + f32::from_bits(third.y)) / 2.0 - f32::from_bits(camera.y);
    let cz = (f32::from_bits(first.z) + f32::from_bits(third.z)) / 2.0 - f32::from_bits(camera.z);
    (cx * cx + cy * cy + cz * cz).to_bits()
}

#[test]
fn begin_twice_fails_both_times() {
    let mut b = BufferBuilder::new(256);
    assert!(b.begin(DrawMode::Quads, &position_format()).is_ok());
    assert_eq!(
        b.begin(DrawMode::Quads, &position_format()),
        Err(BuildError::AlreadyBuilding)
    );
    assert_eq!(
        b.begin(DrawMode::Triangles, &position_color_format()),
        Err(BuildError::AlreadyBuilding)
    );
    // Closing the session makes a new begin legal again.
    b.end(None);
    assert!(b.begin(DrawMode::Quads, &position_format()).is_ok());
}

#[test]
fn one_quad_expands_to_two_triangles() {
    let mut b = BufferBuilder::new(0);
    b.begin(DrawMode::Quads, &position_format()).unwrap();
    position_vertex(&mut b, 0.0, 0.0, 0.0);
    position_vertex(&mut b, 1.0, 0.0, 0.0);
    position_vertex(&mut b, 1.0, 1.0, 0.0);
    position_vertex(&mut b, 0.0, 1.0, 0.0);
    let param = b.end(None);
    assert_eq!(param.primitive_count, 4);
    assert_eq!(param.vertex_count, 6);
    assert_eq!(param.index_element_type, IntType::Byte);
    assert!(!param.textured);

    let (p, bytes) = b.pop_data();
    assert_eq!(p.get_limit(), 48);
    assert_eq!(p.get_draw_length(), 6);
    assert_eq!(p.get_draw_start(), 54);
    // The region is rounded up to a four-byte boundary when consumed.
    assert_eq!(bytes.len(), 56);
    // Vertex data is big-endian floats.
    assert_eq!(&bytes[0..4], &0.0f32.to_be_bytes());
    assert_eq!(&bytes[12..16], &1.0f32.to_be_bytes());
    // Exactly two triangles: 0-1-2 and 0-2-3.
    assert_eq!(&bytes[48..54], &[0, 1, 2, 0, 2, 3]);
    assert_eq!(&bytes[54..56], &[0, 0]);
}

#[test]
fn two_quads_expand_to_four_triangles() {
    let mut b = BufferBuilder::new(0);
    b.begin(DrawMode::Quads, &position_format()).unwrap();
    for q in 0..2 {
        let o = q as f32;
        position_vertex(&mut b, o, 0.0, 0.0);
        position_vertex(&mut b, o + 1.0, 0.0, 0.0);
        position_vertex(&mut b, o + 1.0, 1.0, 0.0);
        position_vertex(&mut b, o, 1.0, 0.0);
    }
    let param = b.end(None);
    assert_eq!(param.vertex_count, 12);
    let (_, bytes) = b.pop_data();
    assert_eq!(bytes.len(), 108);
    assert_eq!(&bytes[96..108], &[0, 1, 2, 0, 2, 3, 4, 5, 6, 4, 6, 7]);
}

#[test]
fn camera_sort_orders_quads_back_to_front() {
    let mut b = BufferBuilder::new(0);
    b.begin(DrawMode::Quads, &position_format()).unwrap();
    // Three quads, centroids at distances 1, 5 and 3 from the origin.
    for d in [1.0f32, 5.0, 3.0] {
        for _ in 0..4 {
            position_vertex(&mut b, d, 0.0, 0.0);
        }
    }
    let camera = vec3(0.0, 0.0, 0.0);
    b.set_camera_position(camera);
    let state = b.pop_state();
    let corners = state.sort_keys.as_ref().expect("sort keys cached");
    assert_eq!(corners.len(), 3);
    assert_eq!(f32::from_bits(corners[0].first.x), 1.0);
    assert_eq!(f32::from_bits(corners[1].third.x), 5.0);

    let keys: Vec<u32> = corners
        .iter()
        .map(|c| distance_key(camera, c.first, c.third))
        .collect();
    assert_eq!(f32::from_bits(keys[1]), 25.0);

    // Back to front: the quad at distance 5 first, then 3, then 1.
    let order = sorted_quad_order(&keys);
    assert_eq!(order, vec![1, 2, 0]);

    b.end(Some(&keys));
    let (_, bytes) = b.pop_data();
    // 12 vertices of 12 bytes, then 18 one-byte indices, rounded to 164.
    assert_eq!(bytes.len(), 164);
    assert_eq!(
        &bytes[144..162],
        &[4, 5, 6, 4, 6, 7, 8, 9, 10, 8, 10, 11, 0, 1, 2, 0, 2, 3]
    );
}

#[test]
fn resorting_unchanged_geometry_is_a_no_op() {
    let keys: Vec<u32> = vec![1.0f32.to_bits(), 25.0f32.to_bits(), 9.0f32.to_bits()];
    let first = sorted_quad_order(&keys);
    let second = sorted_quad_order(&keys);
    assert_eq!(first, second);
    // Once the quads stand back to front, sorting moves nothing.
    let sorted_keys: Vec<u32> = first.iter().map(|&i| keys[i]).collect();
    assert_eq!(sorted_quad_order(&sorted_keys), vec![0, 1, 2]);
}

#[test]
fn stable_sort_keeps_insertion_order_on_ties() {
    let keys: Vec<u32> = vec![
        9.0f32.to_bits(),
        25.0f32.to_bits(),
        9.0f32.to_bits(),
        25.0f32.to_bits(),
    ];
    assert_eq!(sorted_quad_order(&keys), vec![1, 3, 0, 2]);
}

#[test]
fn set_camera_position_is_a_no_op_outside_quads() {
    let mut b = BufferBuilder::new(0);
    b.begin(DrawMode::Triangles, &position_format()).unwrap();
    position_vertex(&mut b, 1.0, 0.0, 0.0);
    b.set_camera_position(vec3(0.0, 0.0, 0.0));
    let state = b.pop_state();
    assert!(state.sort_keys.is_none());
    assert!(state.camera.is_none());
}

#[test]
fn color_bytes_sit_after_the_position() {
    let mut b = BufferBuilder::new(0);
    b.begin(DrawMode::Quads, &position_color_format()).unwrap();
    b.put_float(0, 1.5f32.to_bits());
    b.put_float(4, 0.0f32.to_bits());
    b.put_float(8, 0.0f32.to_bits());
    b.next_element();
    b.put_byte(0, 10);
    b.put_byte(1, 20);
    b.put_byte(2, 30);
    b.put_byte(3, 40);
    b.next_element();
    b.end_vertex();
    b.end(None);
    let (p, bytes) = b.pop_data();
    assert_eq!(p.get_limit(), 16);
    assert_eq!(&bytes[0..4], &1.5f32.to_be_bytes());
    assert_eq!(&bytes[12..16], &[10, 20, 30, 40]);
}

#[test]
fn shorts_are_big_endian_in_the_light_attribute() {
    let mut b = BufferBuilder::new(0);
    b.begin(DrawMode::Quads, &position_color_light_format()).unwrap();
    b.put_float(0, 0.0f32.to_bits());
    b.put_float(4, 0.0f32.to_bits());
    b.put_float(8, 0.0f32.to_bits());
    b.next_element();
    b.put_byte(0, 1);
    b.put_byte(1, 2);
    b.put_byte(2, 3);
    b.put_byte(3, 4);
    b.next_element();
    b.put_short(0, 0xABCD);
    b.put_short(2, 0x0102);
    b.next_element();
    b.end_vertex();
    b.end(None);
    let (_, bytes) = b.pop_data();
    assert_eq!(&bytes[16..20], &[0xAB, 0xCD, 0x01, 0x02]);
}

#[test]
fn restore_state_rezeros_and_keeps_the_suspended_build() {
    let mut b = BufferBuilder::new(0);
    b.begin(DrawMode::Quads, &position_format()).unwrap();
    for _ in 0..4 {
        position_vertex(&mut b, 2.0, 0.0, 0.0);
    }
    b.set_camera_position(vec3(0.0, 0.0, 0.0));
    let state = b.pop_state();
    assert_eq!(state.vertex_count, 4);
    b.restore_state(state);
    // The buffer below the former position is re-zeroed.
    assert_eq!(b.get_byte(0), 0);
    // The restored build still closes with its four vertices.
    let param = b.end(None);
    assert_eq!(param.primitive_count, 4);
    assert!(param.camera_offset);
}

#[test]
fn empty_draw_yields_an_empty_region() {
    let mut b = BufferBuilder::new(0);
    b.begin(DrawMode::Quads, &position_format()).unwrap();
    let param = b.end(None);
    assert_eq!(param.vertex_count, 0);
    assert_eq!(param.primitive_count, 0);
    let (_, bytes) = b.pop_data();
    assert_eq!(bytes.len(), 0);
}

#[test]
fn reset_rewinds_between_frames() {
    let mut b = BufferBuilder::new(0);
    b.begin(DrawMode::Quads, &position_format()).unwrap();
    for _ in 0..4 {
        position_vertex(&mut b, 1.0, 2.0, 3.0);
    }
    b.end(None);
    b.pop_data();
    b.reset();
    // After a reset the next draw starts at the beginning of the buffer.
    b.begin(DrawMode::Quads, &position_format()).unwrap();
    position_vertex(&mut b, 7.0, 0.0, 0.0);
    for _ in 0..3 {
        position_vertex(&mut b, 0.0, 0.0, 0.0);
    }
    b.end(None);
    let (_, bytes) = b.pop_data();
    assert_eq!(&bytes[0..4], &7.0f32.to_be_bytes());
}

#[test]
fn get_parameter_vec_reads_diagonal_corners() {
    let mut b = BufferBuilder::new(0);
    b.begin(DrawMode::Quads, &position_format()).unwrap();
    position_vertex(&mut b, 1.0, 2.0, 3.0);
    position_vertex(&mut b, 4.0, 5.0, 6.0);
    position_vertex(&mut b, 7.0, 8.0, 9.0);
    position_vertex(&mut b, 10.0, 11.0, 12.0);
    let corners = b.get_parameter_vec();
    assert_eq!(corners.len(), 1);
    assert_eq!(f32::from_bits(corners[0].first.x), 1.0);
    assert_eq!(f32::from_bits(corners[0].first.y), 2.0);
    assert_eq!(f32::from_bits(corners[0].first.z), 3.0);
    assert_eq!(f32::from_bits(corners[0].third.x), 7.0);
    assert_eq!(f32::from_bits(corners[0].third.y), 8.0);
    assert_eq!(f32::from_bits(corners[0].third.z), 9.0);
}

#[test]
fn short_index_width_beyond_255_vertices() {
    let mut b = BufferBuilder::new(0);
    b.begin(DrawMode::Quads, &position_format()).unwrap();
    // 64 quads and one more: 260 vertices, so indices need two bytes.
    for _ in 0..65 {
        for _ in 0..4 {
            position_vertex(&mut b, 0.0, 0.0, 0.0);
        }
    }
    let param = b.end(None);
    assert_eq!(param.primitive_count, 260);
    assert_eq!(param.index_element_type, IntType::Short);
    let (_, bytes) = b.pop_data();
    let vend = 260 * 12;
    // The first quad's six indices, big-endian 16-bit.
    assert_eq!(
        &bytes[vend..vend + 12],
        &[0, 0, 0, 1, 0, 2, 0, 0, 0, 2, 0, 3]
    );
    // The last quad names vertices 256..259.
    let last = vend + 64 * 12;
    assert_eq!(
        &bytes[last..last + 12],
        &[1, 0, 1, 1, 1, 2, 1, 0, 1, 2, 1, 3]
    );
}
