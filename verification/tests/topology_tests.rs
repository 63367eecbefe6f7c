use render_core::topology::{DrawMode, IntType, NativePrimitive};

#[test]
fn smallest_index_type_boundaries_are_exact() {
    assert_eq!(IntType::get_smallest_for(0), IntType::Byte);
    assert_eq!(IntType::get_smallest_for(255), IntType::Byte);
    assert_eq!(IntType::get_smallest_for(256), IntType::Short);
    assert_eq!(IntType::get_smallest_for(65535), IntType::Short);
    assert_eq!(IntType::get_smallest_for(65536), IntType::Int);
}

#[test]
fn index_element_sizes() {
    assert_eq!(IntType::Byte.size(), 1);
    assert_eq!(IntType::Short.size(), 2);
    assert_eq!(IntType::Int.size(), 4);
}

#[test]
fn vertices_per_primitive_unit() {
    assert_eq!(DrawMode::LineStrip.size(), 1);
    assert_eq!(DrawMode::DebugLineStrip.size(), 1);
    assert_eq!(DrawMode::TriangleStrip.size(), 1);
    assert_eq!(DrawMode::TriangleFan.size(), 1);
    assert_eq!(DrawMode::Lines.size(), 2);
    assert_eq!(DrawMode::DebugLines.size(), 2);
    assert_eq!(DrawMode::Triangles.size(), 3);
    assert_eq!(DrawMode::Quads.size(), 4);
}

#[test]
fn quad_index_counts() {
    assert_eq!(DrawMode::Quads.get_size(4), 6);
    assert_eq!(DrawMode::Quads.get_size(8), 12);
    assert_eq!(DrawMode::Quads.get_size(0), 0);
    assert_eq!(DrawMode::Triangles.get_size(9), 9);
    assert_eq!(DrawMode::LineStrip.get_size(5), 5);
    assert_eq!(DrawMode::Lines.get_size(6), 6);
}

#[test]
fn native_primitives() {
    assert_eq!(DrawMode::Lines.native_primitive(), NativePrimitive::Triangles);
    assert_eq!(DrawMode::Triangles.native_primitive(), NativePrimitive::Triangles);
    assert_eq!(DrawMode::LineStrip.native_primitive(), NativePrimitive::TriangleStrip);
    assert_eq!(DrawMode::TriangleStrip.native_primitive(), NativePrimitive::TriangleStrip);
    // Quads expand to independent triangles, so they submit as triangles.
    assert_eq!(DrawMode::Quads.native_primitive(), NativePrimitive::Triangles);
    assert_eq!(DrawMode::DebugLines.native_primitive(), NativePrimitive::LineStrip);
    assert_eq!(DrawMode::DebugLineStrip.native_primitive(), NativePrimitive::Lines);
    assert_eq!(DrawMode::TriangleFan.native_primitive(), NativePrimitive::TriangleFan);
}
