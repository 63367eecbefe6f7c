//! Topology policy: how logical primitive kinds map to native device
//! primitives, how a written vertex count converts into an index count, and
//! which index element width a draw needs.

use vstd::prelude::*;

verus! {

/// Logical primitive kind selected by a caller when it opens a build session.
#[derive(Debug, Clone, Copy, PartialEq, Eq, Structural)]
pub enum DrawMode {
    Lines,
    LineStrip,
    DebugLines,
    DebugLineStrip,
    Triangles,
    TriangleStrip,
    TriangleFan,
    Quads,
}

/// Primitive kind the device consumes natively; the device has no quad
/// primitive, which is why `DrawMode::Quads` must be expanded to triangles.
#[derive(Debug, Clone, Copy, PartialEq, Eq, Structural)]
pub enum NativePrimitive {
    Lines,
    LineStrip,
    Triangles,
    TriangleStrip,
    TriangleFan,
}

impl DrawMode {
    /// Vertices per primitive unit: strips and fans grow one vertex at a
    /// time, lines take two, triangles three, quads four.
    pub fn size(&self) -> (r: usize)
        ensures
            r == self.spec_size(),
    {
        match self {
            DrawMode::LineStrip
            | DrawMode::DebugLineStrip
            | DrawMode::TriangleStrip
            | DrawMode::TriangleFan => 1,
            DrawMode::Lines | DrawMode::DebugLines => 2,
            DrawMode::Triangles => 3,
            DrawMode::Quads => 4,
        }
    }

    pub open spec fn spec_size(self) -> usize {
        match self {
            DrawMode::LineStrip
            | DrawMode::DebugLineStrip
            | DrawMode::TriangleStrip
            | DrawMode::TriangleFan => 1usize,
            DrawMode::Lines | DrawMode::DebugLines => 2usize,
            DrawMode::Triangles => 3usize,
            DrawMode::Quads => 4usize,
        }
    }

    /// Index count for a draw of `vertex_count` vertices: every four quad
    /// vertices become two triangles (six indices); every other mode draws
    /// its vertices one index apiece.
    pub fn get_size(&self, vertex_count: usize) -> (r: usize)
        requires
            self.spec_get_size(vertex_count) <= usize::MAX,
        ensures
            r == self.spec_get_size(vertex_count),
    {
        match self {
            DrawMode::Quads => vertex_count / 4 * 6,
            _ => vertex_count,
        }
    }

    pub open spec fn spec_get_size(self, vertex_count: usize) -> int {
        if self is Quads {
            vertex_count / 4 * 6
        } else {
            vertex_count as int
        }
    }

    /// The native primitive a draw of this mode is submitted as. Quads
    /// expand to six indices naming two independent triangles apiece, so a
    /// quad draw is submitted as plain triangles: only under that primitive
    /// does the expanded index list draw exactly two triangles per quad.
    pub fn native_primitive(&self) -> (r: NativePrimitive)
        ensures
            r == self.spec_native_primitive(),
    {
        match self {
            DrawMode::Lines | DrawMode::Triangles | DrawMode::Quads => {
                NativePrimitive::Triangles
            },
            DrawMode::LineStrip | DrawMode::TriangleStrip => NativePrimitive::TriangleStrip,
            DrawMode::DebugLines => NativePrimitive::LineStrip,
            DrawMode::DebugLineStrip => NativePrimitive::Lines,
            DrawMode::TriangleFan => NativePrimitive::TriangleFan,
        }
    }

    pub open spec fn spec_native_primitive(self) -> NativePrimitive {
        match self {
            DrawMode::Lines | DrawMode::Triangles | DrawMode::Quads => {
                NativePrimitive::Triangles
            },
            DrawMode::LineStrip | DrawMode::TriangleStrip => NativePrimitive::TriangleStrip,
            DrawMode::DebugLines => NativePrimitive::LineStrip,
            DrawMode::DebugLineStrip => NativePrimitive::Lines,
            DrawMode::TriangleFan => NativePrimitive::TriangleFan,
        }
    }
}

/// Width of one index element in the index buffer region.
#[derive(Debug, Clone, Copy, PartialEq, Eq, Structural)]
pub enum IntType {
    Byte,
    Short,
    Int,
}

impl IntType {
    /// Bytes per index element.
    pub fn size(&self) -> (r: usize)
        ensures
            r == self.spec_size(),
    {
        match self {
            IntType::Byte => 1,
            IntType::Short => 2,
            IntType::Int => 4,
        }
    }

    pub open spec fn spec_size(self) -> usize {
        match self {
            IntType::Byte => 1usize,
            IntType::Short => 2usize,
            IntType::Int => 4usize,
        }
    }

    /// Narrowest index width that represents every index in
    /// `0..=value`: one byte up to 0xFF, two bytes up to 0xFFFF,
    /// four bytes beyond. The boundaries are bit-exact.
    pub fn get_smallest_for(value: usize) -> (r: IntType)
        ensures
            r == Self::spec_smallest_for(value),
    {
        if value > 0xFFFF {
            IntType::Int
        } else if value > 0xFF {
            IntType::Short
        } else {
            IntType::Byte
        }
    }

    pub open spec fn spec_smallest_for(value: usize) -> IntType {
        if value > 0xFFFF {
            IntType::Int
        } else if value > 0xFF {
            IntType::Short
        } else {
            IntType::Byte
        }
    }
}

} // verus!
