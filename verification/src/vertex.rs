//! The vertex model and the input layouts the pipeline is built against.
//!
//! Vertex components are carried as the bit patterns of 32-bit floats, so
//! that equality in contracts is the bit-exact comparison the mesh
//! compaction is specified with.

use vstd::prelude::*;

verus! {

/// Host-API code for a two-component 32-bit float attribute.
pub const FORMAT_R32G32_SFLOAT: u32 = 103;

/// Host-API code for a three-component 32-bit float attribute.
pub const FORMAT_R32G32B32_SFLOAT: u32 = 106;

/// Host-API code for a four-component 32-bit float attribute.
pub const FORMAT_R32G32B32A32_SFLOAT: u32 = 109;

/// A three-component vector, each component the bit pattern of a 32-bit
/// float.
#[derive(Clone, Copy, Debug, Hash, PartialEq, Eq, Structural)]
pub struct Vec3Bits {
    pub x: u32,
    pub y: u32,
    pub z: u32,
}

/// A two-component vector, each component the bit pattern of a 32-bit float.
#[derive(Clone, Copy, Debug, Hash, PartialEq, Eq, Structural)]
pub struct Vec2Bits {
    pub x: u32,
    pub y: u32,
}

/// One vertex: position, color and texture coordinates.  Equality is
/// bit-exact equality of all eight components.
#[derive(Clone, Copy, Debug, Hash, PartialEq, Eq, Structural)]
pub struct Vertex {
    pub pos: Vec3Bits,
    pub color: Vec3Bits,
    pub tex_coord: Vec2Bits,
}

/// A 4x4 transform matrix as sixteen 32-bit float bit patterns, row major.
#[derive(Clone, Copy, Debug, PartialEq)]
pub struct Mat4Bits {
    pub entries: [u32; 16],
}

/// Per-instance vertex input: one transform matrix per drawn instance.
#[derive(Clone, Debug)]
pub struct InstanceData {
    pub model_matrix: Vec<Mat4Bits>,
}

/// How one vertex input binding feeds the pipeline.
#[derive(Clone, Copy, Debug, PartialEq, Eq, Structural)]
pub struct VertexInputBinding {
    pub binding: u32,
    pub stride: u32,
    /// Advance per instance instead of per vertex.
    pub per_instance: bool,
}

/// One attribute within a vertex input binding.
#[derive(Clone, Copy, Debug, PartialEq, Eq, Structural)]
pub struct VertexInputAttribute {
    pub binding: u32,
    pub location: u32,
    pub format: u32,
    pub offset: u32,
}

impl Vertex {
    /// The per-vertex binding: binding 0, one 32-byte record per vertex.
    pub fn binding_description() -> (r: VertexInputBinding)
        ensures
            r == (VertexInputBinding { binding: 0u32, stride: 32u32, per_instance: false }),
    {
        VertexInputBinding { binding: 0, stride: 32, per_instance: false }
    }

    /// The three vertex attributes: position at offset 0, color at offset
    /// 12, texture coordinates at offset 24, at locations 0 through 2.
    pub fn attribute_descriptions() -> (r: Vec<VertexInputAttribute>)
        ensures
            r@ == seq![
                VertexInputAttribute {
                    binding: 0u32,
                    location: 0u32,
                    format: FORMAT_R32G32B32_SFLOAT,
                    offset: 0u32,
                },
                VertexInputAttribute {
                    binding: 0u32,
                    location: 1u32,
                    format: FORMAT_R32G32B32_SFLOAT,
                    offset: 12u32,
                },
                VertexInputAttribute {
                    binding: 0u32,
                    location: 2u32,
                    format: FORMAT_R32G32_SFLOAT,
                    offset: 24u32,
                },
            ],
    {
        let mut r: Vec<VertexInputAttribute> = Vec::new();
        r.push(
            VertexInputAttribute {
                binding: 0,
                location: 0,
                format: FORMAT_R32G32B32_SFLOAT,
                offset: 0,
            },
        );
        r.push(
            VertexInputAttribute {
                binding: 0,
                location: 1,
                format: FORMAT_R32G32B32_SFLOAT,
                offset: 12,
            },
        );
        r.push(
            VertexInputAttribute {
                binding: 0,
                location: 2,
                format: FORMAT_R32G32_SFLOAT,
                offset: 24,
            },
        );
        proof {
            assert(r@ =~= seq![
                VertexInputAttribute {
                    binding: 0u32,
                    location: 0u32,
                    format: FORMAT_R32G32B32_SFLOAT,
                    offset: 0u32,
                },
                VertexInputAttribute {
                    binding: 0u32,
                    location: 1u32,
                    format: FORMAT_R32G32B32_SFLOAT,
                    offset: 12u32,
                },
                VertexInputAttribute {
                    binding: 0u32,
                    location: 2u32,
                    format: FORMAT_R32G32_SFLOAT,
                    offset: 24u32,
                },
            ]);
        }
        r
    }
}

impl InstanceData {
    /// The per-instance binding: binding 1, one 64-byte matrix per instance.
    pub fn binding_description() -> (r: VertexInputBinding)
        ensures
            r == (VertexInputBinding { binding: 1u32, stride: 64u32, per_instance: true }),
    {
        VertexInputBinding { binding: 1, stride: 64, per_instance: true }
    }

    /// The four matrix-row attributes at locations 3 through 6, 16 bytes
    /// apart.
    pub fn attribute_descriptions() -> (r: Vec<VertexInputAttribute>)
        ensures
            r@.len() == 4,
            forall|i: int|
                0 <= i < 4 ==> r@[i] == (VertexInputAttribute {
                    binding: 1u32,
                    location: (3 + i) as u32,
                    format: FORMAT_R32G32B32A32_SFLOAT,
                    offset: (16 * i) as u32,
                }),
    {
        let mut r: Vec<VertexInputAttribute> = Vec::new();
        let mut i: u32 = 0;
        while i < 4
            invariant
                i <= 4,
                r@.len() == i,
                forall|j: int|
                    0 <= j < i ==> r@[j] == (VertexInputAttribute {
                        binding: 1u32,
                        location: (3 + j) as u32,
                        format: FORMAT_R32G32B32A32_SFLOAT,
                        offset: (16 * j) as u32,
                    }),
            decreases 4 - i,
        {
            r.push(
                VertexInputAttribute {
                    binding: 1,
                    location: 3 + i,
                    format: FORMAT_R32G32B32A32_SFLOAT,
                    offset: 16 * i,
                },
            );
            i = i + 1;
        }
        r
    }
}

} // verus!
