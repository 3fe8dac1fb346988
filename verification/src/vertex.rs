//! The vertices of a textured quad and the order in which they are drawn.

use crate::geometry::{Ratio, Rect};
use vstd::prelude::*;

verus! {

/// One corner of a textured quad. The position is in the caller's coordinates,
/// which this crate only passes on; depth and texture coordinates are exact
/// fractions.
#[derive(Debug, PartialEq)]
pub struct TextureVertex<C> {
    pub position: (C, C),
    pub depth: Ratio,
    pub tex_coords: (Ratio, Ratio),
}

impl<C: Copy> Clone for TextureVertex<C> {
    fn clone(&self) -> (copy: Self)
        ensures
            copy == *self,
    {
        *self
    }
}

impl<C: Copy> Copy for TextureVertex<C> {

}

/// Number format of one vertex attribute.
#[derive(Clone, Copy, Debug, PartialEq, Eq)]
pub enum VertexFormat {
    /// Two 32-bit numbers.
    Float32x2,
    /// Three 32-bit numbers.
    Float32x3,
}

impl VertexFormat {
    /// Bytes that an attribute of this format takes.
    pub open spec fn spec_size(self) -> u64 {
        match self {
            VertexFormat::Float32x2 => 8,
            VertexFormat::Float32x3 => 12,
        }
    }

    #[verifier::when_used_as_spec(spec_size)]
    pub fn size(self) -> (size: u64)
        ensures
            size == self.spec_size(),
    {
        match self {
            VertexFormat::Float32x2 => 8,
            VertexFormat::Float32x3 => 12,
        }
    }
}

/// Whether a vertex buffer advances with each vertex or with each instance.
#[derive(Clone, Copy, Debug, PartialEq, Eq)]
pub enum VertexStepMode {
    Vertex,
    Instance,
}

/// One input of the vertex shader.
#[derive(Clone, Copy, Debug, PartialEq, Eq)]
pub struct VertexAttribute {
    /// Where the attribute starts within a vertex, in bytes.
    pub offset: u64,
    pub shader_location: u32,
    pub format: VertexFormat,
}

/// How the bytes of a vertex buffer are read.
#[derive(Debug, PartialEq, Eq)]
pub struct VertexBufferLayout {
    /// Distance in bytes from one vertex to the next.
    pub array_stride: u64,
    pub step_mode: VertexStepMode,
    pub attributes: Vec<VertexAttribute>,
}

impl VertexBufferLayout {
    /// The attributes follow one another without gaps, at shader locations
    /// 0, 1, 2, ..., and the stride is their total size.
    pub open spec fn is_packed(self) -> bool {
        &&& forall|i: int|
            0 <= i < self.attributes.len() ==> (#[trigger] self.attributes[i]).shader_location == i
        &&& forall|i: int|
            0 <= i < self.attributes.len() ==> (#[trigger] self.attributes[i]).offset
                == packed_size(self.attributes@.take(i))
        &&& self.array_stride == packed_size(self.attributes@)
    }

    /// The layout of a [`TextureVertex`] in a vertex buffer: the position as
    /// three numbers at byte 0 and location 0, the texture coordinates as two
    /// numbers at byte 12 and location 1; 20 bytes for each vertex.
    pub open spec fn is_texture_vertex_layout(self) -> bool {
        &&& self.array_stride == 20
        &&& self.step_mode == VertexStepMode::Vertex
        &&& self.attributes@ == seq![
            VertexAttribute { offset: 0, shader_location: 0, format: VertexFormat::Float32x3 },
            VertexAttribute { offset: 12, shader_location: 1, format: VertexFormat::Float32x2 },
        ]
    }
}

/// Total size in bytes of `attributes` laid out one after the other.
pub open spec fn packed_size(attributes: Seq<VertexAttribute>) -> int
    decreases attributes.len(),
{
    if attributes.len() == 0 {
        0
    } else {
        packed_size(attributes.drop_last()) + attributes.last().format.spec_size()
    }
}

/// The most quads one batch can hold: the index of the last corner of the
/// last quad must still fit in 16 bits.
pub const MAX_QUADS_PER_BATCH: usize = 16384;

/// The largest draw-order index, which maps to depth 1.
pub const MAX_DRAW_INDEX: u32 = 65535;

impl<C> TextureVertex<C> {
    /// The layout in which vertices are handed to the vertex shader.
    pub fn description() -> (layout: VertexBufferLayout)
        ensures
            layout.is_texture_vertex_layout(),
            layout.is_packed(),
    {
        let position = VertexFormat::Float32x3;
        let tex_coords = VertexFormat::Float32x2;
        let mut attributes: Vec<VertexAttribute> = Vec::new();
        attributes.push(VertexAttribute { offset: 0, shader_location: 0, format: position });
        attributes.push(
            VertexAttribute { offset: position.size(), shader_location: 1, format: tex_coords },
        );
        let layout = VertexBufferLayout {
            array_stride: position.size() + tex_coords.size(),
            step_mode: VertexStepMode::Vertex,
            attributes,
        };
        proof {
            let all = layout.attributes@;
            assert(packed_size(all.take(0)) == 0);
            assert(all.take(1).drop_last() =~= all.take(0));
            assert(all.take(1).last() == all[0]);
            assert(packed_size(all.take(1)) == 12);
            assert(all.drop_last() =~= all.take(1));
            assert(packed_size(all) == 20);
            assert(all =~= seq![
                VertexAttribute { offset: 0, shader_location: 0, format: VertexFormat::Float32x3 },
                VertexAttribute { offset: 12, shader_location: 1, format: VertexFormat::Float32x2 },
            ]);
        }
        layout
    }
}

/// Depth of everything drawn at `index`: `index / 65535`.
pub open spec fn spec_depth(index: u16) -> Ratio {
    Ratio { num: index as u64, den: MAX_DRAW_INDEX }
}

/// Depth of everything drawn at `index`. A larger index gives a larger depth,
/// so that with a greater-or-equal depth test it ends up on top.
#[verifier::when_used_as_spec(spec_depth)]
pub fn depth(index: u16) -> (depth: Ratio)
    ensures
        depth == spec_depth(index),
{
    Ratio { num: index as u64, den: MAX_DRAW_INDEX }
}

/// Depth grows with the draw-order index and stays within `[0, 1]`.
pub proof fn lemma_depth_is_monotonic(a: u16, b: u16)
    ensures
        a <= b <==> spec_depth(a).le(spec_depth(b)),
        spec_depth(a).in_unit_interval(),
{
}

/// Corner number `corner` of the quad that draws the part `tex_coords` of a
/// texture into `destination` at `depth`.
pub open spec fn quad_corner<C>(
    destination: Rect<C>,
    tex_coords: Rect<Ratio>,
    depth: Ratio,
    corner: int,
) -> TextureVertex<C> {
    if corner == 0 {
        TextureVertex {
            position: (destination.left, destination.top),
            depth,
            tex_coords: (tex_coords.left, tex_coords.top),
        }
    } else if corner == 1 {
        TextureVertex {
            position: (destination.left, destination.bottom),
            depth,
            tex_coords: (tex_coords.left, tex_coords.bottom),
        }
    } else if corner == 2 {
        TextureVertex {
            position: (destination.right, destination.bottom),
            depth,
            tex_coords: (tex_coords.right, tex_coords.bottom),
        }
    } else {
        TextureVertex {
            position: (destination.right, destination.top),
            depth,
            tex_coords: (tex_coords.right, tex_coords.top),
        }
    }
}

/// Which corner of its quad the index in place `slot` of the six names:
/// `0, 1, 2, 2, 3, 0`, two counter-clockwise triangles.
pub open spec fn corner_at(slot: int) -> int {
    if slot == 1 {
        1
    } else if slot == 2 || slot == 3 {
        2
    } else if slot == 4 {
        3
    } else {
        0
    }
}

/// The index list of a batch of `quads` quads: for quad `q` the six indices
/// `4q + 0, 4q + 1, 4q + 2, 4q + 2, 4q + 3, 4q + 0`.
pub open spec fn quad_indices(quads: nat) -> Seq<u16> {
    Seq::new(6 * quads, |i: int| (4 * (i / 6) + corner_at(i % 6)) as u16)
}

/// The four corners of one quad.
pub fn quad_vertices<C: Copy>(destination: &Rect<C>, tex_coords: &Rect<Ratio>, depth: Ratio) -> (quad:
    [TextureVertex<C>; 4])
    ensures
        forall|corner: int|
            0 <= corner < 4 ==> quad@[corner] == quad_corner(
                *destination,
                *tex_coords,
                depth,
                corner,
            ),
{
    [
        TextureVertex {
            position: (destination.left, destination.top),
            depth,
            tex_coords: (tex_coords.left, tex_coords.top),
        },
        TextureVertex {
            position: (destination.left, destination.bottom),
            depth,
            tex_coords: (tex_coords.left, tex_coords.bottom),
        },
        TextureVertex {
            position: (destination.right, destination.bottom),
            depth,
            tex_coords: (tex_coords.right, tex_coords.bottom),
        },
        TextureVertex {
            position: (destination.right, destination.top),
            depth,
            tex_coords: (tex_coords.right, tex_coords.top),
        },
    ]
}

} // verus!
