//! The settings with which the device objects for textures are created, and
//! the slots they are bound to.

use crate::vertex::{TextureVertex, VertexBufferLayout};
use vstd::prelude::*;

verus! {

/// Bind group of the camera's projection.
pub const CAMERA_BIND_GROUP: u32 = 0;

/// Bind group of a texture: its view and its sampler.
pub const TEXTURE_BIND_GROUP: u32 = 1;

/// Binding of the texture view in the bind group of a texture.
pub const TEXTURE_VIEW_BINDING: u32 = 0;

/// Binding of the sampler in the bind group of a texture.
pub const SAMPLER_BINDING: u32 = 1;

/// Slot of the vertex buffer.
pub const VERTEX_BUFFER_SLOT: u32 = 0;

#[derive(Clone, Copy, Debug, PartialEq, Eq)]
pub enum PrimitiveTopology {
    PointList,
    LineList,
    LineStrip,
    TriangleList,
    TriangleStrip,
}

/// Winding order of the triangles that face the viewer.
#[derive(Clone, Copy, Debug, PartialEq, Eq)]
pub enum FrontFace {
    Ccw,
    Cw,
}

#[derive(Clone, Copy, Debug, PartialEq, Eq)]
pub enum Face {
    Front,
    Back,
}

/// How a new pixel is combined with the one already there.
#[derive(Clone, Copy, Debug, PartialEq, Eq)]
pub enum Blend {
    Replace,
    AlphaBlending,
    PremultipliedAlphaBlending,
}

/// The test a new depth value must pass against the one already there.
#[derive(Clone, Copy, Debug, PartialEq, Eq)]
pub enum CompareFunction {
    Never,
    Less,
    Equal,
    LessEqual,
    Greater,
    NotEqual,
    GreaterEqual,
    Always,
}

#[derive(Clone, Copy, Debug, PartialEq, Eq)]
pub enum AddressMode {
    ClampToEdge,
    Repeat,
    MirrorRepeat,
}

#[derive(Clone, Copy, Debug, PartialEq, Eq)]
pub enum FilterMode {
    Nearest,
    Linear,
}

/// Width of the indices in an index buffer.
#[derive(Clone, Copy, Debug, PartialEq, Eq)]
pub enum IndexFormat {
    Uint16,
    Uint32,
}

/// The sampler that every texture is read through.
#[derive(Clone, Copy, Debug, PartialEq, Eq)]
pub struct SamplerSettings {
    pub address_mode_u: AddressMode,
    pub address_mode_v: AddressMode,
    pub address_mode_w: AddressMode,
    pub mag_filter: FilterMode,
    pub min_filter: FilterMode,
    pub mipmap_filter: FilterMode,
}

impl SamplerSettings {
    /// Coordinates outside the texture read its edge pixels; no filtering.
    pub fn for_textures() -> (settings: SamplerSettings)
        ensures
            settings == (SamplerSettings {
                address_mode_u: AddressMode::ClampToEdge,
                address_mode_v: AddressMode::ClampToEdge,
                address_mode_w: AddressMode::ClampToEdge,
                mag_filter: FilterMode::Nearest,
                min_filter: FilterMode::Nearest,
                mipmap_filter: FilterMode::Nearest,
            }),
    {
        SamplerSettings {
            address_mode_u: AddressMode::ClampToEdge,
            address_mode_v: AddressMode::ClampToEdge,
            address_mode_w: AddressMode::ClampToEdge,
            mag_filter: FilterMode::Nearest,
            min_filter: FilterMode::Nearest,
            mipmap_filter: FilterMode::Nearest,
        }
    }
}

/// The render pipeline of a texture.
#[derive(Debug, PartialEq, Eq)]
pub struct PipelineSettings {
    pub vertex_entry_point: &'static str,
    pub fragment_entry_point: &'static str,
    pub vertex_layout: VertexBufferLayout,
    pub topology: PrimitiveTopology,
    pub front_face: FrontFace,
    pub cull_mode: Option<Face>,
    pub blend: Option<Blend>,
    pub depth_write_enabled: bool,
    pub depth_compare: CompareFunction,
    pub sample_count: u32,
    pub index_format: IndexFormat,
}

impl PipelineSettings {
    /// Triangle lists with counter-clockwise front faces, back faces culled,
    /// alpha blending, depth written and tested with greater-or-equal, one
    /// sample per pixel, 16-bit indices.
    pub fn for_textures() -> (settings: PipelineSettings)
        ensures
            settings.vertex_entry_point@ == "vs_main"@,
            settings.fragment_entry_point@ == "fs_main"@,
            settings.vertex_layout.is_texture_vertex_layout(),
            settings.topology == PrimitiveTopology::TriangleList,
            settings.front_face == FrontFace::Ccw,
            settings.cull_mode == Some(Face::Back),
            settings.blend == Some(Blend::AlphaBlending),
            settings.depth_write_enabled,
            settings.depth_compare == CompareFunction::GreaterEqual,
            settings.sample_count == 1,
            settings.index_format == IndexFormat::Uint16,
    {
        PipelineSettings {
            vertex_entry_point: "vs_main",
            fragment_entry_point: "fs_main",
            vertex_layout: TextureVertex::<()>::description(),
            topology: PrimitiveTopology::TriangleList,
            front_face: FrontFace::Ccw,
            cull_mode: Some(Face::Back),
            blend: Some(Blend::AlphaBlending),
            depth_write_enabled: true,
            depth_compare: CompareFunction::GreaterEqual,
            sample_count: 1,
            index_format: IndexFormat::Uint16,
        }
    }
}

} // verus!
