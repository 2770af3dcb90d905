use vstd::prelude::*;

verus! {

/// Formats of a vertex attribute, as WebGPU's `GPUVertexFormat` names them.
#[derive(Clone, Copy, Debug, PartialEq, Eq, Hash, Structural)]
#[allow(non_camel_case_types)]
pub enum VertexFormat {
    Uint8,
    Uint8x2,
    Uint8x4,
    Sint8,
    Sint8x2,
    Sint8x4,
    Unorm8,
    Unorm8x2,
    Unorm8x4,
    Snorm8,
    Snorm8x2,
    Snorm8x4,
    Uint16,
    Uint16x2,
    Uint16x4,
    Sint16,
    Sint16x2,
    Sint16x4,
    Unorm16,
    Unorm16x2,
    Unorm16x4,
    Snorm16,
    Snorm16x2,
    Snorm16x4,
    Float16,
    Float16x2,
    Float16x4,
    Float32,
    Float32x2,
    Float32x3,
    Float32x4,
    Uint32,
    Uint32x2,
    Uint32x3,
    Uint32x4,
    Sint32,
    Sint32x2,
    Sint32x3,
    Sint32x4,
    Float64,
    Float64x2,
    Float64x3,
    Float64x4,
    Unorm10_10_10_2,
    Unorm8x4Bgra,
}

/// Byte size of one attribute of the given format.
pub open spec fn spec_format_size(format: VertexFormat) -> u64 {
    match format {
        VertexFormat::Uint8 | VertexFormat::Sint8 | VertexFormat::Unorm8 | VertexFormat::Snorm8 => 1,
        VertexFormat::Uint8x2 | VertexFormat::Sint8x2 | VertexFormat::Unorm8x2 | VertexFormat::Snorm8x2 | VertexFormat::Uint16 | VertexFormat::Sint16 | VertexFormat::Unorm16 | VertexFormat::Snorm16 | VertexFormat::Float16 => 2,
        VertexFormat::Uint8x4 | VertexFormat::Sint8x4 | VertexFormat::Unorm8x4 | VertexFormat::Snorm8x4 | VertexFormat::Uint16x2 | VertexFormat::Sint16x2 | VertexFormat::Unorm16x2 | VertexFormat::Snorm16x2 | VertexFormat::Float16x2 | VertexFormat::Float32 | VertexFormat::Uint32 | VertexFormat::Sint32 | VertexFormat::Unorm10_10_10_2 | VertexFormat::Unorm8x4Bgra => 4,
        VertexFormat::Uint16x4 | VertexFormat::Sint16x4 | VertexFormat::Unorm16x4 | VertexFormat::Snorm16x4 | VertexFormat::Float16x4 | VertexFormat::Float32x2 | VertexFormat::Uint32x2 | VertexFormat::Sint32x2 | VertexFormat::Float64 => 8,
        VertexFormat::Float32x3 | VertexFormat::Uint32x3 | VertexFormat::Sint32x3 => 12,
        VertexFormat::Float32x4 | VertexFormat::Uint32x4 | VertexFormat::Sint32x4 | VertexFormat::Float64x2 => 16,
        VertexFormat::Float64x3 => 24,
        VertexFormat::Float64x4 => 32,
    }
}

impl VertexFormat {
    /// Byte size of one attribute of this format.
    pub fn size(&self) -> (size: u64)
        ensures
            size == spec_format_size(*self),
    {
        match self {
            VertexFormat::Uint8 | VertexFormat::Sint8 | VertexFormat::Unorm8 | VertexFormat::Snorm8 => 1,
            VertexFormat::Uint8x2 | VertexFormat::Sint8x2 | VertexFormat::Unorm8x2 | VertexFormat::Snorm8x2 | VertexFormat::Uint16 | VertexFormat::Sint16 | VertexFormat::Unorm16 | VertexFormat::Snorm16 | VertexFormat::Float16 => 2,
            VertexFormat::Uint8x4 | VertexFormat::Sint8x4 | VertexFormat::Unorm8x4 | VertexFormat::Snorm8x4 | VertexFormat::Uint16x2 | VertexFormat::Sint16x2 | VertexFormat::Unorm16x2 | VertexFormat::Snorm16x2 | VertexFormat::Float16x2 | VertexFormat::Float32 | VertexFormat::Uint32 | VertexFormat::Sint32 | VertexFormat::Unorm10_10_10_2 | VertexFormat::Unorm8x4Bgra => 4,
            VertexFormat::Uint16x4 | VertexFormat::Sint16x4 | VertexFormat::Unorm16x4 | VertexFormat::Snorm16x4 | VertexFormat::Float16x4 | VertexFormat::Float32x2 | VertexFormat::Uint32x2 | VertexFormat::Sint32x2 | VertexFormat::Float64 => 8,
            VertexFormat::Float32x3 | VertexFormat::Uint32x3 | VertexFormat::Sint32x3 => 12,
            VertexFormat::Float32x4 | VertexFormat::Uint32x4 | VertexFormat::Sint32x4 | VertexFormat::Float64x2 => 16,
            VertexFormat::Float64x3 => 24,
            VertexFormat::Float64x4 => 32,
        }
    }
}

/// How a vertex buffer advances: once per vertex or once per instance.
#[derive(Clone, Copy, Debug, PartialEq, Eq, Hash, Structural)]
pub enum VertexStepMode {
    Vertex,
    Instance,
}

/// One attribute of a vertex buffer layout.
#[derive(Clone, Copy, Debug, PartialEq, Eq, Hash, Structural)]
pub struct VertexAttributeDescriptor {
    pub shader_location: u32,
    pub format: VertexFormat,
    pub offset: u64,
}

} // verus!
