use vstd::prelude::*;
use vstd::string::StringExecFns;

use crate::text::{decimal_text, spec_decimal};

verus! {

/// Errors reported by the Belfast library.
///
/// Every variant carries the values that the failing check compared, so a
/// caller can render the message it needs.
#[derive(Debug)]
#[allow(inconsistent_fields)]
pub enum BelfastError {
    AdapterUnavailable,
    InvalidMeshVertexCount,
    InvalidMeshIndexCount,
    DuplicateVertexBufferSlot(u32),
    NonContiguousVertexBufferSlot { expected: u32, actual: u32 },
    EmptyVertexAttributes,
    InvalidVertexBufferStride,
    MisalignedVertexBufferStride(u64),
    MisalignedVertexAttributeOffset { shader_location: u32, offset: u64 },
    VertexAttributeExceedsStride { shader_location: u32, array_stride: u64 },
    DuplicateVertexAttributeLocation(u32),
    VertexBufferDeviceMismatch { slot: u32 },
    VertexBufferSlotExceedsLimit { slot: u32, limit: u32 },
    VertexBufferStrideExceedsLimit { stride: u64, limit: u32 },
    VertexAttributeCountExceedsLimit { count: u64, limit: u32 },
    VertexAttributeLocationExceedsLimit { location: u32, limit: u32 },
    VertexBufferTooSmall { slot: u32, required: u64, actual: u64 },
    VertexBufferExtentOverflow(u32),
    DrawDeviceMismatch,
    ComputeDeviceMismatch,
    MeshDeviceMismatch,
    DrawMeshLayoutMismatch,
    IndexBufferDeviceMismatch,
    IndexBufferTooSmall { required: u64, actual: u64 },
    UnknownUniformField(String),
    UniformTypeMismatch { name: String, expected: &'static str, actual: &'static str },
    UniformValueTooShort { name: String, expected: usize, actual: usize },
    InvalidCameraAspect,
    InvalidCameraFov,
    InvalidOrbitalControlOption(&'static str),
    InvalidAxisLength,
    InvalidTextureDimensions { width: u32, height: u32 },
    TextureDimensionsExceedLimit { width: u32, height: u32, limit: u32 },
    InvalidTextureDataLength { expected: usize, actual: usize },
}

/// The message a user is shown for `error`.
pub open spec fn spec_message(error: BelfastError) -> Seq<char> {
    match error {
        BelfastError::AdapterUnavailable => "failed to request WebGPU adapter"@,
        BelfastError::InvalidMeshVertexCount => "mesh vertexCount must be greater than 0"@,
        BelfastError::InvalidMeshIndexCount => "mesh index count must be greater than 0"@,
        BelfastError::DuplicateVertexBufferSlot(slot) => "vertex buffer slot "@ + spec_decimal(slot as nat) + " is already in use"@,
        BelfastError::NonContiguousVertexBufferSlot { expected, actual } => "vertex buffer slot "@ + spec_decimal(actual as nat) + " is not contiguous; expected slot "@ + spec_decimal(expected as nat),
        BelfastError::EmptyVertexAttributes => "vertex buffer layout must include at least one attribute"@,
        BelfastError::InvalidVertexBufferStride => "vertex buffer array stride must be greater than zero"@,
        BelfastError::MisalignedVertexBufferStride(stride) => "vertex buffer array stride "@ + spec_decimal(stride as nat) + " must be a multiple of 4"@,
        BelfastError::MisalignedVertexAttributeOffset { shader_location, offset } => "vertex attribute at shader location "@ + spec_decimal(shader_location as nat) + " has misaligned offset "@ + spec_decimal(offset as nat),
        BelfastError::VertexAttributeExceedsStride { shader_location, array_stride } => "vertex attribute at shader location "@ + spec_decimal(shader_location as nat) + " exceeds array stride "@ + spec_decimal(array_stride as nat),
        BelfastError::DuplicateVertexAttributeLocation(location) => "vertex attribute shader location "@ + spec_decimal(location as nat) + " is already in use"@,
        BelfastError::VertexBufferDeviceMismatch { slot } => "vertex buffer at slot "@ + spec_decimal(slot as nat) + " was created by a different device"@,
        BelfastError::VertexBufferSlotExceedsLimit { slot, limit } => "vertex buffer slot "@ + spec_decimal(slot as nat) + " exceeds device limit "@ + spec_decimal(limit as nat),
        BelfastError::VertexBufferStrideExceedsLimit { stride, limit } => "vertex buffer array stride "@ + spec_decimal(stride as nat) + " exceeds device limit "@ + spec_decimal(limit as nat),
        BelfastError::VertexAttributeCountExceedsLimit { count, limit } => "vertex attribute count "@ + spec_decimal(count as nat) + " exceeds device limit "@ + spec_decimal(limit as nat),
        BelfastError::VertexAttributeLocationExceedsLimit { location, limit } => "vertex attribute shader location "@ + spec_decimal(location as nat) + " exceeds device limit "@ + spec_decimal(limit as nat),
        BelfastError::VertexBufferTooSmall { slot, required, actual } => "vertex buffer at slot "@ + spec_decimal(slot as nat) + " requires at least "@ + spec_decimal(required as nat) + " bytes for this mesh, got "@ + spec_decimal(actual as nat),
        BelfastError::VertexBufferExtentOverflow(slot) => "vertex buffer byte extent overflowed at slot "@ + spec_decimal(slot as nat),
        BelfastError::DrawDeviceMismatch => "draw was created by a different device"@,
        BelfastError::ComputeDeviceMismatch => "compute was created by a different device"@,
        BelfastError::MeshDeviceMismatch => "mesh contains resources created by a different device"@,
        BelfastError::DrawMeshLayoutMismatch => "mesh layout is incompatible with this draw"@,
        BelfastError::IndexBufferDeviceMismatch => "index buffer was created by a different device"@,
        BelfastError::IndexBufferTooSmall { required, actual } => "index buffer requires at least "@ + spec_decimal(required as nat) + " bytes, got "@ + spec_decimal(actual as nat),
        BelfastError::UnknownUniformField(name) => "unknown uniform field \""@ + name@ + "\""@,
        BelfastError::UniformTypeMismatch { name, expected, actual } => "uniform field \""@ + name@ + "\" expects "@ + expected@ + ", got "@ + actual@,
        BelfastError::UniformValueTooShort { name, expected, actual } => "uniform field \""@ + name@ + "\" requires "@ + spec_decimal(expected as nat) + " floats, got "@ + spec_decimal(actual as nat),
        BelfastError::InvalidCameraAspect => "camera aspect must be greater than 0"@,
        BelfastError::InvalidCameraFov => "camera field of view must be greater than 0"@,
        BelfastError::InvalidOrbitalControlOption(option) => "orbital control option `"@ + option@ + "` is invalid"@,
        BelfastError::InvalidAxisLength => "axis length must be finite and greater than 0"@,
        BelfastError::InvalidTextureDimensions { width, height } => "texture dimensions must be greater than 0, got "@ + spec_decimal(width as nat) + "x"@ + spec_decimal(height as nat),
        BelfastError::TextureDimensionsExceedLimit { width, height, limit } => "texture dimensions "@ + spec_decimal(width as nat) + "x"@ + spec_decimal(height as nat) + " exceed device limit "@ + spec_decimal(limit as nat),
        BelfastError::InvalidTextureDataLength { expected, actual } => "RGBA texture data requires "@ + spec_decimal(expected as nat) + " bytes, got "@ + spec_decimal(actual as nat),
    }
}

impl BelfastError {
    /// The message a user is shown for this error.
    pub fn message(&self) -> (text: String)
        ensures
            text@ == spec_message(*self),
    {
        match self {
            BelfastError::AdapterUnavailable => String::from_str("failed to request WebGPU adapter"),
            BelfastError::InvalidMeshVertexCount => String::from_str("mesh vertexCount must be greater than 0"),
            BelfastError::InvalidMeshIndexCount => String::from_str("mesh index count must be greater than 0"),
            BelfastError::DuplicateVertexBufferSlot(slot) => {
                let mut text = String::from_str("vertex buffer slot ");
                text.append(decimal_text(*slot as u64).as_str());
                text.append(" is already in use");
                text
            },
            BelfastError::NonContiguousVertexBufferSlot { expected, actual } => {
                let mut text = String::from_str("vertex buffer slot ");
                text.append(decimal_text(*actual as u64).as_str());
                text.append(" is not contiguous; expected slot ");
                text.append(decimal_text(*expected as u64).as_str());
                text
            },
            BelfastError::EmptyVertexAttributes => String::from_str("vertex buffer layout must include at least one attribute"),
            BelfastError::InvalidVertexBufferStride => String::from_str("vertex buffer array stride must be greater than zero"),
            BelfastError::MisalignedVertexBufferStride(stride) => {
                let mut text = String::from_str("vertex buffer array stride ");
                text.append(decimal_text(*stride as u64).as_str());
                text.append(" must be a multiple of 4");
                text
            },
            BelfastError::MisalignedVertexAttributeOffset { shader_location, offset } => {
                let mut text = String::from_str("vertex attribute at shader location ");
                text.append(decimal_text(*shader_location as u64).as_str());
                text.append(" has misaligned offset ");
                text.append(decimal_text(*offset as u64).as_str());
                text
            },
            BelfastError::VertexAttributeExceedsStride { shader_location, array_stride } => {
                let mut text = String::from_str("vertex attribute at shader location ");
                text.append(decimal_text(*shader_location as u64).as_str());
                text.append(" exceeds array stride ");
                text.append(decimal_text(*array_stride as u64).as_str());
                text
            },
            BelfastError::DuplicateVertexAttributeLocation(location) => {
                let mut text = String::from_str("vertex attribute shader location ");
                text.append(decimal_text(*location as u64).as_str());
                text.append(" is already in use");
                text
            },
            BelfastError::VertexBufferDeviceMismatch { slot } => {
                let mut text = String::from_str("vertex buffer at slot ");
                text.append(decimal_text(*slot as u64).as_str());
                text.append(" was created by a different device");
                text
            },
            BelfastError::VertexBufferSlotExceedsLimit { slot, limit } => {
                let mut text = String::from_str("vertex buffer slot ");
                text.append(decimal_text(*slot as u64).as_str());
                text.append(" exceeds device limit ");
                text.append(decimal_text(*limit as u64).as_str());
                text
            },
            BelfastError::VertexBufferStrideExceedsLimit { stride, limit } => {
                let mut text = String::from_str("vertex buffer array stride ");
                text.append(decimal_text(*stride as u64).as_str());
                text.append(" exceeds device limit ");
                text.append(decimal_text(*limit as u64).as_str());
                text
            },
            BelfastError::VertexAttributeCountExceedsLimit { count, limit } => {
                let mut text = String::from_str("vertex attribute count ");
                text.append(decimal_text(*count as u64).as_str());
                text.append(" exceeds device limit ");
                text.append(decimal_text(*limit as u64).as_str());
                text
            },
            BelfastError::VertexAttributeLocationExceedsLimit { location, limit } => {
                let mut text = String::from_str("vertex attribute shader location ");
                text.append(decimal_text(*location as u64).as_str());
                text.append(" exceeds device limit ");
                text.append(decimal_text(*limit as u64).as_str());
                text
            },
            BelfastError::VertexBufferTooSmall { slot, required, actual } => {
                let mut text = String::from_str("vertex buffer at slot ");
                text.append(decimal_text(*slot as u64).as_str());
                text.append(" requires at least ");
                text.append(decimal_text(*required as u64).as_str());
                text.append(" bytes for this mesh, got ");
                text.append(decimal_text(*actual as u64).as_str());
                text
            },
            BelfastError::VertexBufferExtentOverflow(slot) => {
                let mut text = String::from_str("vertex buffer byte extent overflowed at slot ");
                text.append(decimal_text(*slot as u64).as_str());
                text
            },
            BelfastError::DrawDeviceMismatch => String::from_str("draw was created by a different device"),
            BelfastError::ComputeDeviceMismatch => String::from_str("compute was created by a different device"),
            BelfastError::MeshDeviceMismatch => String::from_str("mesh contains resources created by a different device"),
            BelfastError::DrawMeshLayoutMismatch => String::from_str("mesh layout is incompatible with this draw"),
            BelfastError::IndexBufferDeviceMismatch => String::from_str("index buffer was created by a different device"),
            BelfastError::IndexBufferTooSmall { required, actual } => {
                let mut text = String::from_str("index buffer requires at least ");
                text.append(decimal_text(*required as u64).as_str());
                text.append(" bytes, got ");
                text.append(decimal_text(*actual as u64).as_str());
                text
            },
            BelfastError::UnknownUniformField(name) => {
                let mut text = String::from_str("unknown uniform field \"");
                text.append(name.as_str());
                text.append("\"");
                text
            },
            BelfastError::UniformTypeMismatch { name, expected, actual } => {
                let mut text = String::from_str("uniform field \"");
                text.append(name.as_str());
                text.append("\" expects ");
                text.append(*expected);
                text.append(", got ");
                text.append(*actual);
                text
            },
            BelfastError::UniformValueTooShort { name, expected, actual } => {
                let mut text = String::from_str("uniform field \"");
                text.append(name.as_str());
                text.append("\" requires ");
                text.append(decimal_text(*expected as u64).as_str());
                text.append(" floats, got ");
                text.append(decimal_text(*actual as u64).as_str());
                text
            },
            BelfastError::InvalidCameraAspect => String::from_str("camera aspect must be greater than 0"),
            BelfastError::InvalidCameraFov => String::from_str("camera field of view must be greater than 0"),
            BelfastError::InvalidOrbitalControlOption(option) => {
                let mut text = String::from_str("orbital control option `");
                text.append(*option);
                text.append("` is invalid");
                text
            },
            BelfastError::InvalidAxisLength => String::from_str("axis length must be finite and greater than 0"),
            BelfastError::InvalidTextureDimensions { width, height } => {
                let mut text = String::from_str("texture dimensions must be greater than 0, got ");
                text.append(decimal_text(*width as u64).as_str());
                text.append("x");
                text.append(decimal_text(*height as u64).as_str());
                text
            },
            BelfastError::TextureDimensionsExceedLimit { width, height, limit } => {
                let mut text = String::from_str("texture dimensions ");
                text.append(decimal_text(*width as u64).as_str());
                text.append("x");
                text.append(decimal_text(*height as u64).as_str());
                text.append(" exceed device limit ");
                text.append(decimal_text(*limit as u64).as_str());
                text
            },
            BelfastError::InvalidTextureDataLength { expected, actual } => {
                let mut text = String::from_str("RGBA texture data requires ");
                text.append(decimal_text(*expected as u64).as_str());
                text.append(" bytes, got ");
                text.append(decimal_text(*actual as u64).as_str());
                text
            },
        }
    }
}

/// Result type of the Belfast library.
pub type BelfastResult<T> = Result<T, BelfastError>;

} // verus!
