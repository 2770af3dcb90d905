use vstd::prelude::*;

use crate::texture::TextureFormat;

verus! {

/// Usage bit: the buffer can be mapped for reading.
pub const BUFFER_USAGE_MAP_READ: u32 = 1;
/// Usage bit: the buffer can be mapped for writing.
pub const BUFFER_USAGE_MAP_WRITE: u32 = 2;
/// Usage bit: the buffer can be the source of a copy.
pub const BUFFER_USAGE_COPY_SRC: u32 = 4;
/// Usage bit: the buffer can be the destination of a copy or a queue write.
pub const BUFFER_USAGE_COPY_DST: u32 = 8;
/// Usage bit: the buffer can be an index buffer.
pub const BUFFER_USAGE_INDEX: u32 = 16;
/// Usage bit: the buffer can be a vertex buffer.
pub const BUFFER_USAGE_VERTEX: u32 = 32;
/// Usage bit: the buffer can be a uniform buffer.
pub const BUFFER_USAGE_UNIFORM: u32 = 64;
/// Usage bit: the buffer can be a storage buffer.
pub const BUFFER_USAGE_STORAGE: u32 = 128;

/// A set of buffer usages, held as the bits that WebGPU gives them.
#[derive(Clone, Copy, Debug, PartialEq, Eq, Structural)]
pub struct BufferUsages {
    pub bits: u32,
}

impl BufferUsages {
    /// Whether every usage of `other` is also in `self`.
    pub fn contains(&self, other: BufferUsages) -> (contained: bool)
        ensures
            contained == (self.bits & other.bits == other.bits),
    {
        self.bits & other.bits == other.bits
    }
}

/// The usage sets that Belfast creates buffers with.
pub struct BufferUsage;

impl BufferUsage {
    /// A vertex buffer that queue writes can fill.
    pub fn vertex() -> (usage: BufferUsages)
        ensures
            usage.bits == BUFFER_USAGE_VERTEX | BUFFER_USAGE_COPY_DST,
    {
        BufferUsages { bits: BUFFER_USAGE_VERTEX | BUFFER_USAGE_COPY_DST }
    }

    /// An index buffer that queue writes can fill.
    pub fn index() -> (usage: BufferUsages)
        ensures
            usage.bits == BUFFER_USAGE_INDEX | BUFFER_USAGE_COPY_DST,
    {
        BufferUsages { bits: BUFFER_USAGE_INDEX | BUFFER_USAGE_COPY_DST }
    }

    /// A uniform buffer that queue writes can fill.
    pub fn uniform() -> (usage: BufferUsages)
        ensures
            usage.bits == BUFFER_USAGE_UNIFORM | BUFFER_USAGE_COPY_DST,
    {
        BufferUsages { bits: BUFFER_USAGE_UNIFORM | BUFFER_USAGE_COPY_DST }
    }

    /// A storage buffer that queue writes can fill.
    pub fn storage() -> (usage: BufferUsages)
        ensures
            usage.bits == BUFFER_USAGE_STORAGE | BUFFER_USAGE_COPY_DST,
    {
        BufferUsages { bits: BUFFER_USAGE_STORAGE | BUFFER_USAGE_COPY_DST }
    }

    /// A buffer a compute pass writes and a draw reads vertices from.
    pub fn vertex_storage() -> (usage: BufferUsages)
        ensures
            usage.bits == BUFFER_USAGE_VERTEX | BUFFER_USAGE_STORAGE | BUFFER_USAGE_COPY_DST,
    {
        BufferUsages { bits: BUFFER_USAGE_VERTEX | BUFFER_USAGE_STORAGE | BUFFER_USAGE_COPY_DST }
    }
}

/// The limits of a GPU device that validation reads.
#[derive(Clone, Copy, Debug, PartialEq, Eq, Structural)]
pub struct DeviceLimits {
    pub max_vertex_buffers: u32,
    pub max_vertex_buffer_array_stride: u32,
    pub max_vertex_attributes: u32,
    pub max_texture_dimension_2d: u32,
    pub max_inter_stage_shader_variables: u32,
    pub min_uniform_buffer_offset_alignment: u32,
    pub min_storage_buffer_offset_alignment: u32,
}

/// A GPU device as validation sees it: an identity shared by all its clones,
/// its limits, the format it presents in and whether that format is HDR.
#[derive(Clone, Copy, Debug, PartialEq, Eq, Structural)]
pub struct Device {
    pub id: u64,
    pub limits: DeviceLimits,
    pub format: TextureFormat,
    pub hdr: bool,
}

impl Device {
    /// A device with the given identity, limits and presentation format;
    /// it is HDR only when said so.
    pub fn from_parts(id: u64, limits: DeviceLimits, format: TextureFormat, hdr: Option<bool>) -> (device: Device)
        ensures
            device.id == id,
            device.limits == limits,
            device.format == format,
            device.hdr == (match hdr {
                Some(h) => h,
                None => false,
            }),
    {
        Device {
            id,
            limits,
            format,
            hdr: match hdr {
                Some(h) => h,
                None => false,
            },
        }
    }

    /// The format the device presents in.
    pub fn format(&self) -> (format: TextureFormat)
        ensures
            format == self.format,
    {
        self.format
    }

    /// Whether the presentation format is HDR.
    pub fn hdr(&self) -> (hdr: bool)
        ensures
            hdr == self.hdr,
    {
        self.hdr
    }

    /// Whether both handles refer to the same device.
    pub fn is_same(&self, other: &Device) -> (same: bool)
        ensures
            same == (self.id == other.id),
    {
        self.id == other.id
    }
}

/// A GPU buffer as validation sees it: its byte size, its usages and the
/// device that created it.
#[derive(Clone, Copy, Debug, PartialEq, Eq, Structural)]
pub struct Buffer {
    pub size: u64,
    pub usage: BufferUsages,
    pub device: Device,
}

impl Buffer {
    /// Byte size of the buffer.
    pub fn size(&self) -> (size: u64)
        ensures
            size == self.size,
    {
        self.size
    }

    /// Usages the buffer was created with.
    pub fn usage(&self) -> (usage: BufferUsages)
        ensures
            usage == self.usage,
    {
        self.usage
    }

    /// The device that created the buffer.
    pub fn device(&self) -> (device: &Device)
        ensures
            *device == self.device,
    {
        &self.device
    }
}

} // verus!

verus! {

/// Why a buffer write or creation was refused.
#[derive(Clone, Copy, Debug, PartialEq, Eq, Structural)]
pub enum BufferError {
    /// The buffer was created by another device.
    DeviceMismatch,
    /// The data is larger than the buffer.
    ExceedsSize,
    /// A buffer of zero bytes was asked for.
    ZeroSize,
    /// A buffer was to be filled from no values.
    EmptyValues,
}

/// Checks that `byte_len` bytes can be written to the start of `buffer`
/// through `device`.
pub fn check_buffer_write(buffer: &Buffer, device: &Device, byte_len: u64) -> (checked: Result<
    (),
    BufferError,
>)
    ensures
        buffer.device.id != device.id ==> checked == Err::<(), BufferError>(
            BufferError::DeviceMismatch,
        ),
        buffer.device.id == device.id && byte_len > buffer.size ==> checked == Err::<
            (),
            BufferError,
        >(BufferError::ExceedsSize),
        buffer.device.id == device.id && byte_len <= buffer.size ==> checked is Ok,
{
    if !buffer.device().is_same(device) {
        return Err(BufferError::DeviceMismatch);
    }
    if byte_len > buffer.size() {
        return Err(BufferError::ExceedsSize);
    }
    Ok(())
}

/// Checks that `count` 32-bit floats can be written to the start of
/// `buffer` through `device`.
pub fn check_float_write(buffer: &Buffer, device: &Device, count: u64) -> (checked: Result<
    (),
    BufferError,
>)
    ensures
        buffer.device.id != device.id ==> checked == Err::<(), BufferError>(
            BufferError::DeviceMismatch,
        ),
        buffer.device.id == device.id && count * 4 > buffer.size ==> checked == Err::<
            (),
            BufferError,
        >(BufferError::ExceedsSize),
        buffer.device.id == device.id && count * 4 <= buffer.size ==> checked is Ok,
{
    if !buffer.device().is_same(device) {
        return Err(BufferError::DeviceMismatch);
    }
    let byte_len = match count.checked_mul(4) {
        Some(len) => len,
        None => return Err(BufferError::ExceedsSize),
    };
    if byte_len > buffer.size() {
        return Err(BufferError::ExceedsSize);
    }
    Ok(())
}

/// Checks the size of a buffer to create.
pub fn check_buffer_size(byte_size: u64) -> (checked: Result<(), BufferError>)
    ensures
        byte_size == 0 ==> checked == Err::<(), BufferError>(BufferError::ZeroSize),
        byte_size > 0 ==> checked is Ok,
{
    if byte_size == 0 {
        return Err(BufferError::ZeroSize);
    }
    Ok(())
}

/// Checks the values a buffer is to be filled from.
pub fn check_buffer_values(count: usize) -> (checked: Result<(), BufferError>)
    ensures
        count == 0 ==> checked == Err::<(), BufferError>(BufferError::EmptyValues),
        count > 0 ==> checked is Ok,
{
    if count == 0 {
        return Err(BufferError::EmptyValues);
    }
    Ok(())
}

} // verus!
