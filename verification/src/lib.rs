//! Verified core of the Belfast WebGPU rendering library: uniform block
//! packing, mesh vertex-layout validation, geometry generation and the
//! validation rules behind the WebAssembly facade.

pub mod error;
pub mod uniform_block;
pub mod geom;
pub mod gpu;
pub mod vertex;
pub mod mesh;
pub mod draw;
pub mod text;
pub mod compute;
pub mod bind_group;
pub mod shader;
pub mod draw_shader;
pub mod compute_shader;
pub mod texture;
pub mod frame;
pub mod bindings;
pub mod surface;
pub mod presentation;
pub mod controls;
pub mod render_target;
pub mod naga_ir;
pub mod wgsl;

pub use bind_group::ShaderResourceLayout;
pub use controls::OrbitalPointerButton;
pub use draw::{Compute, Draw};
pub use error::{BelfastError, BelfastResult};
pub use geom::{Geom, GeometryData};
pub use gpu::{Buffer, BufferUsage, BufferUsages, Device, DeviceLimits};
pub use mesh::{
    Mesh, MeshIndexFormat, MeshLayoutSignature, VertexBufferBinding, VertexBufferLayout,
    VertexBufferLayoutDescriptor,
};
pub use render_target::{RenderTarget, RenderTargetOptions};
pub use surface::{pick_surface_color, SurfaceColorChoice};
pub use texture::{Texture, TextureFormat, TextureOptions};
pub use uniform_block::{UniformBlock, UniformFieldType};
pub use vertex::{VertexAttributeDescriptor, VertexFormat, VertexStepMode};
