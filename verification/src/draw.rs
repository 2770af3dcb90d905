use vstd::prelude::*;

use crate::error::BelfastError;
use crate::gpu::Device;
use crate::mesh::{spec_mesh_signature, LayoutSignatureView, Mesh, MeshLayoutSignature};

verus! {

/// What a draw records of its pipeline: the device that created it and the
/// vertex layout it was built for.
pub struct Draw {
    device: Device,
    layout: MeshLayoutSignature,
}

/// A draw as seen by contracts.
pub struct DrawView {
    pub device: Device,
    pub layout: Seq<LayoutSignatureView>,
}

impl View for Draw {
    type V = DrawView;

    closed spec fn view(&self) -> DrawView {
        DrawView { device: self.device, layout: self.layout@ }
    }
}

/// How a mesh is drawn: through its index buffer when it has index
/// metadata, else vertex by vertex.
#[derive(Clone, Copy, Debug, PartialEq, Eq, Structural)]
pub enum DrawCall {
    Indexed { index_count: u32, instance_count: u32 },
    Vertices { vertex_count: u32, instance_count: u32 },
}

/// The error drawing `mesh` on `device` raises, if any.
pub open spec fn spec_mesh_device_error(device: Device, mesh: crate::mesh::MeshView) -> Option<
    BelfastError,
> {
    if mesh.device matches Some(d) && d.id != device.id {
        Some(BelfastError::MeshDeviceMismatch)
    } else {
        None
    }
}

impl Draw {
    /// Records the device and the vertex layout of `mesh` for a new pipeline.
    pub fn new(device: &Device, mesh: &Mesh) -> (draw: Draw)
        ensures
            draw@.device == *device,
            draw@.layout == spec_mesh_signature(mesh@),
    {
        Draw { device: *device, layout: mesh.layout_signature() }
    }

    /// The device that created the draw.
    pub fn device(&self) -> (device: &Device)
        ensures
            *device == self@.device,
    {
        &self.device
    }

    /// The vertex layout the draw's pipeline was built for.
    pub fn mesh_layout_signature(&self) -> (layout: &MeshLayoutSignature)
        ensures
            layout@ == self@.layout,
    {
        &self.layout
    }

    /// Whether the draw's pipeline can read `mesh`'s vertex buffers.
    pub fn is_compatible_mesh(&self, mesh: &Mesh) -> (compatible: bool)
        ensures
            compatible == (self@.layout == spec_mesh_signature(mesh@)),
    {
        self.layout.same_layout(&mesh.layout_signature())
    }

    /// Checks that `mesh` holds no buffer of another device than `device`.
    pub fn validate_mesh_device(device: &Device, mesh: &Mesh) -> (checked: Result<(), BelfastError>)
        ensures
            match spec_mesh_device_error(*device, mesh@) {
                Some(error) => checked matches Err(e) && e == error,
                None => checked is Ok,
            },
    {
        if let Some(mesh_device) = mesh.device() {
            if !mesh_device.is_same(device) {
                return Err(BelfastError::MeshDeviceMismatch);
            }
        }
        Ok(())
    }

    /// Checks that the draw can render `mesh` on `device`: same device, same
    /// vertex layout, and a mesh whose buffers come from that device.
    pub fn validate_for_render(&self, device: &Device, mesh: &Mesh) -> (checked: Result<
        (),
        BelfastError,
    >)
        ensures
            self@.device.id != device.id ==> (checked matches Err(e) && e
                == BelfastError::DrawDeviceMismatch),
            self@.device.id == device.id && self@.layout != spec_mesh_signature(mesh@) ==> (
            checked matches Err(e) && e == BelfastError::DrawMeshLayoutMismatch),
            self@.device.id == device.id && self@.layout == spec_mesh_signature(mesh@) ==> match spec_mesh_device_error(
                *device,
                mesh@,
            ) {
                Some(error) => checked matches Err(e) && e == error,
                None => checked is Ok,
            },
    {
        if !self.device.is_same(device) {
            return Err(BelfastError::DrawDeviceMismatch);
        }
        if !self.is_compatible_mesh(mesh) {
            return Err(BelfastError::DrawMeshLayoutMismatch);
        }
        Draw::validate_mesh_device(device, mesh)
    }

    /// The draw call that renders `mesh` `instance_count` times.
    pub fn draw_call(mesh: &Mesh, instance_count: u32) -> (call: DrawCall)
        ensures
            mesh@.index_count > 0 ==> call == (DrawCall::Indexed {
                index_count: mesh@.index_count,
                instance_count,
            }),
            mesh@.index_count == 0 ==> call == (DrawCall::Vertices {
                vertex_count: mesh@.vertex_count,
                instance_count,
            }),
    {
        if mesh.has_index_buffer() {
            DrawCall::Indexed { index_count: mesh.index_count(), instance_count }
        } else {
            DrawCall::Vertices { vertex_count: mesh.vertex_count(), instance_count }
        }
    }
}

/// What a compute pipeline records: the device that created it.
pub struct Compute {
    device: Device,
}

impl Compute {
    /// Records the device of a new compute pipeline.
    pub fn new(device: &Device) -> (compute: Compute)
        ensures
            compute.spec_device() == *device,
    {
        Compute { device: *device }
    }

    /// The device that created the pipeline.
    pub closed spec fn spec_device(&self) -> Device {
        self.device
    }

    /// The device that created the pipeline.
    pub fn device(&self) -> (device: &Device)
        ensures
            *device == self.spec_device(),
    {
        &self.device
    }

    /// Checks that the pipeline is dispatched on the device that created it.
    pub fn validate_for_dispatch(&self, device: &Device) -> (checked: Result<(), BelfastError>)
        ensures
            self.spec_device().id == device.id ==> checked is Ok,
            self.spec_device().id != device.id ==> (checked matches Err(e) && e
                == BelfastError::ComputeDeviceMismatch),
    {
        if !self.device.is_same(device) {
            return Err(BelfastError::ComputeDeviceMismatch);
        }
        Ok(())
    }
}

} // verus!
