use vstd::prelude::*;

use crate::error::BelfastError;
use crate::gpu::{Buffer, Device};
use crate::vertex::{spec_format_size, VertexAttributeDescriptor, VertexFormat, VertexStepMode};

verus! {

/// Element type of an index buffer.
#[derive(Clone, Copy, Debug, PartialEq, Eq, Structural)]
pub enum MeshIndexFormat {
    Uint16,
    Uint32,
}

/// Bytes per index of the given format.
pub open spec fn spec_index_byte_size(format: MeshIndexFormat) -> u64 {
    match format {
        MeshIndexFormat::Uint16 => 2,
        MeshIndexFormat::Uint32 => 4,
    }
}

impl MeshIndexFormat {
    /// Bytes per index.
    pub fn byte_size(self) -> (size: u64)
        ensures
            size == spec_index_byte_size(self),
    {
        match self {
            MeshIndexFormat::Uint16 => 2,
            MeshIndexFormat::Uint32 => 4,
        }
    }
}

/// A vertex buffer layout without a buffer, for meshes whose buffers are
/// bound elsewhere.
#[derive(Clone, Debug)]
pub struct VertexBufferLayoutDescriptor {
    pub array_stride: u64,
    pub attributes: Vec<VertexAttributeDescriptor>,
    pub slot: Option<u32>,
    pub step_mode: Option<VertexStepMode>,
}

/// A vertex buffer together with its layout.
#[derive(Clone, Debug)]
pub struct VertexBufferBinding {
    pub buffer: Buffer,
    pub array_stride: u64,
    pub attributes: Vec<VertexAttributeDescriptor>,
    pub slot: Option<u32>,
    pub step_mode: Option<VertexStepMode>,
}

/// A binding of a mesh as seen by contracts.
pub struct BindingView {
    pub buffer: Option<Buffer>,
    pub slot: u32,
    pub array_stride: u64,
    pub step_mode: VertexStepMode,
    pub attributes: Seq<VertexAttributeDescriptor>,
}

/// A mesh as seen by contracts.
pub struct MeshView {
    pub vertex_count: u32,
    pub bindings: Seq<BindingView>,
    pub device: Option<Device>,
    pub index_buffer: Option<Buffer>,
    pub index_count: u32,
    pub index_format: MeshIndexFormat,
}

/// Some binding of the mesh already uses `location`.
pub open spec fn spec_location_in_use(bindings: Seq<BindingView>, location: u32) -> bool {
    exists|b: int, k: int|
        0 <= b < bindings.len() && 0 <= k < bindings[b].attributes.len()
            && #[trigger] bindings[b].attributes[k].shader_location == location
}

/// Alignment an attribute offset needs: its size, at most four bytes.
pub open spec fn spec_attribute_alignment(format: VertexFormat) -> u64 {
    if spec_format_size(format) < 4 {
        spec_format_size(format)
    } else {
        4
    }
}

/// The error attribute `i` raises, given that the attributes before it passed.
pub open spec fn spec_attribute_error(
    bindings: Seq<BindingView>,
    attributes: Seq<VertexAttributeDescriptor>,
    array_stride: u64,
    i: int,
) -> Option<BelfastError> {
    let attribute = attributes[i];
    let size = spec_format_size(attribute.format);
    if attribute.offset % spec_attribute_alignment(attribute.format) != 0 {
        Some(
            BelfastError::MisalignedVertexAttributeOffset {
                shader_location: attribute.shader_location,
                offset: attribute.offset,
            },
        )
    } else if attribute.offset + size > array_stride {
        Some(
            BelfastError::VertexAttributeExceedsStride {
                shader_location: attribute.shader_location,
                array_stride,
            },
        )
    } else if (exists|j: int| 0 <= j < i && #[trigger] attributes[j].shader_location == attribute.shader_location)
        || spec_location_in_use(bindings, attribute.shader_location) {
        Some(BelfastError::DuplicateVertexAttributeLocation(attribute.shader_location))
    } else {
        None
    }
}

/// The first error among the first `n` attributes, checked in order.
pub open spec fn spec_attributes_error(
    bindings: Seq<BindingView>,
    attributes: Seq<VertexAttributeDescriptor>,
    array_stride: u64,
    n: int,
) -> Option<BelfastError>
    decreases n,
{
    if n <= 0 {
        None
    } else {
        match spec_attributes_error(bindings, attributes, array_stride, n - 1) {
            Some(error) => Some(error),
            None => spec_attribute_error(bindings, attributes, array_stride, n - 1),
        }
    }
}

/// The slot a new binding receives: the next one after the existing bindings.
pub open spec fn spec_next_slot(bindings: Seq<BindingView>) -> u32 {
    bindings.len() as u32
}

/// The error a new vertex buffer layout raises against the existing bindings,
/// if any.
pub open spec fn spec_layout_error(
    bindings: Seq<BindingView>,
    array_stride: u64,
    attributes: Seq<VertexAttributeDescriptor>,
    slot: Option<u32>,
) -> Option<BelfastError> {
    if attributes.len() == 0 {
        Some(BelfastError::EmptyVertexAttributes)
    } else if array_stride == 0 {
        Some(BelfastError::InvalidVertexBufferStride)
    } else if array_stride % 4 != 0 {
        Some(BelfastError::MisalignedVertexBufferStride(array_stride))
    } else {
        let expected = spec_next_slot(bindings);
        let actual = match slot {
            Some(s) => s,
            None => expected,
        };
        if actual != expected {
            Some(BelfastError::NonContiguousVertexBufferSlot { expected, actual })
        } else {
            spec_attributes_error(bindings, attributes, array_stride, attributes.len() as int)
        }
    }
}

} // verus!

verus! {

/// Number of attributes over all bindings.
pub open spec fn spec_attribute_count(bindings: Seq<BindingView>) -> int
    decreases bindings.len(),
{
    if bindings.len() == 0 {
        0
    } else {
        spec_attribute_count(bindings.drop_last()) + bindings.last().attributes.len()
    }
}

/// The first of the first `n` attributes whose location is `limit` or more.
pub open spec fn spec_first_location_over(
    attributes: Seq<VertexAttributeDescriptor>,
    limit: u32,
    n: int,
) -> Option<u32>
    decreases n,
{
    if n <= 0 {
        None
    } else {
        match spec_first_location_over(attributes, limit, n - 1) {
            Some(location) => Some(location),
            None => if attributes[n - 1].shader_location >= limit {
                Some(attributes[n - 1].shader_location)
            } else {
                None
            },
        }
    }
}

/// The largest end byte of the first `n` attributes within one element.
pub open spec fn spec_attribute_end(attributes: Seq<VertexAttributeDescriptor>, n: int) -> int
    decreases n,
{
    if n <= 0 {
        0
    } else {
        let end = attributes[n - 1].offset + spec_format_size(attributes[n - 1].format);
        let before = spec_attribute_end(attributes, n - 1);
        if end > before {
            end
        } else {
            before
        }
    }
}

/// Elements a vertex buffer holds for a mesh: one per vertex, or a single
/// one for a per-instance buffer.
pub open spec fn spec_element_count(vertex_count: u32, step_mode: VertexStepMode) -> int {
    match step_mode {
        VertexStepMode::Vertex => vertex_count as int,
        VertexStepMode::Instance => 1,
    }
}

/// Bytes a vertex buffer needs: every element but the last spans the array
/// stride, and the last one reaches the end of its last attribute.
pub open spec fn spec_required_extent(elements: int, array_stride: u64, attribute_end: int) -> int {
    (if elements > 0 {
        elements - 1
    } else {
        0
    }) * array_stride + attribute_end
}

/// The error a vertex buffer raises against the mesh and its device limits,
/// given that its layout passed.
pub open spec fn spec_buffer_error(
    mesh: MeshView,
    buffer: Buffer,
    slot: u32,
    array_stride: u64,
    attributes: Seq<VertexAttributeDescriptor>,
    step_mode: VertexStepMode,
) -> Option<BelfastError> {
    let limits = buffer.device.limits;
    let count = spec_attribute_count(mesh.bindings) + attributes.len();
    let required = spec_required_extent(
        spec_element_count(mesh.vertex_count, step_mode),
        array_stride,
        spec_attribute_end(attributes, attributes.len() as int),
    );
    if mesh.device matches Some(device) && device.id != buffer.device.id {
        Some(BelfastError::VertexBufferDeviceMismatch { slot })
    } else if slot >= limits.max_vertex_buffers {
        Some(BelfastError::VertexBufferSlotExceedsLimit { slot, limit: limits.max_vertex_buffers })
    } else if array_stride > limits.max_vertex_buffer_array_stride {
        Some(
            BelfastError::VertexBufferStrideExceedsLimit {
                stride: array_stride,
                limit: limits.max_vertex_buffer_array_stride,
            },
        )
    } else if count > limits.max_vertex_attributes {
        Some(
            BelfastError::VertexAttributeCountExceedsLimit {
                count: if count > u64::MAX {
                    u64::MAX
                } else {
                    count as u64
                },
                limit: limits.max_vertex_attributes,
            },
        )
    } else if spec_first_location_over(
        attributes,
        limits.max_vertex_attributes,
        attributes.len() as int,
    ) is Some {
        Some(
            BelfastError::VertexAttributeLocationExceedsLimit {
                location: spec_first_location_over(
                    attributes,
                    limits.max_vertex_attributes,
                    attributes.len() as int,
                ).unwrap(),
                limit: limits.max_vertex_attributes,
            },
        )
    } else if required > u64::MAX {
        Some(BelfastError::VertexBufferExtentOverflow(slot))
    } else if buffer.size < required {
        Some(BelfastError::VertexBufferTooSmall { slot, required: required as u64, actual: buffer.size })
    } else {
        None
    }
}

} // verus!

verus! {

/// Every shader location appears once over all bindings of the mesh.
pub open spec fn spec_locations_distinct(bindings: Seq<BindingView>) -> bool {
    forall|b1: int, k1: int, b2: int, k2: int|
        0 <= b1 < bindings.len() && 0 <= k1 < bindings[b1].attributes.len() && 0 <= b2
            < bindings.len() && 0 <= k2 < bindings[b2].attributes.len() && (b1 != b2 || k1 != k2)
            ==> #[trigger] bindings[b1].attributes[k1].shader_location
            != #[trigger] bindings[b2].attributes[k2].shader_location
}

/// What every mesh keeps: a vertex count, bindings at slots 0, 1, 2, ...
/// in order, no binding without attributes, each shader location used
/// once, and every buffer from the one device the mesh records.
pub open spec fn spec_mesh_well_formed(mesh: MeshView) -> bool {
    &&& mesh.vertex_count > 0
    &&& forall|i: int| 0 <= i < mesh.bindings.len() ==> #[trigger] mesh.bindings[i].slot == i as u32
    &&& forall|i: int| 0 <= i < mesh.bindings.len() ==> #[trigger] mesh.bindings[i].attributes.len() > 0
    &&& spec_locations_distinct(mesh.bindings)
    &&& forall|i: int|
        0 <= i < mesh.bindings.len() && #[trigger] mesh.bindings[i].buffer is Some
            ==> spec_on_mesh_device(mesh.device, mesh.bindings[i].buffer.unwrap())
    &&& mesh.index_buffer is Some ==> spec_on_mesh_device(mesh.device, mesh.index_buffer.unwrap())
            && mesh.index_count > 0
}

/// The mesh has recorded a device and `buffer` comes from it.
pub open spec fn spec_on_mesh_device(device: Option<Device>, buffer: Buffer) -> bool {
    device matches Some(d) && d.id == buffer.device.id
}

#[derive(Clone, Debug)]
struct ResolvedVertexBufferBinding {
    buffer: Option<Buffer>,
    slot: u32,
    array_stride: u64,
    step_mode: VertexStepMode,
    attributes: Vec<VertexAttributeDescriptor>,
}

impl ResolvedVertexBufferBinding {
    spec fn view(self) -> BindingView {
        BindingView {
            buffer: self.buffer,
            slot: self.slot,
            array_stride: self.array_stride,
            step_mode: self.step_mode,
            attributes: self.attributes@,
        }
    }
}

/// Vertex buffers and their layouts, plus an optional index buffer, for one
/// draw.
pub struct Mesh {
    vertex_count: u32,
    bindings: Vec<ResolvedVertexBufferBinding>,
    device: Option<Device>,
    index_buffer: Option<Buffer>,
    index_count: u32,
    index_format: MeshIndexFormat,
}

impl View for Mesh {
    type V = MeshView;

    closed spec fn view(&self) -> MeshView {
        MeshView {
            vertex_count: self.vertex_count,
            bindings: self.bindings@.map_values(|binding: ResolvedVertexBufferBinding| binding.view()),
            device: self.device,
            index_buffer: self.index_buffer,
            index_count: self.index_count,
            index_format: self.index_format,
        }
    }
}

impl Mesh {
    #[verifier::type_invariant]
    spec fn well_formed(self) -> bool {
        spec_mesh_well_formed(self@)
    }

    /// An empty mesh of `vertex_count` vertices.
    pub fn new(vertex_count: u32) -> (mesh: Result<Mesh, BelfastError>)
        ensures
            vertex_count == 0 ==> mesh == Err::<Mesh, BelfastError>(
                BelfastError::InvalidMeshVertexCount,
            ),
            vertex_count > 0 ==> (mesh matches Ok(m) && m@ == (MeshView {
                vertex_count,
                bindings: Seq::empty(),
                device: None,
                index_buffer: None,
                index_count: 0,
                index_format: MeshIndexFormat::Uint16,
            })),
    {
        if vertex_count == 0 {
            return Err(BelfastError::InvalidMeshVertexCount);
        }
        let mesh = Mesh {
            vertex_count,
            bindings: Vec::new(),
            device: None,
            index_buffer: None,
            index_count: 0,
            index_format: MeshIndexFormat::Uint16,
        };
        proof {
            assert(mesh@.bindings =~= Seq::<BindingView>::empty());
        }
        Ok(mesh)
    }

    /// Vertices drawn without an index buffer.
    pub fn vertex_count(&self) -> (count: u32)
        ensures
            count == self@.vertex_count,
    {
        self.vertex_count
    }

    /// Whether index metadata has been set.
    pub fn has_index_buffer(&self) -> (has: bool)
        ensures
            has == (self@.index_count > 0),
    {
        self.index_count > 0
    }

    /// Indices drawn with the index buffer.
    pub fn index_count(&self) -> (count: u32)
        ensures
            count == self@.index_count,
    {
        self.index_count
    }

    /// Element type of the index buffer.
    pub fn index_format(&self) -> (format: MeshIndexFormat)
        ensures
            format == self@.index_format,
    {
        self.index_format
    }

    /// The device of the mesh's buffers, once one is bound.
    pub fn device(&self) -> (device: Option<&Device>)
        ensures
            match device {
                Some(d) => self@.device == Some(*d),
                None => self@.device is None,
            },
    {
        self.device.as_ref()
    }
}

} // verus!

verus! {

proof fn lemma_attributes_error_prefix(
    bindings: Seq<BindingView>,
    attributes: Seq<VertexAttributeDescriptor>,
    array_stride: u64,
    n: int,
    i: int,
)
    requires
        0 <= i < n,
        spec_attributes_error(bindings, attributes, array_stride, n) is None,
    ensures
        spec_attribute_error(bindings, attributes, array_stride, i) is None,
    decreases n,
{
    if i < n - 1 {
        lemma_attributes_error_prefix(bindings, attributes, array_stride, n - 1, i);
    }
}

proof fn lemma_attributes_error_first(
    bindings: Seq<BindingView>,
    attributes: Seq<VertexAttributeDescriptor>,
    array_stride: u64,
    i: int,
    n: int,
)
    requires
        0 <= i < n,
        spec_attributes_error(bindings, attributes, array_stride, i) is None,
        spec_attribute_error(bindings, attributes, array_stride, i) is Some,
    ensures
        spec_attributes_error(bindings, attributes, array_stride, n) == spec_attribute_error(
            bindings,
            attributes,
            array_stride,
            i,
        ),
    decreases n,
{
    if i < n - 1 {
        lemma_attributes_error_first(bindings, attributes, array_stride, i, n - 1);
    }
}

impl Mesh {
    fn location_in_use(&self, location: u32) -> (in_use: bool)
        ensures
            in_use == spec_location_in_use(self@.bindings, location),
    {
        let ghost bindings = self@.bindings;
        let mut b: usize = 0;
        while b < self.bindings.len()
            invariant
                b <= self.bindings@.len(),
                bindings == self@.bindings,
                bindings.len() == self.bindings@.len(),
                forall|bb: int, k: int|
                    0 <= bb < b && 0 <= k < bindings[bb].attributes.len()
                        ==> #[trigger] bindings[bb].attributes[k].shader_location != location,
            decreases self.bindings@.len() - b,
        {
            let attributes = &self.bindings[b].attributes;
            proof {
                assert(bindings[b as int] == self.bindings@[b as int].view());
            }
            let mut k: usize = 0;
            while k < attributes.len()
                invariant
                    b < bindings.len(),
                    bindings == self@.bindings,
                    k <= attributes@.len(),
                    attributes@ == bindings[b as int].attributes,
                    forall|kk: int|
                        0 <= kk < k ==> #[trigger] bindings[b as int].attributes[kk].shader_location
                            != location,
                decreases attributes@.len() - k,
            {
                if attributes[k].shader_location == location {
                    proof {
                        assert(bindings[b as int].attributes[k as int].shader_location == location);
                    }
                    return true;
                }
                k = k + 1;
            }
            b = b + 1;
        }
        false
    }

    /// Checks a new layout against the mesh and returns the slot it takes.
    fn check_layout(
        &self,
        array_stride: u64,
        attributes: &Vec<VertexAttributeDescriptor>,
        slot: Option<u32>,
    ) -> (checked: Result<u32, BelfastError>)
        ensures
            match spec_layout_error(self@.bindings, array_stride, attributes@, slot) {
                Some(error) => checked == Err::<u32, BelfastError>(error),
                None => checked == Ok::<u32, BelfastError>(spec_next_slot(self@.bindings)),
            },
    {
        if attributes.len() == 0 {
            return Err(BelfastError::EmptyVertexAttributes);
        }
        if array_stride == 0 {
            return Err(BelfastError::InvalidVertexBufferStride);
        }
        if array_stride % 4 != 0 {
            return Err(BelfastError::MisalignedVertexBufferStride(array_stride));
        }
        #[verifier::truncate]
        let expected = self.bindings.len() as u32;
        let actual = match slot {
            Some(s) => s,
            None => expected,
        };
        if actual != expected {
            return Err(BelfastError::NonContiguousVertexBufferSlot { expected, actual });
        }
        let ghost bindings = self@.bindings;
        let mut i: usize = 0;
        while i < attributes.len()
            invariant
                i <= attributes@.len(),
                bindings == self@.bindings,
                spec_attributes_error(bindings, attributes@, array_stride, i as int) is None,
                spec_layout_error(bindings, array_stride, attributes@, slot)
                    == spec_attributes_error(bindings, attributes@, array_stride, attributes@.len() as int),
                expected == spec_next_slot(bindings),
            decreases attributes@.len() - i,
        {
            let attribute = attributes[i];
            let size = attribute.format.size();
            let alignment = if size < 4 {
                size
            } else {
                4
            };
            assert(alignment == spec_attribute_alignment(attribute.format));
            if attribute.offset % alignment != 0 {
                proof {
                    lemma_attributes_error_first(bindings, attributes@, array_stride, i as int, attributes@.len() as int);
                }
                return Err(
                    BelfastError::MisalignedVertexAttributeOffset {
                        shader_location: attribute.shader_location,
                        offset: attribute.offset,
                    },
                );
            }
            let exceeds = match attribute.offset.checked_add(size) {
                Some(end) => end > array_stride,
                None => true,
            };
            if exceeds {
                proof {
                    lemma_attributes_error_first(bindings, attributes@, array_stride, i as int, attributes@.len() as int);
                }
                return Err(
                    BelfastError::VertexAttributeExceedsStride {
                        shader_location: attribute.shader_location,
                        array_stride,
                    },
                );
            }
            let mut duplicate = false;
            let mut j: usize = 0;
            while j < i
                invariant
                    j <= i < attributes@.len(),
                    attribute == attributes@[i as int],
                    bindings == self@.bindings,
                    spec_attributes_error(bindings, attributes@, array_stride, i as int) is None,
                    attribute.offset % spec_attribute_alignment(attribute.format) == 0,
                    attribute.offset + spec_format_size(attribute.format) <= array_stride,
                    spec_layout_error(bindings, array_stride, attributes@, slot)
                        == spec_attributes_error(bindings, attributes@, array_stride, attributes@.len() as int),
                    expected == spec_next_slot(bindings),
                    duplicate == (exists|jj: int|
                        0 <= jj < j && #[trigger] attributes@[jj].shader_location
                            == attribute.shader_location),
                decreases i - j,
            {
                if attributes[j].shader_location == attribute.shader_location {
                    duplicate = true;
                }
                j = j + 1;
            }
            if duplicate || self.location_in_use(attribute.shader_location) {
                proof {
                    lemma_attributes_error_first(bindings, attributes@, array_stride, i as int, attributes@.len() as int);
                }
                return Err(BelfastError::DuplicateVertexAttributeLocation(attribute.shader_location));
            }
            i = i + 1;
        }
        Ok(expected)
    }
}

} // verus!

verus! {

/// Step mode of a layout, per-vertex unless given.
pub open spec fn spec_step_mode(step_mode: Option<VertexStepMode>) -> VertexStepMode {
    match step_mode {
        Some(mode) => mode,
        None => VertexStepMode::Vertex,
    }
}

/// The binding a new layout adds at the end of the mesh.
pub open spec fn spec_new_binding(
    bindings: Seq<BindingView>,
    buffer: Option<Buffer>,
    array_stride: u64,
    attributes: Seq<VertexAttributeDescriptor>,
    step_mode: Option<VertexStepMode>,
) -> BindingView {
    BindingView {
        buffer,
        slot: spec_next_slot(bindings),
        array_stride,
        step_mode: spec_step_mode(step_mode),
        attributes,
    }
}

/// The error adding a layout (with an optional buffer) raises, if any: the
/// layout checks come first, then the checks of the buffer.
pub open spec fn spec_push_error(
    mesh: MeshView,
    buffer: Option<Buffer>,
    array_stride: u64,
    attributes: Seq<VertexAttributeDescriptor>,
    slot: Option<u32>,
    step_mode: Option<VertexStepMode>,
) -> Option<BelfastError> {
    match spec_layout_error(mesh.bindings, array_stride, attributes, slot) {
        Some(error) => Some(error),
        None => match buffer {
            Some(b) => spec_buffer_error(
                mesh,
                b,
                spec_next_slot(mesh.bindings),
                array_stride,
                attributes,
                spec_step_mode(step_mode),
            ),
            None => None,
        },
    }
}

/// The mesh once the layout was added: one more binding, and the buffer's
/// device recorded if the mesh had none.
pub open spec fn spec_pushed(
    mesh: MeshView,
    buffer: Option<Buffer>,
    array_stride: u64,
    attributes: Seq<VertexAttributeDescriptor>,
    step_mode: Option<VertexStepMode>,
) -> MeshView {
    MeshView {
        vertex_count: mesh.vertex_count,
        bindings: mesh.bindings.push(
            spec_new_binding(mesh.bindings, buffer, array_stride, attributes, step_mode),
        ),
        device: if mesh.device is None && buffer is Some {
            Some(buffer.unwrap().device)
        } else {
            mesh.device
        },
        index_buffer: mesh.index_buffer,
        index_count: mesh.index_count,
        index_format: mesh.index_format,
    }
}

proof fn lemma_first_location_over_first(
    attributes: Seq<VertexAttributeDescriptor>,
    limit: u32,
    i: int,
    n: int,
)
    requires
        0 <= i < n,
        spec_first_location_over(attributes, limit, i) is None,
        attributes[i].shader_location >= limit,
    ensures
        spec_first_location_over(attributes, limit, n) == Some(attributes[i].shader_location),
    decreases n,
{
    if i < n - 1 {
        lemma_first_location_over_first(attributes, limit, i, n - 1);
    }
}

proof fn lemma_attribute_count_step(bindings: Seq<BindingView>, b: int)
    requires
        0 <= b < bindings.len(),
    ensures
        spec_attribute_count(bindings.take(b + 1)) == spec_attribute_count(bindings.take(b))
            + bindings[b].attributes.len(),
{
    assert(bindings.take(b + 1).drop_last() =~= bindings.take(b));
}

proof fn lemma_push_keeps_locations_distinct(
    bindings: Seq<BindingView>,
    binding: BindingView,
)
    requires
        spec_locations_distinct(bindings),
        spec_attributes_error(
            bindings,
            binding.attributes,
            binding.array_stride,
            binding.attributes.len() as int,
        ) is None,
    ensures
        spec_locations_distinct(bindings.push(binding)),
{
    let all = bindings.push(binding);
    let n = binding.attributes.len() as int;
    let len = bindings.len() as int;
    assert forall|b1: int, k1: int, b2: int, k2: int|
        0 <= b1 < all.len() && 0 <= k1 < all[b1].attributes.len() && 0 <= b2 < all.len() && 0
            <= k2 < all[b2].attributes.len() && (b1 != b2 || k1 != k2) implies #[trigger] all[b1].attributes[k1].shader_location
        != #[trigger] all[b2].attributes[k2].shader_location by {
        if b1 < len && b2 < len {
            assert(all[b1] == bindings[b1]);
            assert(all[b2] == bindings[b2]);
        } else if b1 == len && b2 == len {
            if k1 < k2 {
                lemma_attributes_error_prefix(bindings, binding.attributes, binding.array_stride, n, k2);
            } else {
                lemma_attributes_error_prefix(bindings, binding.attributes, binding.array_stride, n, k1);
            }
        } else if b1 == len {
            lemma_attributes_error_prefix(bindings, binding.attributes, binding.array_stride, n, k1);
            assert(all[b2] == bindings[b2]);
            assert(!spec_location_in_use(bindings, binding.attributes[k1].shader_location));
        } else {
            lemma_attributes_error_prefix(bindings, binding.attributes, binding.array_stride, n, k2);
            assert(all[b1] == bindings[b1]);
            assert(!spec_location_in_use(bindings, binding.attributes[k2].shader_location));
        }
    }
}

impl Mesh {
    /// Attributes over all bindings plus `extra`, saturating at `u64::MAX`.
    fn attribute_count(&self, extra: usize) -> (count: u64)
        ensures
            count == (if spec_attribute_count(self@.bindings) + extra > u64::MAX {
                u64::MAX as int
            } else {
                spec_attribute_count(self@.bindings) + extra
            }),
    {
        let ghost bindings = self@.bindings;
        let mut total: u64 = 0;
        let mut b: usize = 0;
        while b < self.bindings.len()
            invariant
                b <= self.bindings@.len(),
                bindings == self@.bindings,
                bindings.len() == self.bindings@.len(),
                total == (if spec_attribute_count(bindings.take(b as int)) > u64::MAX {
                    u64::MAX as int
                } else {
                    spec_attribute_count(bindings.take(b as int))
                }),
            decreases self.bindings@.len() - b,
        {
            proof {
                assert(bindings[b as int] == self.bindings@[b as int].view());
                lemma_attribute_count_step(bindings, b as int);
            }
            total = total.saturating_add(self.bindings[b].attributes.len() as u64);
            b = b + 1;
        }
        proof {
            assert(bindings.take(bindings.len() as int) =~= bindings);
        }
        total.saturating_add(extra as u64)
    }

    /// Checks a vertex buffer against the mesh and its device's limits.
    fn validate_buffer_binding(
        &self,
        buffer: &Buffer,
        slot: u32,
        array_stride: u64,
        attributes: &Vec<VertexAttributeDescriptor>,
        step_mode: VertexStepMode,
    ) -> (checked: Result<(), BelfastError>)
        requires
            spec_attributes_error(self@.bindings, attributes@, array_stride, attributes@.len() as int)
                is None,
        ensures
            match spec_buffer_error(self@, *buffer, slot, array_stride, attributes@, step_mode) {
                Some(error) => checked == Err::<(), BelfastError>(error),
                None => checked == Ok::<(), BelfastError>(()),
            },
    {
        if let Some(device) = &self.device {
            if !device.is_same(buffer.device()) {
                return Err(BelfastError::VertexBufferDeviceMismatch { slot });
            }
        }
        let limits = buffer.device().limits;
        if slot >= limits.max_vertex_buffers {
            return Err(
                BelfastError::VertexBufferSlotExceedsLimit { slot, limit: limits.max_vertex_buffers },
            );
        }
        if array_stride > limits.max_vertex_buffer_array_stride as u64 {
            return Err(
                BelfastError::VertexBufferStrideExceedsLimit {
                    stride: array_stride,
                    limit: limits.max_vertex_buffer_array_stride,
                },
            );
        }
        let count = self.attribute_count(attributes.len());
        if count > limits.max_vertex_attributes as u64 {
            return Err(
                BelfastError::VertexAttributeCountExceedsLimit {
                    count,
                    limit: limits.max_vertex_attributes,
                },
            );
        }
        let limit = limits.max_vertex_attributes;
        let mut i: usize = 0;
        while i < attributes.len()
            invariant
                i <= attributes@.len(),
                spec_first_location_over(attributes@, limit, i as int) is None,
                limits == buffer.device.limits,
                limit == limits.max_vertex_attributes,
                !(self@.device matches Some(d) && d.id != buffer.device.id),
                slot < limits.max_vertex_buffers,
                array_stride <= limits.max_vertex_buffer_array_stride,
                spec_attribute_count(self@.bindings) + attributes@.len() <= limit,
            decreases attributes@.len() - i,
        {
            if attributes[i].shader_location >= limit {
                proof {
                    lemma_first_location_over_first(attributes@, limit, i as int, attributes@.len() as int);
                }
                return Err(
                    BelfastError::VertexAttributeLocationExceedsLimit {
                        location: attributes[i].shader_location,
                        limit,
                    },
                );
            }
            i = i + 1;
        }
        let elements: u64 = match step_mode {
            VertexStepMode::Vertex => self.vertex_count as u64,
            VertexStepMode::Instance => 1,
        };
        assert(elements == spec_element_count(self@.vertex_count, step_mode));
        let mut end: u64 = 0;
        let mut k: usize = 0;
        while k < attributes.len()
            invariant
                k <= attributes@.len(),
                end == spec_attribute_end(attributes@, k as int),
                end <= array_stride,
                spec_attributes_error(self@.bindings, attributes@, array_stride, attributes@.len() as int)
                    is None,
                spec_first_location_over(attributes@, limit, attributes@.len() as int) is None,
                limits == buffer.device.limits,
                limit == limits.max_vertex_attributes,
                !(self@.device matches Some(d) && d.id != buffer.device.id),
                slot < limits.max_vertex_buffers,
                array_stride <= limits.max_vertex_buffer_array_stride,
                spec_attribute_count(self@.bindings) + attributes@.len() <= limit,
                elements == spec_element_count(self@.vertex_count, step_mode),
            decreases attributes@.len() - k,
        {
            proof {
                lemma_attributes_error_prefix(
                    self@.bindings,
                    attributes@,
                    array_stride,
                    attributes@.len() as int,
                    k as int,
                );
            }
            let attribute_end = attributes[k].offset + attributes[k].format.size();
            if attribute_end > end {
                end = attribute_end;
            }
            k = k + 1;
        }
        let prefix: u64 = if elements > 0 {
            elements - 1
        } else {
            0
        };
        let required = match prefix.checked_mul(array_stride) {
            Some(before) => before.checked_add(end),
            None => None,
        };
        proof {
            assert(prefix * array_stride >= 0) by (nonlinear_arith);
        }
        match required {
            None => Err(BelfastError::VertexBufferExtentOverflow(slot)),
            Some(required) => {
                if buffer.size() < required {
                    Err(BelfastError::VertexBufferTooSmall { slot, required, actual: buffer.size() })
                } else {
                    Ok(())
                }
            },
        }
    }
}

} // verus!

verus! {

impl Mesh {
    /// Adds a layout, with or without its buffer, at the next slot.
    fn push_binding(
        self,
        buffer: Option<Buffer>,
        array_stride: u64,
        attributes: Vec<VertexAttributeDescriptor>,
        slot: Option<u32>,
        step_mode: Option<VertexStepMode>,
    ) -> (pushed: Result<Mesh, BelfastError>)
        ensures
            match spec_push_error(self@, buffer, array_stride, attributes@, slot, step_mode) {
                Some(error) => pushed matches Err(e) && e == error,
                None => pushed matches Ok(mesh) && mesh@ == spec_pushed(
                    self@,
                    buffer,
                    array_stride,
                    attributes@,
                    step_mode,
                ),
            },
    {
        proof {
            use_type_invariant(&self);
        }
        let slot = match self.check_layout(array_stride, &attributes, slot) {
            Ok(slot) => slot,
            Err(error) => return Err(error),
        };
        let step_mode = match step_mode {
            Some(mode) => mode,
            None => VertexStepMode::Vertex,
        };
        if let Some(b) = &buffer {
            match self.validate_buffer_binding(b, slot, array_stride, &attributes, step_mode) {
                Ok(()) => {},
                Err(error) => return Err(error),
            }
        }
        let ghost old_view = self@;
        let device = match (&self.device, &buffer) {
            (None, Some(b)) => Some(b.device),
            _ => self.device,
        };
        let Mesh { vertex_count, bindings, device: _, index_buffer, index_count, index_format } =
            self;
        let mut bindings = bindings;
        let binding = ResolvedVertexBufferBinding {
            buffer,
            slot,
            array_stride,
            step_mode,
            attributes,
        };
        let ghost old_bindings = bindings@;
        bindings.push(binding);
        proof {
            let views = bindings@.map_values(|b: ResolvedVertexBufferBinding| b.view());
            let n = old_view.bindings.len() as int;
            assert(bindings@ == old_bindings.push(binding));
            assert(views =~= old_view.bindings.push(binding.view()));
            assert(spec_attributes_error(old_view.bindings, attributes@, array_stride, attributes@.len() as int) is None);
            lemma_push_keeps_locations_distinct(old_view.bindings, binding.view());
            assert forall|i: int| 0 <= i < views.len() implies #[trigger] views[i].slot == i as u32 by {
                if i < n {
                    assert(views[i] == old_view.bindings[i]);
                }
            }
            assert forall|i: int| 0 <= i < views.len() implies #[trigger] views[i].attributes.len() > 0 by {
                if i < n {
                    assert(views[i] == old_view.bindings[i]);
                }
            }
            assert forall|i: int|
                0 <= i < views.len() && #[trigger] views[i].buffer is Some implies spec_on_mesh_device(
                device,
                views[i].buffer.unwrap(),
            ) by {
                if i < n {
                    assert(views[i] == old_view.bindings[i]);
                    assert(old_view.bindings[i].buffer is Some);
                }
            }
        }
        let mesh = Mesh { vertex_count, bindings, device, index_buffer, index_count, index_format };
        proof {
            assert(mesh@.bindings =~= old_view.bindings.push(binding.view()));
            assert(mesh@ == spec_pushed(old_view, buffer, array_stride, attributes@, Some(step_mode)));
        }
        Ok(mesh)
    }

    /// Adds a vertex buffer and its layout at the next slot.
    pub fn add_vertex_buffer(self, binding: VertexBufferBinding) -> (mesh: Result<Mesh, BelfastError>)
        ensures
            match spec_push_error(
                self@,
                Some(binding.buffer),
                binding.array_stride,
                binding.attributes@,
                binding.slot,
                binding.step_mode,
            ) {
                Some(error) => mesh matches Err(e) && e == error,
                None => mesh matches Ok(m) && m@ == spec_pushed(
                    self@,
                    Some(binding.buffer),
                    binding.array_stride,
                    binding.attributes@,
                    binding.step_mode,
                ),
            },
    {
        let VertexBufferBinding { buffer, array_stride, attributes, slot, step_mode } = binding;
        self.push_binding(Some(buffer), array_stride, attributes, slot, step_mode)
    }

    /// Adds a vertex layout whose buffer is bound elsewhere, at the next slot.
    pub fn add_vertex_buffer_layout(self, descriptor: VertexBufferLayoutDescriptor) -> (mesh: Result<
        Mesh,
        BelfastError,
    >)
        ensures
            match spec_push_error(
                self@,
                None,
                descriptor.array_stride,
                descriptor.attributes@,
                descriptor.slot,
                descriptor.step_mode,
            ) {
                Some(error) => mesh matches Err(e) && e == error,
                None => mesh matches Ok(m) && m@ == spec_pushed(
                    self@,
                    None,
                    descriptor.array_stride,
                    descriptor.attributes@,
                    descriptor.step_mode,
                ),
            },
    {
        let VertexBufferLayoutDescriptor { array_stride, attributes, slot, step_mode } = descriptor;
        self.push_binding(None, array_stride, attributes, slot, step_mode)
    }
}

} // verus!

verus! {

/// The error setting an index buffer raises, if any.
pub open spec fn spec_index_error(
    mesh: MeshView,
    buffer: Buffer,
    count: u32,
    format: MeshIndexFormat,
) -> Option<BelfastError> {
    let required = count * spec_index_byte_size(format);
    if mesh.device matches Some(d) && d.id != buffer.device.id {
        Some(BelfastError::IndexBufferDeviceMismatch)
    } else if buffer.size < required {
        Some(BelfastError::IndexBufferTooSmall { required: required as u64, actual: buffer.size })
    } else if count == 0 {
        Some(BelfastError::InvalidMeshIndexCount)
    } else {
        None
    }
}

/// The mesh drawing `count` indices of `format`, with or without a buffer.
pub open spec fn spec_with_index_metadata(
    mesh: MeshView,
    count: u32,
    format: MeshIndexFormat,
) -> MeshView {
    MeshView { index_count: count, index_format: format, ..mesh }
}

/// The mesh drawing `count` indices of `format` from `buffer`; the buffer's
/// device is recorded if the mesh had none.
pub open spec fn spec_with_index_buffer(
    mesh: MeshView,
    buffer: Buffer,
    count: u32,
    format: MeshIndexFormat,
) -> MeshView {
    MeshView {
        index_buffer: Some(buffer),
        index_count: count,
        index_format: format,
        device: if mesh.device is None {
            Some(buffer.device)
        } else {
            mesh.device
        },
        ..mesh
    }
}

/// A vertex buffer layout as a render pipeline takes it.
#[derive(Clone, Debug, PartialEq, Eq)]
pub struct VertexBufferLayout {
    pub array_stride: u64,
    pub step_mode: VertexStepMode,
    pub attributes: Vec<VertexAttributeDescriptor>,
}

/// One binding's part of a mesh layout signature.
#[derive(Clone, Debug, PartialEq, Eq)]
struct VertexBufferLayoutSignature {
    slot: u32,
    array_stride: u64,
    step_mode: VertexStepMode,
    attributes: Vec<VertexAttributeDescriptor>,
}

/// A binding's layout, without its buffer, as seen by contracts.
pub struct LayoutSignatureView {
    pub slot: u32,
    pub array_stride: u64,
    pub step_mode: VertexStepMode,
    pub attributes: Seq<VertexAttributeDescriptor>,
}

/// The vertex layout of a mesh, without its buffers: two meshes with equal
/// signatures can be drawn by the same pipeline.
#[derive(Clone, Debug, PartialEq, Eq)]
pub struct MeshLayoutSignature(Vec<VertexBufferLayoutSignature>);

/// The layout part of a binding.
pub open spec fn spec_binding_signature(binding: BindingView) -> LayoutSignatureView {
    LayoutSignatureView {
        slot: binding.slot,
        array_stride: binding.array_stride,
        step_mode: binding.step_mode,
        attributes: binding.attributes,
    }
}

/// The signature of a mesh: the layout of each binding, in slot order.
pub open spec fn spec_mesh_signature(mesh: MeshView) -> Seq<LayoutSignatureView> {
    mesh.bindings.map_values(|binding: BindingView| spec_binding_signature(binding))
}

impl VertexBufferLayoutSignature {
    spec fn view(self) -> LayoutSignatureView {
        LayoutSignatureView {
            slot: self.slot,
            array_stride: self.array_stride,
            step_mode: self.step_mode,
            attributes: self.attributes@,
        }
    }
}

impl View for MeshLayoutSignature {
    type V = Seq<LayoutSignatureView>;

    closed spec fn view(&self) -> Seq<LayoutSignatureView> {
        self.0@.map_values(|layout: VertexBufferLayoutSignature| layout.view())
    }
}

/// A copy of a list of attributes.
fn copy_attributes(attributes: &Vec<VertexAttributeDescriptor>) -> (copy: Vec<VertexAttributeDescriptor>)
    ensures
        copy@ == attributes@,
{
    let mut copy: Vec<VertexAttributeDescriptor> = Vec::new();
    let mut i: usize = 0;
    while i < attributes.len()
        invariant
            i <= attributes@.len(),
            copy@ == attributes@.take(i as int),
        decreases attributes@.len() - i,
    {
        copy.push(attributes[i]);
        i = i + 1;
        proof {
            assert(copy@ =~= attributes@.take(i as int));
        }
    }
    proof {
        assert(attributes@.take(attributes@.len() as int) =~= attributes@);
    }
    copy
}

/// Whether two lists of attributes are equal, entry by entry.
fn same_attributes(a: &Vec<VertexAttributeDescriptor>, b: &Vec<VertexAttributeDescriptor>) -> (same:
    bool)
    ensures
        same == (a@ == b@),
{
    if a.len() != b.len() {
        return false;
    }
    let mut i: usize = 0;
    while i < a.len()
        invariant
            i <= a@.len(),
            a@.len() == b@.len(),
            forall|k: int| 0 <= k < i ==> a@[k] == b@[k],
        decreases a@.len() - i,
    {
        if a[i] != b[i] {
            return false;
        }
        i = i + 1;
    }
    proof {
        assert(a@ =~= b@);
    }
    true
}

impl MeshLayoutSignature {
    /// Whether both signatures describe the same layout.
    pub fn same_layout(&self, other: &MeshLayoutSignature) -> (same: bool)
        ensures
            same == (self@ == other@),
    {
        let a = &self.0;
        let b = &other.0;
        if a.len() != b.len() {
            proof {
                assert(self@.len() != other@.len());
            }
            return false;
        }
        let mut i: usize = 0;
        while i < a.len()
            invariant
                i <= a@.len(),
                a@.len() == b@.len(),
                a == &self.0,
                b == &other.0,
                forall|k: int| 0 <= k < i ==> self@[k] == other@[k],
            decreases a@.len() - i,
        {
            let x = &a[i];
            let y = &b[i];
            if x.slot != y.slot || x.array_stride != y.array_stride || x.step_mode != y.step_mode
                || !same_attributes(&x.attributes, &y.attributes) {
                proof {
                    assert(self@[i as int] == x.view());
                    assert(other@[i as int] == y.view());
                }
                return false;
            }
            proof {
                assert(self@[i as int] == x.view());
                assert(other@[i as int] == y.view());
            }
            i = i + 1;
        }
        proof {
            assert(self@ =~= other@);
        }
        true
    }
}

impl Mesh {
    /// Sets how many indices of which format the mesh draws, for an index
    /// buffer bound elsewhere.
    pub fn set_index_buffer_metadata(&mut self, count: u32, format: MeshIndexFormat) -> (set: Result<
        (),
        BelfastError,
    >)
        ensures
            count == 0 ==> (set matches Err(e) && e == BelfastError::InvalidMeshIndexCount
                && final(self)@ == old(self)@),
            count > 0 ==> set is Ok && final(self)@ == spec_with_index_metadata(old(self)@, count, format),
    {
        proof {
            use_type_invariant(&*self);
        }
        if count == 0 {
            return Err(BelfastError::InvalidMeshIndexCount);
        }
        self.index_count = count;
        self.index_format = format;
        Ok(())
    }

    /// Sets the index buffer and how many indices of which format it holds.
    pub fn set_index_buffer(&mut self, buffer: Buffer, count: u32, format: MeshIndexFormat) -> (set:
        Result<(), BelfastError>)
        ensures
            match spec_index_error(old(self)@, buffer, count, format) {
                Some(error) => set matches Err(e) && e == error && final(self)@ == old(self)@,
                None => set is Ok && final(self)@ == spec_with_index_buffer(
                    old(self)@,
                    buffer,
                    count,
                    format,
                ),
            },
    {
        proof {
            use_type_invariant(&*self);
        }
        if let Some(device) = &self.device {
            if !device.is_same(buffer.device()) {
                return Err(BelfastError::IndexBufferDeviceMismatch);
            }
        }
        let required = count as u64 * format.byte_size();
        if buffer.size() < required {
            return Err(BelfastError::IndexBufferTooSmall { required, actual: buffer.size() });
        }
        if count == 0 {
            return Err(BelfastError::InvalidMeshIndexCount);
        }
        self.index_count = count;
        self.index_format = format;
        if self.device.is_none() {
            proof {
                assert forall|i: int| 0 <= i < self@.bindings.len() implies #[trigger] self@.bindings[i].buffer is None by {
                    if self@.bindings[i].buffer is Some {
                        assert(spec_on_mesh_device(self@.device, self@.bindings[i].buffer.unwrap()));
                    }
                }
            }
            self.device = Some(buffer.device);
        }
        self.index_buffer = Some(buffer);
        Ok(())
    }

    /// The layouts a render pipeline takes for this mesh, one per slot.
    pub fn vertex_layouts(&self) -> (layouts: Vec<Option<VertexBufferLayout>>)
        ensures
            layouts@.len() == self@.bindings.len(),
            forall|i: int|
                0 <= i < layouts@.len() ==> #[trigger] layouts@[i] is Some
                    && layouts@[i].unwrap().array_stride == self@.bindings[i].array_stride
                    && layouts@[i].unwrap().step_mode == self@.bindings[i].step_mode
                    && layouts@[i].unwrap().attributes@ == self@.bindings[i].attributes,
    {
        let mut layouts: Vec<Option<VertexBufferLayout>> = Vec::new();
        let mut i: usize = 0;
        while i < self.bindings.len()
            invariant
                i <= self.bindings@.len(),
                layouts@.len() == i,
                self@.bindings.len() == self.bindings@.len(),
                forall|k: int|
                    0 <= k < i ==> #[trigger] layouts@[k] is Some
                        && layouts@[k].unwrap().array_stride == self@.bindings[k].array_stride
                        && layouts@[k].unwrap().step_mode == self@.bindings[k].step_mode
                        && layouts@[k].unwrap().attributes@ == self@.bindings[k].attributes,
            decreases self.bindings@.len() - i,
        {
            let binding = &self.bindings[i];
            proof {
                assert(self@.bindings[i as int] == binding.view());
            }
            layouts.push(
                Some(
                    VertexBufferLayout {
                        array_stride: binding.array_stride,
                        step_mode: binding.step_mode,
                        attributes: copy_attributes(&binding.attributes),
                    },
                ),
            );
            i = i + 1;
        }
        layouts
    }

    /// The mesh's vertex layout without its buffers.
    pub fn layout_signature(&self) -> (signature: MeshLayoutSignature)
        ensures
            signature@ == spec_mesh_signature(self@),
    {
        let mut layouts: Vec<VertexBufferLayoutSignature> = Vec::new();
        let mut i: usize = 0;
        while i < self.bindings.len()
            invariant
                i <= self.bindings@.len(),
                layouts@.len() == i,
                self@.bindings.len() == self.bindings@.len(),
                forall|k: int|
                    0 <= k < i ==> #[trigger] layouts@[k].view() == spec_binding_signature(
                        self@.bindings[k],
                    ),
            decreases self.bindings@.len() - i,
        {
            let binding = &self.bindings[i];
            proof {
                assert(self@.bindings[i as int] == binding.view());
            }
            layouts.push(
                VertexBufferLayoutSignature {
                    slot: binding.slot,
                    array_stride: binding.array_stride,
                    step_mode: binding.step_mode,
                    attributes: copy_attributes(&binding.attributes),
                },
            );
            i = i + 1;
        }
        let signature = MeshLayoutSignature(layouts);
        proof {
            assert(signature@ =~= spec_mesh_signature(self@));
        }
        signature
    }
}

} // verus!

verus! {

/// A new mesh is well formed.
pub proof fn law_new_mesh_well_formed(vertex_count: u32)
    requires
        vertex_count > 0,
    ensures
        spec_mesh_well_formed(
            MeshView {
                vertex_count,
                bindings: Seq::empty(),
                device: None,
                index_buffer: None,
                index_count: 0,
                index_format: MeshIndexFormat::Uint16,
            },
        ),
{
}

/// Adding a vertex layout that passes every check keeps a mesh well formed:
/// its slots stay contiguous from zero, no shader location is used twice and
/// every buffer comes from the one device the mesh records.
pub proof fn law_add_keeps_mesh_well_formed(
    mesh: MeshView,
    buffer: Option<Buffer>,
    array_stride: u64,
    attributes: Seq<VertexAttributeDescriptor>,
    slot: Option<u32>,
    step_mode: Option<VertexStepMode>,
)
    requires
        spec_mesh_well_formed(mesh),
        spec_push_error(mesh, buffer, array_stride, attributes, slot, step_mode) is None,
    ensures
        spec_mesh_well_formed(spec_pushed(mesh, buffer, array_stride, attributes, step_mode)),
{
    let binding = spec_new_binding(mesh.bindings, buffer, array_stride, attributes, step_mode);
    let pushed = spec_pushed(mesh, buffer, array_stride, attributes, step_mode);
    let views = pushed.bindings;
    let n = mesh.bindings.len() as int;
    assert(spec_attributes_error(mesh.bindings, attributes, array_stride, attributes.len() as int)
        is None);
    lemma_push_keeps_locations_distinct(mesh.bindings, binding);
    assert forall|i: int| 0 <= i < views.len() implies #[trigger] views[i].slot == i as u32 by {
        if i < n {
            assert(views[i] == mesh.bindings[i]);
        }
    }
    assert forall|i: int| 0 <= i < views.len() implies #[trigger] views[i].attributes.len() > 0 by {
        if i < n {
            assert(views[i] == mesh.bindings[i]);
        }
    }
    assert forall|i: int|
        0 <= i < views.len() && #[trigger] views[i].buffer is Some implies spec_on_mesh_device(
        pushed.device,
        views[i].buffer.unwrap(),
    ) by {
        if i < n {
            assert(views[i] == mesh.bindings[i]);
        }
    }
}

/// Setting an index buffer that passes every check keeps a mesh well formed.
pub proof fn law_index_buffer_keeps_mesh_well_formed(
    mesh: MeshView,
    buffer: Buffer,
    count: u32,
    format: MeshIndexFormat,
)
    requires
        spec_mesh_well_formed(mesh),
        spec_index_error(mesh, buffer, count, format) is None,
    ensures
        spec_mesh_well_formed(spec_with_index_buffer(mesh, buffer, count, format)),
{
    let updated = spec_with_index_buffer(mesh, buffer, count, format);
    assert forall|i: int|
        0 <= i < updated.bindings.len() && #[trigger] updated.bindings[i].buffer is Some implies spec_on_mesh_device(
        updated.device,
        updated.bindings[i].buffer.unwrap(),
    ) by {
        assert(spec_on_mesh_device(mesh.device, mesh.bindings[i].buffer.unwrap()));
    }
}

/// The signature of a mesh does not depend on how a layout spelled its
/// defaults: an omitted slot or step mode gives the same signature as the
/// next slot or per-vertex stepping written out, and the buffer is left out.
pub proof fn law_signature_is_canonical(
    mesh: MeshView,
    first_buffer: Option<Buffer>,
    second_buffer: Option<Buffer>,
    array_stride: u64,
    attributes: Seq<VertexAttributeDescriptor>,
)
    ensures
        spec_mesh_signature(spec_pushed(mesh, first_buffer, array_stride, attributes, None))
            == spec_mesh_signature(
            spec_pushed(
                mesh,
                second_buffer,
                array_stride,
                attributes,
                Some(VertexStepMode::Vertex),
            ),
        ),
        spec_push_error(mesh, None, array_stride, attributes, None, None) == spec_push_error(
            mesh,
            None,
            array_stride,
            attributes,
            Some(spec_next_slot(mesh.bindings)),
            Some(VertexStepMode::Vertex),
        ),
{
    let a = spec_mesh_signature(spec_pushed(mesh, first_buffer, array_stride, attributes, None));
    let b = spec_mesh_signature(
        spec_pushed(mesh, second_buffer, array_stride, attributes, Some(VertexStepMode::Vertex)),
    );
    assert(a =~= b);
}

} // verus!

verus! {

/// The location and format of each attribute of a binding.
pub open spec fn spec_binding_attribute_formats(binding: BindingView) -> Seq<(u32, VertexFormat)> {
    binding.attributes.map_values(|a: VertexAttributeDescriptor| (a.shader_location, a.format))
}

/// The location and format of each attribute of the first `n` bindings, in
/// slot order.
pub open spec fn spec_attribute_formats(bindings: Seq<BindingView>, n: int) -> Seq<(u32, VertexFormat)>
    decreases n,
{
    if n <= 0 {
        Seq::empty()
    } else {
        spec_attribute_formats(bindings, n - 1) + spec_binding_attribute_formats(bindings[n - 1])
    }
}

impl Mesh {
    /// The location and format of every attribute of the mesh, binding by
    /// binding, as a shader's vertex inputs are checked against them.
    pub fn attribute_formats(&self) -> (formats: Vec<(u32, VertexFormat)>)
        ensures
            formats@ == spec_attribute_formats(self@.bindings, self@.bindings.len() as int),
    {
        let mut formats: Vec<(u32, VertexFormat)> = Vec::new();
        let mut b: usize = 0;
        while b < self.bindings.len()
            invariant
                b <= self.bindings@.len(),
                self@.bindings.len() == self.bindings@.len(),
                formats@ == spec_attribute_formats(self@.bindings, b as int),
            decreases self.bindings@.len() - b,
        {
            let attributes = &self.bindings[b].attributes;
            proof {
                assert(self@.bindings[b as int] == self.bindings@[b as int].view());
            }
            let ghost before = formats@;
            let mut k: usize = 0;
            while k < attributes.len()
                invariant
                    k <= attributes@.len(),
                    b < self@.bindings.len(),
                    attributes@ == self@.bindings[b as int].attributes,
                    formats@ == before + spec_binding_attribute_formats(self@.bindings[b as int]).take(
                        k as int,
                    ),
                decreases attributes@.len() - k,
            {
                let ghost prior = formats@;
                formats.push((attributes[k].shader_location, attributes[k].format));
                proof {
                    let all = spec_binding_attribute_formats(self@.bindings[b as int]);
                    assert(all.take(k as int + 1) =~= all.take(k as int).push(all[k as int]));
                    assert(formats@ =~= before + all.take(k as int + 1));
                }
                k = k + 1;
            }
            proof {
                let all = spec_binding_attribute_formats(self@.bindings[b as int]);
                assert(all.take(attributes@.len() as int) =~= all);
            }
            b = b + 1;
        }
        formats
    }
}


/// Whether attribute `i` of a new layout is acceptable: its offset is
/// aligned to its size (at most four bytes), it ends within the array
/// stride, and its location appears neither earlier in the layout nor in
/// an existing binding.
pub open spec fn spec_attribute_ok(
    bindings: Seq<BindingView>,
    attributes: Seq<VertexAttributeDescriptor>,
    array_stride: u64,
    i: int,
) -> bool {
    let attribute = attributes[i];
    &&& attribute.offset % spec_attribute_alignment(attribute.format) == 0
    &&& attribute.offset + spec_format_size(attribute.format) <= array_stride
    &&& forall|j: int| 0 <= j < i ==> #[trigger] attributes[j].shader_location != attribute.shader_location
    &&& !spec_location_in_use(bindings, attribute.shader_location)
}

proof fn lemma_attributes_error_none(
    bindings: Seq<BindingView>,
    attributes: Seq<VertexAttributeDescriptor>,
    array_stride: u64,
    n: int,
)
    requires
        forall|i: int| 0 <= i < n ==> #[trigger] spec_attribute_error(bindings, attributes, array_stride, i) is None,
    ensures
        spec_attributes_error(bindings, attributes, array_stride, n) is None,
    decreases n,
{
    if n > 0 {
        lemma_attributes_error_none(bindings, attributes, array_stride, n - 1);
    }
}

/// Adding a vertex layout (with an optional buffer) to a mesh succeeds
/// exactly when the layout has attributes, its array stride is a positive
/// multiple of four, its slot (if given) is the next one, every attribute is
/// acceptable, and the buffer, if any, passes its device and size checks.
pub proof fn law_push_accepted_iff(
    mesh: MeshView,
    buffer: Option<Buffer>,
    array_stride: u64,
    attributes: Seq<VertexAttributeDescriptor>,
    slot: Option<u32>,
    step_mode: Option<VertexStepMode>,
)
    ensures
        spec_layout_error(mesh.bindings, array_stride, attributes, slot) is None <==> {
            &&& attributes.len() > 0
            &&& array_stride > 0
            &&& array_stride % 4 == 0
            &&& (slot matches Some(s) ==> s == spec_next_slot(mesh.bindings))
            &&& forall|i: int|
                0 <= i < attributes.len() ==> #[trigger] spec_attribute_ok(mesh.bindings, attributes, array_stride, i)
        },
        spec_push_error(mesh, buffer, array_stride, attributes, slot, step_mode) is None <==> {
            &&& spec_layout_error(mesh.bindings, array_stride, attributes, slot) is None
            &&& (buffer matches Some(b) ==> spec_buffer_error(
                mesh,
                b,
                spec_next_slot(mesh.bindings),
                array_stride,
                attributes,
                spec_step_mode(step_mode),
            ) is None)
        },
{
    let n = attributes.len() as int;
    let bindings = mesh.bindings;
    if spec_layout_error(bindings, array_stride, attributes, slot) is None {
        assert forall|i: int| 0 <= i < n implies #[trigger] spec_attribute_ok(
            bindings,
            attributes,
            array_stride,
            i,
        ) by {
            lemma_attributes_error_prefix(bindings, attributes, array_stride, n, i);
        }
    }
    if attributes.len() > 0 && array_stride > 0 && array_stride % 4 == 0 && (slot matches Some(s) ==> s
        == spec_next_slot(bindings)) && (forall|i: int|
        0 <= i < n ==> #[trigger] spec_attribute_ok(bindings, attributes, array_stride, i)) {
        assert forall|i: int| 0 <= i < n implies #[trigger] spec_attribute_error(
            bindings,
            attributes,
            array_stride,
            i,
        ) is None by {
            assert(spec_attribute_ok(bindings, attributes, array_stride, i));
        }
        lemma_attributes_error_none(bindings, attributes, array_stride, n);
    }
}

/// An accepted layout appends exactly one binding at the next slot, with
/// the given buffer, stride, attributes in their order and step mode
/// (per-vertex unless given); the bindings before it, the vertex count and
/// the index buffer stay as they were, and the mesh records the buffer's
/// device if it had none.
pub proof fn law_push_appends_one_binding(
    mesh: MeshView,
    buffer: Option<Buffer>,
    array_stride: u64,
    attributes: Seq<VertexAttributeDescriptor>,
    step_mode: Option<VertexStepMode>,
)
    ensures
        ({
            let pushed = spec_pushed(mesh, buffer, array_stride, attributes, step_mode);
            let n = mesh.bindings.len();
            &&& pushed.bindings.len() == n + 1
            &&& forall|i: int| 0 <= i < n ==> #[trigger] pushed.bindings[i] == mesh.bindings[i]
            &&& pushed.bindings[n as int].buffer == buffer
            &&& pushed.bindings[n as int].slot == n as u32
            &&& pushed.bindings[n as int].array_stride == array_stride
            &&& pushed.bindings[n as int].attributes == attributes
            &&& pushed.bindings[n as int].step_mode == (match step_mode {
                Some(mode) => mode,
                None => VertexStepMode::Vertex,
            })
            &&& pushed.vertex_count == mesh.vertex_count
            &&& pushed.index_buffer == mesh.index_buffer
            &&& pushed.index_count == mesh.index_count
            &&& pushed.index_format == mesh.index_format
            &&& pushed.device == (if mesh.device is None && buffer is Some {
                Some(buffer.unwrap().device)
            } else {
                mesh.device
            })
        }),
{
}

proof fn lemma_attribute_end_is_max(attributes: Seq<VertexAttributeDescriptor>, n: int)
    requires
        0 <= n <= attributes.len(),
    ensures
        forall|i: int|
            0 <= i < n ==> #[trigger] attributes[i].offset + spec_format_size(attributes[i].format)
                <= spec_attribute_end(attributes, n),
        n > 0 ==> exists|i: int|
            0 <= i < n && #[trigger] attributes[i].offset + spec_format_size(attributes[i].format)
                == spec_attribute_end(attributes, n),
        n == 0 ==> spec_attribute_end(attributes, n) == 0,
    decreases n,
{
    if n > 0 {
        lemma_attribute_end_is_max(attributes, n - 1);
        let last = attributes[n - 1].offset + spec_format_size(attributes[n - 1].format);
        if last <= spec_attribute_end(attributes, n - 1) && n > 1 {
            let i = choose|i: int|
                0 <= i < n - 1 && #[trigger] attributes[i].offset + spec_format_size(attributes[i].format)
                    == spec_attribute_end(attributes, n - 1);
            assert(attributes[i].offset + spec_format_size(attributes[i].format) == spec_attribute_end(
                attributes,
                n,
            ));
        } else {
            assert(attributes[n - 1].offset + spec_format_size(attributes[n - 1].format)
                == spec_attribute_end(attributes, n));
        }
    }
}

/// The bytes a vertex buffer must hold: one array stride for every element
/// but the last (elements are the mesh's vertices, or one for a per-instance
/// buffer), plus the furthest end byte of any attribute. Once the device,
/// slot, stride, attribute-count and location checks pass, the buffer is
/// refused with an overflow if that extent exceeds `u64`, as too small if it
/// holds fewer bytes, and accepted otherwise.
pub proof fn law_vertex_buffer_extent(
    mesh: MeshView,
    buffer: Buffer,
    slot: u32,
    array_stride: u64,
    attributes: Seq<VertexAttributeDescriptor>,
    step_mode: VertexStepMode,
)
    requires
        !(mesh.device matches Some(device) && device.id != buffer.device.id),
        slot < buffer.device.limits.max_vertex_buffers,
        array_stride <= buffer.device.limits.max_vertex_buffer_array_stride,
        spec_attribute_count(mesh.bindings) + attributes.len() <= buffer.device.limits.max_vertex_attributes,
        forall|i: int|
            0 <= i < attributes.len() ==> #[trigger] attributes[i].shader_location
                < buffer.device.limits.max_vertex_attributes,
    ensures
        ({
            let elements: int = match step_mode {
                VertexStepMode::Vertex => mesh.vertex_count as int,
                VertexStepMode::Instance => 1,
            };
            let end = spec_attribute_end(attributes, attributes.len() as int);
            let required = (if elements > 0 {
                elements - 1
            } else {
                0
            }) * array_stride + end;
            &&& forall|i: int|
                0 <= i < attributes.len() ==> #[trigger] attributes[i].offset + spec_format_size(
                    attributes[i].format,
                ) <= end
            &&& attributes.len() > 0 ==> exists|i: int|
                0 <= i < attributes.len() && #[trigger] attributes[i].offset + spec_format_size(
                    attributes[i].format,
                ) == end
            &&& required > u64::MAX ==> spec_buffer_error(
                mesh,
                buffer,
                slot,
                array_stride,
                attributes,
                step_mode,
            ) == Some(BelfastError::VertexBufferExtentOverflow(slot))
            &&& required <= u64::MAX && buffer.size < required ==> spec_buffer_error(
                mesh,
                buffer,
                slot,
                array_stride,
                attributes,
                step_mode,
            ) == Some(
                BelfastError::VertexBufferTooSmall { slot, required: required as u64, actual: buffer.size },
            )
            &&& required <= u64::MAX && buffer.size >= required ==> spec_buffer_error(
                mesh,
                buffer,
                slot,
                array_stride,
                attributes,
                step_mode,
            ) is None
        }),
{
    lemma_attribute_end_is_max(attributes, attributes.len() as int);
    lemma_first_location_over_none(attributes, buffer.device.limits.max_vertex_attributes, attributes.len() as int);
}

proof fn lemma_first_location_over_none(attributes: Seq<VertexAttributeDescriptor>, limit: u32, n: int)
    requires
        n <= attributes.len(),
        forall|i: int| 0 <= i < n ==> #[trigger] attributes[i].shader_location < limit,
    ensures
        spec_first_location_over(attributes, limit, n) is None,
    decreases n,
{
    if n > 0 {
        lemma_first_location_over_none(attributes, limit, n - 1);
    }
}

/// The checks of a vertex buffer come in a fixed order and the first that
/// fails decides the error: the buffer's device against the mesh's, then
/// the slot, the array stride, the total attribute count and each
/// attribute's location against the device limits.
pub proof fn law_vertex_buffer_check_order(
    mesh: MeshView,
    buffer: Buffer,
    slot: u32,
    array_stride: u64,
    attributes: Seq<VertexAttributeDescriptor>,
    step_mode: VertexStepMode,
)
    ensures
        ({
            let limits = buffer.device.limits;
            let error = spec_buffer_error(mesh, buffer, slot, array_stride, attributes, step_mode);
            let count = spec_attribute_count(mesh.bindings) + attributes.len();
            let mismatch = mesh.device matches Some(device) && device.id != buffer.device.id;
            &&& mismatch ==> error == Some(BelfastError::VertexBufferDeviceMismatch { slot })
            &&& !mismatch && slot >= limits.max_vertex_buffers ==> error == Some(
                BelfastError::VertexBufferSlotExceedsLimit { slot, limit: limits.max_vertex_buffers },
            )
            &&& !mismatch && slot < limits.max_vertex_buffers && array_stride
                > limits.max_vertex_buffer_array_stride ==> error == Some(
                BelfastError::VertexBufferStrideExceedsLimit {
                    stride: array_stride,
                    limit: limits.max_vertex_buffer_array_stride,
                },
            )
            &&& !mismatch && slot < limits.max_vertex_buffers && array_stride
                <= limits.max_vertex_buffer_array_stride && count > limits.max_vertex_attributes ==> (error matches Some(
                BelfastError::VertexAttributeCountExceedsLimit { limit, .. },
            ) && limit == limits.max_vertex_attributes)
            &&& !mismatch && slot < limits.max_vertex_buffers && array_stride
                <= limits.max_vertex_buffer_array_stride && count <= limits.max_vertex_attributes && (exists|i: int|
                0 <= i < attributes.len() && #[trigger] attributes[i].shader_location >= limits.max_vertex_attributes)
                ==> (error matches Some(BelfastError::VertexAttributeLocationExceedsLimit { location, limit })
                && limit == limits.max_vertex_attributes && location >= limit)
        }),
{
    let limit = buffer.device.limits.max_vertex_attributes;
    let n = attributes.len() as int;
    if exists|i: int| 0 <= i < n && #[trigger] attributes[i].shader_location >= limit {
        let i = choose|i: int| 0 <= i < n && #[trigger] attributes[i].shader_location >= limit;
        lemma_first_location_over_some(attributes, limit, n, i);
    }
}

proof fn lemma_first_location_over_some(attributes: Seq<VertexAttributeDescriptor>, limit: u32, n: int, i: int)
    requires
        0 <= i < n <= attributes.len(),
        attributes[i].shader_location >= limit,
    ensures
        spec_first_location_over(attributes, limit, n) matches Some(location) && location >= limit,
    decreases n,
{
    if i < n - 1 {
        lemma_first_location_over_some(attributes, limit, n - 1, i);
    } else {
        lemma_first_location_over_bound(attributes, limit, n - 1);
    }
}

proof fn lemma_first_location_over_bound(attributes: Seq<VertexAttributeDescriptor>, limit: u32, n: int)
    ensures
        spec_first_location_over(attributes, limit, n) matches Some(location) ==> location >= limit,
    decreases n,
{
    if n > 0 {
        lemma_first_location_over_bound(attributes, limit, n - 1);
    }
}


/// An index occupies as many bytes as the integer type the GPU reads it
/// as: a `Uint16` index the size of a `u16`, a `Uint32` index the size of a
/// `u32`. So an index buffer from the mesh's device is refused as too small
/// exactly when it holds fewer bytes than `count` such indices, and the
/// error reports that byte count.
pub proof fn law_index_buffer_holds_whole_indices(
    mesh: MeshView,
    buffer: Buffer,
    count: u32,
    format: MeshIndexFormat,
)
    ensures
        spec_index_byte_size(MeshIndexFormat::Uint16) == vstd::layout::size_of::<u16>(),
        spec_index_byte_size(MeshIndexFormat::Uint32) == vstd::layout::size_of::<u32>(),
        ({
            let width: nat = match format {
                MeshIndexFormat::Uint16 => vstd::layout::size_of::<u16>(),
                MeshIndexFormat::Uint32 => vstd::layout::size_of::<u32>(),
            };
            let same_device = !(mesh.device matches Some(d) && d.id != buffer.device.id);
            &&& same_device && buffer.size < count * width ==> spec_index_error(mesh, buffer, count, format)
                == Some(
                BelfastError::IndexBufferTooSmall { required: (count * width) as u64, actual: buffer.size },
            )
            &&& same_device && buffer.size >= count * width && count > 0 ==> spec_index_error(
                mesh,
                buffer,
                count,
                format,
            ) is None
        }),
{
    broadcast use vstd::layout::layout_of_primitives;

}
} // verus!
