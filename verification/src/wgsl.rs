use vstd::prelude::*;

use crate::shader::{
    spec_entry_well_formed, spec_module_well_formed, BuiltinValue, EntryArgument, EntryPoint,
    FunctionResult, GlobalVariable, ImageDim, ImageKind, InterpolationMode, IoBinding, MemorySpace,
    PipelineStage, ResourceBinding, SamplingMode, ScalarClass, ScalarType, ShaderModule,
    ShaderSourceError, ShaderType, StructField, VectorWidth, WgslError,
};

use crate::bind_group::ShaderResourceLayout;
use crate::compute::ComputeBindingLayout;
use crate::compute_shader::{spec_compute_bindings_error, validate_compute_interface, ComputeShaderError};
use crate::draw_shader::{
    spec_draw_interface, spec_entry_index, validate_module_draw_interface, DrawShaderError,
};
use crate::vertex::VertexFormat;

use naga::BuiltIn as NagaBuiltIn;
use naga::TypeInner;

verus! {

/// What naga's WGSL front end makes of `source`: `None` where it refuses
/// the source, else the module it builds read into the library's model
/// (itself `None` where the module holds a value the model lacks).
pub uninterp spec fn wgsl_parse(source: Seq<char>) -> Option<Option<ShaderModule>>;

/// Whether naga's WGSL front end accepts `source`.
pub open spec fn wgsl_parses(source: Seq<char>) -> bool {
    wgsl_parse(source) is Some
}

/// The module naga builds from `source`, read into the library's model.
pub open spec fn wgsl_module(source: Seq<char>) -> Option<ShaderModule> {
    match wgsl_parse(source) {
        Some(module) => module,
        None => None,
    }
}

/// Whether naga's validator, with every validation flag and no extra
/// capabilities, accepts the module built from `source`.
pub uninterp spec fn wgsl_validates(source: Seq<char>) -> bool;

/// Calls `naga::front::wgsl::parse_str` on the source, reads the module it
/// builds into the library's model, and runs `naga::valid::Validator::validate`
/// (every validation flag, no extra capabilities) on it. Parsing, reading and
/// validating are pure functions of the source. This claims that parsing
/// succeeds exactly when `wgsl_parse` of the source is `Some`, that the read
/// module is what that `Some` holds, and that validation succeeds
/// exactly when `wgsl_validates` holds of it. The error messages are the
/// errors' `Display` texts, of which nothing is claimed.
#[verifier::external_body]
fn parse_wgsl(source: &str) -> (parsed: Result<(Option<ShaderModule>, Result<(), String>), String>)
    ensures
        parsed is Ok <==> wgsl_parse(source@) is Some,
        parsed matches Ok((module, validated)) ==> wgsl_parse(source@) == Some(module) && (validated is Ok
            <==> wgsl_validates(source@)),
{
    let module = naga::front::wgsl::parse_str(source).map_err(|error| error.to_string())?;
    let flags = naga::valid::ValidationFlags::all();
    let mut validator = naga::valid::Validator::new(flags, naga::valid::Capabilities::empty());
    let validated = validator.validate(&module).map(|_| ()).map_err(|error| error.to_string());
    Ok((module_of(&module), validated))
}

/// Copies a naga scalar kind into the library's model, variant for variant.
/// Nothing is claimed of the result.
#[verifier::external_body]
fn scalar_kind_of(kind: naga::ScalarKind) -> ScalarClass {
    match kind {
        naga::ScalarKind::Sint => ScalarClass::Sint,
        naga::ScalarKind::Uint => ScalarClass::Uint,
        naga::ScalarKind::Float => ScalarClass::Float,
        naga::ScalarKind::Bool => ScalarClass::Bool,
        naga::ScalarKind::AbstractInt => ScalarClass::AbstractInt,
        naga::ScalarKind::AbstractFloat => ScalarClass::AbstractFloat,
    }
}

/// Copies a naga scalar type: its kind and its width in bytes.
/// Nothing is claimed of the result.
#[verifier::external_body]
fn scalar_of(scalar: naga::Scalar) -> ScalarType {
    ScalarType { kind: scalar_kind_of(scalar.kind), width: scalar.width }
}

/// Copies a naga vector size, variant for variant.
/// Nothing is claimed of the result.
#[verifier::external_body]
fn vector_size_of(size: naga::VectorSize) -> VectorWidth {
    match size {
        naga::VectorSize::Bi => VectorWidth::Bi,
        naga::VectorSize::Tri => VectorWidth::Tri,
        naga::VectorSize::Quad => VectorWidth::Quad,
    }
}

/// Copies a naga image dimensionality, variant for variant.
/// Nothing is claimed of the result.
#[verifier::external_body]
fn image_dimension_of(dim: naga::ImageDimension) -> ImageDim {
    match dim {
        naga::ImageDimension::D1 => ImageDim::D1,
        naga::ImageDimension::D2 => ImageDim::D2,
        naga::ImageDimension::D3 => ImageDim::D3,
        naga::ImageDimension::Cube => ImageDim::Cube,
    }
}

/// Copies a naga image class; a storage image keeps no field.
/// Nothing is claimed of the result.
#[verifier::external_body]
fn image_class_of(class: naga::ImageClass) -> ImageKind {
    match class {
        naga::ImageClass::Sampled { kind, multi } => {
            ImageKind::Sampled { kind: scalar_kind_of(kind), multi }
        },
        naga::ImageClass::Depth { multi } => ImageKind::Depth { multi },
        naga::ImageClass::External => ImageKind::External,
        naga::ImageClass::Storage { .. } => ImageKind::Storage,
    }
}

/// Copies a naga interpolation qualifier, variant for variant.
/// Nothing is claimed of the result.
#[verifier::external_body]
fn interpolation_of(interpolation: naga::Interpolation) -> InterpolationMode {
    match interpolation {
        naga::Interpolation::Perspective => InterpolationMode::Perspective,
        naga::Interpolation::Linear => InterpolationMode::Linear,
        naga::Interpolation::Flat => InterpolationMode::Flat,
        naga::Interpolation::PerVertex => InterpolationMode::PerVertex,
    }
}

/// Copies a naga sampling qualifier, variant for variant.
/// Nothing is claimed of the result.
#[verifier::external_body]
fn sampling_of(sampling: naga::Sampling) -> SamplingMode {
    match sampling {
        naga::Sampling::Center => SamplingMode::Center,
        naga::Sampling::Centroid => SamplingMode::Centroid,
        naga::Sampling::Sample => SamplingMode::Sample,
        naga::Sampling::First => SamplingMode::First,
        naga::Sampling::Either => SamplingMode::Either,
    }
}

/// Copies a naga shader stage, variant for variant.
/// Nothing is claimed of the result.
#[verifier::external_body]
fn stage_of(stage: naga::ShaderStage) -> PipelineStage {
    match stage {
        naga::ShaderStage::Vertex => PipelineStage::Vertex,
        naga::ShaderStage::Task => PipelineStage::Task,
        naga::ShaderStage::Mesh => PipelineStage::Mesh,
        naga::ShaderStage::Fragment => PipelineStage::Fragment,
        naga::ShaderStage::Compute => PipelineStage::Compute,
        naga::ShaderStage::RayGeneration => PipelineStage::RayGeneration,
        naga::ShaderStage::Miss => PipelineStage::Miss,
        naga::ShaderStage::AnyHit => PipelineStage::AnyHit,
        naga::ShaderStage::ClosestHit => PipelineStage::ClosestHit,
    }
}

/// Copies a naga address space; a storage space keeps whether its access
/// allows stores and atomics, and the spaces the library does not read
/// become `Other`.
/// Nothing is claimed of the result.
#[verifier::external_body]
fn address_space_of(space: naga::AddressSpace) -> MemorySpace {
    match space {
        naga::AddressSpace::Function => MemorySpace::Function,
        naga::AddressSpace::Private => MemorySpace::Private,
        naga::AddressSpace::WorkGroup => MemorySpace::WorkGroup,
        naga::AddressSpace::Uniform => MemorySpace::Uniform,
        naga::AddressSpace::Storage { access } => MemorySpace::Storage {
            store: access.contains(naga::StorageAccess::STORE),
            atomic: access.contains(naga::StorageAccess::ATOMIC),
        },
        naga::AddressSpace::Handle => MemorySpace::Handle,
        _ => MemorySpace::Other,
    }
}

/// Copies a naga built-in that vertex shaders read or write, or gives
/// `None` for another built-in.
/// Nothing is claimed of the result.
#[verifier::external_body]
fn vertex_builtin_of(builtin: naga::BuiltIn) -> Option<BuiltinValue> {
    Some(match builtin {
        NagaBuiltIn::PrimitiveIndex => BuiltinValue::PrimitiveIndex,
        NagaBuiltIn::Position { invariant } => BuiltinValue::Position { invariant },
        NagaBuiltIn::ViewIndex => BuiltinValue::ViewIndex,
        NagaBuiltIn::BaseInstance => BuiltinValue::BaseInstance,
        NagaBuiltIn::BaseVertex => BuiltinValue::BaseVertex,
        NagaBuiltIn::ClipDistances => BuiltinValue::ClipDistances,
        NagaBuiltIn::CullDistance => BuiltinValue::CullDistance,
        NagaBuiltIn::InstanceIndex => BuiltinValue::InstanceIndex,
        NagaBuiltIn::PointSize => BuiltinValue::PointSize,
        NagaBuiltIn::VertexIndex => BuiltinValue::VertexIndex,
        NagaBuiltIn::DrawIndex => BuiltinValue::DrawIndex,
        _ => return None,
    })
}

/// Copies a naga fragment built-in, or gives `None` for another built-in.
/// Nothing is claimed of the result.
#[verifier::external_body]
fn fragment_builtin_of(builtin: naga::BuiltIn) -> Option<BuiltinValue> {
    Some(match builtin {
        NagaBuiltIn::FragDepth => BuiltinValue::FragDepth,
        NagaBuiltIn::PointCoord => BuiltinValue::PointCoord,
        NagaBuiltIn::FrontFacing => BuiltinValue::FrontFacing,
        NagaBuiltIn::Barycentric { perspective } => BuiltinValue::Barycentric { perspective },
        NagaBuiltIn::SampleIndex => BuiltinValue::SampleIndex,
        NagaBuiltIn::SampleMask => BuiltinValue::SampleMask,
        _ => return None,
    })
}

/// Copies a naga compute built-in, or gives `None` for another built-in.
/// Nothing is claimed of the result.
#[verifier::external_body]
fn compute_builtin_of(builtin: naga::BuiltIn) -> Option<BuiltinValue> {
    Some(match builtin {
        NagaBuiltIn::GlobalInvocationId => BuiltinValue::GlobalInvocationId,
        NagaBuiltIn::LocalInvocationId => BuiltinValue::LocalInvocationId,
        NagaBuiltIn::LocalInvocationIndex => BuiltinValue::LocalInvocationIndex,
        NagaBuiltIn::WorkGroupId => BuiltinValue::WorkGroupId,
        NagaBuiltIn::WorkGroupSize => BuiltinValue::WorkGroupSize,
        NagaBuiltIn::NumWorkGroups => BuiltinValue::NumWorkGroups,
        NagaBuiltIn::NumSubgroups => BuiltinValue::NumSubgroups,
        NagaBuiltIn::SubgroupId => BuiltinValue::SubgroupId,
        NagaBuiltIn::SubgroupSize => BuiltinValue::SubgroupSize,
        NagaBuiltIn::SubgroupInvocationId => BuiltinValue::SubgroupInvocationId,
        _ => return None,
    })
}

/// Copies a naga mesh-shading built-in, or gives `None` for another
/// built-in.
/// Nothing is claimed of the result.
#[verifier::external_body]
fn mesh_builtin_of(builtin: naga::BuiltIn) -> Option<BuiltinValue> {
    Some(match builtin {
        NagaBuiltIn::MeshTaskSize => BuiltinValue::MeshTaskSize,
        NagaBuiltIn::CullPrimitive => BuiltinValue::CullPrimitive,
        NagaBuiltIn::PointIndex => BuiltinValue::PointIndex,
        NagaBuiltIn::LineIndices => BuiltinValue::LineIndices,
        NagaBuiltIn::TriangleIndices => BuiltinValue::TriangleIndices,
        NagaBuiltIn::VertexCount => BuiltinValue::VertexCount,
        NagaBuiltIn::Vertices => BuiltinValue::Vertices,
        NagaBuiltIn::PrimitiveCount => BuiltinValue::PrimitiveCount,
        NagaBuiltIn::Primitives => BuiltinValue::Primitives,
        _ => return None,
    })
}

/// Copies a naga ray-tracing built-in that indexes or classifies a ray or
/// a hit, or gives `None` for another built-in.
/// Nothing is claimed of the result.
#[verifier::external_body]
fn ray_builtin_of(builtin: naga::BuiltIn) -> Option<BuiltinValue> {
    Some(match builtin {
        NagaBuiltIn::RayInvocationId => BuiltinValue::RayInvocationId,
        NagaBuiltIn::NumRayInvocations => BuiltinValue::NumRayInvocations,
        NagaBuiltIn::InstanceCustomData => BuiltinValue::InstanceCustomData,
        NagaBuiltIn::GeometryIndex => BuiltinValue::GeometryIndex,
        NagaBuiltIn::RayTmin => BuiltinValue::RayTmin,
        NagaBuiltIn::RayTCurrentMax => BuiltinValue::RayTCurrentMax,
        NagaBuiltIn::HitKind => BuiltinValue::HitKind,
        _ => return None,
    })
}

/// Copies a naga ray-tracing built-in that gives a ray's origin or
/// direction or a transform, or gives `None` for another built-in.
/// Nothing is claimed of the result.
#[verifier::external_body]
fn ray_space_builtin_of(builtin: naga::BuiltIn) -> Option<BuiltinValue> {
    Some(match builtin {
        NagaBuiltIn::WorldRayOrigin => BuiltinValue::WorldRayOrigin,
        NagaBuiltIn::WorldRayDirection => BuiltinValue::WorldRayDirection,
        NagaBuiltIn::ObjectRayOrigin => BuiltinValue::ObjectRayOrigin,
        NagaBuiltIn::ObjectRayDirection => BuiltinValue::ObjectRayDirection,
        NagaBuiltIn::ObjectToWorld => BuiltinValue::ObjectToWorld,
        NagaBuiltIn::WorldToObject => BuiltinValue::WorldToObject,
        _ => return None,
    })
}

/// Copies a naga built-in through the copies of its groups; `None` for a
/// built-in that no group lists.
/// Nothing is claimed of the result.
#[verifier::external_body]
fn builtin_of(builtin: naga::BuiltIn) -> Option<BuiltinValue> {
    vertex_builtin_of(builtin)
        .or(fragment_builtin_of(builtin))
        .or(compute_builtin_of(builtin))
        .or(mesh_builtin_of(builtin))
        .or(ray_builtin_of(builtin))
        .or(ray_space_builtin_of(builtin))
}

/// Copies a naga binding; `None` where its built-in has no copy.
/// Nothing is claimed of the result.
#[verifier::external_body]
fn binding_of(binding: &naga::Binding) -> Option<IoBinding> {
    match binding {
        naga::Binding::BuiltIn(builtin) => builtin_of(*builtin).map(IoBinding::BuiltIn),
        naga::Binding::Location { location, interpolation, sampling, blend_src, .. } => {
            Some(IoBinding::Location {
                location: *location,
                interpolation: interpolation.map(interpolation_of),
                sampling: sampling.map(sampling_of),
                blend_src: *blend_src,
            })
        },
    }
}

/// Copies an optional naga binding; `None` where a binding is present and
/// has no copy.
/// Nothing is claimed of the result.
#[verifier::external_body]
fn optional_binding_of(binding: &Option<naga::Binding>) -> Option<Option<IoBinding>> {
    match binding {
        None => Some(None),
        Some(binding) => binding_of(binding).map(Some),
    }
}

/// Copies a naga struct member: its name, the index of its type and its
/// binding; `None` where the binding has no copy.
/// Nothing is claimed of the result.
#[verifier::external_body]
fn struct_member_of(member: &naga::StructMember) -> Option<StructField> {
    Some(StructField {
        name: member.name.clone(),
        ty: member.ty.index(),
        binding: optional_binding_of(&member.binding)?,
    })
}

/// Copies a naga function argument: its name, the index of its type and
/// its binding; `None` where the binding has no copy.
/// Nothing is claimed of the result.
#[verifier::external_body]
fn argument_of(argument: &naga::FunctionArgument) -> Option<EntryArgument> {
    Some(EntryArgument {
        name: argument.name.clone(),
        ty: argument.ty.index(),
        binding: optional_binding_of(&argument.binding)?,
    })
}

/// Copies the members of a naga struct type, in order; `None` where a
/// member's binding has no copy.
/// Nothing is claimed of the result.
#[verifier::external_body]
fn struct_members_of(members: &[naga::StructMember]) -> Option<Vec<StructField>> {
    members.iter().map(struct_member_of).collect()
}

/// Copies the type at `index` of a naga module; the kinds of type the
/// library does not read become `Other`. `None` past the last type or
/// where a struct member's binding has no copy.
/// Nothing is claimed of the result.
#[verifier::external_body]
fn type_at(module: &naga::Module, index: usize) -> Option<ShaderType> {
    let (_, ty) = module.types.iter().nth(index)?;
    Some(match &ty.inner {
        TypeInner::Scalar(scalar) => ShaderType::Scalar(scalar_of(*scalar)),
        TypeInner::Vector { size, scalar } => {
            ShaderType::Vector { size: vector_size_of(*size), scalar: scalar_of(*scalar) }
        },
        TypeInner::Struct { members, .. } => ShaderType::Struct { members: struct_members_of(members)? },
        TypeInner::Image { dim, arrayed, class } => ShaderType::Image {
            dim: image_dimension_of(*dim),
            arrayed: *arrayed,
            class: image_class_of(*class),
        },
        TypeInner::Sampler { comparison } => ShaderType::Sampler { comparison: *comparison },
        _ => ShaderType::Other,
    })
}

/// Copies the global variable at `index` of a naga module: its resource
/// binding, its address space and the index of its type; `None` past the
/// last one.
/// Nothing is claimed of the result.
#[verifier::external_body]
fn global_at(module: &naga::Module, index: usize) -> Option<GlobalVariable> {
    let (_, variable) = module.global_variables.iter().nth(index)?;
    Some(GlobalVariable {
        binding: variable.binding.map(|b| ResourceBinding { group: b.group, binding: b.binding }),
        space: address_space_of(variable.space),
        ty: variable.ty.index(),
    })
}

/// Copies the entry point at `index` of a naga module: its name, its stage,
/// the arguments and the result of its function; `None` past the last one
/// or where a binding has no copy.
/// Nothing is claimed of the result.
#[verifier::external_body]
fn entry_at(module: &naga::Module, index: usize) -> Option<EntryPoint> {
    let entry = module.entry_points.get(index)?;
    let result = match &entry.function.result {
        None => None,
        Some(r) => Some(FunctionResult { ty: r.ty.index(), binding: optional_binding_of(&r.binding)? }),
    };
    let arguments = entry.function.arguments.iter().map(argument_of).collect::<Option<_>>()?;
    Some(EntryPoint { name: entry.name.clone(), stage: stage_of(entry.stage), arguments, result })
}

/// Copies a naga module: its types, global variables and entry points, in
/// order; `None` where one of them has no copy.
/// Nothing is claimed of the result.
#[verifier::external_body]
fn module_of(module: &naga::Module) -> Option<ShaderModule> {
    let types = (0..module.types.len()).map(|i| type_at(module, i)).collect::<Option<Vec<ShaderType>>>()?;
    let globals = (0..module.global_variables.len()).map(|i| global_at(module, i)).collect::<Option<_>>()?;
    let entries = (0..module.entry_points.len()).map(|i| entry_at(module, i)).collect::<Option<_>>()?;
    Some(ShaderModule { types, global_variables: globals, entry_points: entries })
}

/// Whether every type index of the entry point is below `n`.
fn entry_well_formed(entry: &EntryPoint, n: usize) -> (well_formed: bool)
    ensures
        well_formed == spec_entry_well_formed(*entry, n as nat),
{
    let mut a: usize = 0;
    while a < entry.arguments.len()
        invariant
            a <= entry.arguments@.len(),
            forall|k: int| 0 <= k < a ==> #[trigger] entry.arguments@[k].ty < n,
        decreases entry.arguments@.len() - a,
    {
        if entry.arguments[a].ty >= n {
            return false;
        }
        a = a + 1;
    }
    match &entry.result {
        Some(r) => r.ty < n,
        None => true,
    }
}

/// Whether every type index of the module names one of its types.
pub fn module_well_formed(module: &ShaderModule) -> (well_formed: bool)
    ensures
        well_formed == spec_module_well_formed(*module),
{
    let n = module.types.len();
    let mut t: usize = 0;
    while t < n
        invariant
            t <= n,
            n == module.types@.len(),
            forall|u: int|
                0 <= u < t ==> (#[trigger] module.types@[u] matches ShaderType::Struct { members }
                    ==> forall|m: int| 0 <= m < members@.len() ==> #[trigger] members@[m].ty < n),
        decreases n - t,
    {
        if let ShaderType::Struct { members } = &module.types[t] {
            let mut m: usize = 0;
            while m < members.len()
                invariant
                    m <= members@.len(),
                    t < n,
                    n == module.types@.len(),
                    module.types@[t as int] == (ShaderType::Struct { members: *members }),
                    forall|k: int| 0 <= k < m ==> #[trigger] members@[k].ty < n,
                decreases members@.len() - m,
            {
                if members[m].ty >= n {
                    assert(!spec_module_well_formed(*module)) by {
                        let bad = module.types@[t as int];
                        assert(bad->Struct_members@[m as int].ty >= n);
                    }
                    return false;
                }
                m = m + 1;
            }
        }
        t = t + 1;
    }
    let mut g: usize = 0;
    while g < module.global_variables.len()
        invariant
            g <= module.global_variables@.len(),
            n == module.types@.len(),
            forall|k: int| 0 <= k < g ==> #[trigger] module.global_variables@[k].ty < n,
        decreases module.global_variables@.len() - g,
    {
        if module.global_variables[g].ty >= n {
            return false;
        }
        g = g + 1;
    }
    let mut e: usize = 0;
    while e < module.entry_points.len()
        invariant
            e <= module.entry_points@.len(),
            n == module.types@.len(),
            forall|k: int|
                0 <= k < e ==> spec_entry_well_formed(#[trigger] module.entry_points@[k], n as nat),
        decreases module.entry_points@.len() - e,
    {
        if !entry_well_formed(&module.entry_points[e], n) {
            return false;
        }
        e = e + 1;
    }
    true
}

/// The module the interface checks read: the parsed one when it was read
/// and is well-formed.
pub open spec fn spec_checked_module(parsed: Option<ShaderModule>) -> Option<ShaderModule> {
    match parsed {
        Some(m) => if spec_module_well_formed(m) {
            Some(m)
        } else {
            None
        },
        None => None,
    }
}

/// Keeps a read module only where it is well-formed.
fn read_module(parsed: Option<ShaderModule>) -> (read: Option<ShaderModule>)
    ensures
        read == spec_checked_module(parsed),
{
    match parsed {
        Some(module) => if module_well_formed(&module) {
            Some(module)
        } else {
            None
        },
        None => None,
    }
}

/// Whether `checked` is the outcome of a draw shader whose source parses:
/// the interface check of its module against the mesh and the limit, then
/// naga's validation.
pub open spec fn spec_draw_outcome(
    source: Seq<char>,
    mesh: Seq<(u32, VertexFormat)>,
    max_inter_stage_shader_variables: u32,
    checked: Result<ShaderResourceLayout, ShaderSourceError<DrawShaderError>>,
) -> bool {
    match spec_checked_module(wgsl_module(source)) {
        None => checked matches Err(ShaderSourceError::Wgsl(WgslError::Unreadable)),
        Some(m) => match spec_draw_interface(m, mesh, max_inter_stage_shader_variables) {
            Err(e) => checked == Err::<ShaderResourceLayout, ShaderSourceError<DrawShaderError>>(
                ShaderSourceError::Interface(e),
            ),
            Ok(r) => if wgsl_validates(source) {
                checked == Ok::<ShaderResourceLayout, ShaderSourceError<DrawShaderError>>(r)
            } else {
                checked matches Err(ShaderSourceError::Wgsl(WgslError::Validation(_)))
            },
        },
    }
}

/// Parses a draw shader, checks its interface against the mesh's attributes
/// and the device's inter-stage limit, then validates it with naga. What it
/// binds is returned.
pub fn parse_and_validate_draw_shader(
    shader_code: &str,
    mesh_attributes: &[(u32, VertexFormat)],
    max_inter_stage_shader_variables: u32,
) -> (checked: Result<ShaderResourceLayout, ShaderSourceError<DrawShaderError>>)
    ensures
        !wgsl_parses(shader_code@) ==> checked matches Err(
            ShaderSourceError::Wgsl(WgslError::Parse(_)),
        ),
        wgsl_parses(shader_code@) ==> spec_draw_outcome(
            shader_code@,
            mesh_attributes@,
            max_inter_stage_shader_variables,
            checked,
        ),
{
    let (parsed, validated) = match parse_wgsl(shader_code) {
        Ok(parsed) => parsed,
        Err(message) => return Err(ShaderSourceError::Wgsl(WgslError::Parse(message))),
    };
    let module = match read_module(parsed) {
        Some(module) => module,
        None => return Err(ShaderSourceError::Wgsl(WgslError::Unreadable)),
    };
    let resources = match validate_module_draw_interface(
        &module,
        mesh_attributes,
        max_inter_stage_shader_variables,
    ) {
        Ok(resources) => resources,
        Err(e) => return Err(ShaderSourceError::Interface(e)),
    };
    match validated {
        Ok(()) => Ok(resources),
        Err(message) => Err(ShaderSourceError::Wgsl(WgslError::Validation(message))),
    }
}

/// Checks a draw shader against the mesh's attributes with the default
/// inter-stage limit of sixteen variables.
pub fn validate_draw_interface(shader_code: &str, mesh_attributes: &[(u32, VertexFormat)]) -> (checked:
    Result<ShaderResourceLayout, ShaderSourceError<DrawShaderError>>)
    ensures
        !wgsl_parses(shader_code@) ==> checked matches Err(
            ShaderSourceError::Wgsl(WgslError::Parse(_)),
        ),
        wgsl_parses(shader_code@) ==> spec_draw_outcome(shader_code@, mesh_attributes@, 16, checked),
{
    parse_and_validate_draw_shader(shader_code, mesh_attributes, 16)
}

/// Whether `checked` is the outcome of a compute shader whose source
/// parses: the interface check of its module against the entry point and the
/// buffer layout, then naga's validation.
pub open spec fn spec_compute_outcome(
    source: Seq<char>,
    entry_point: Seq<char>,
    layout: Seq<ComputeBindingLayout>,
    checked: Result<(), ShaderSourceError<ComputeShaderError>>,
) -> bool {
    match spec_checked_module(wgsl_module(source)) {
        None => checked matches Err(ShaderSourceError::Wgsl(WgslError::Unreadable)),
        Some(m) => match spec_entry_index(
            m.entry_points@,
            entry_point,
            PipelineStage::Compute,
            m.entry_points@.len() as int,
        ) {
            None => checked matches Err(
                ShaderSourceError::Interface(ComputeShaderError::MissingEntryPoint(name)),
            ) && name@ == entry_point,
            Some(_) => match spec_compute_bindings_error(m, layout) {
                Some(e) => checked == Err::<(), ShaderSourceError<ComputeShaderError>>(
                    ShaderSourceError::Interface(e),
                ),
                None => if wgsl_validates(source) {
                    checked is Ok
                } else {
                    checked matches Err(ShaderSourceError::Wgsl(WgslError::Validation(_)))
                },
            },
        },
    }
}

/// Parses a compute shader, checks it against the buffer layout of its
/// pipeline and its entry point, then validates it with naga.
pub fn parse_and_validate_compute_shader(
    shader_code: &str,
    entry_point: &str,
    layout: &[ComputeBindingLayout],
) -> (checked: Result<(), ShaderSourceError<ComputeShaderError>>)
    ensures
        !wgsl_parses(shader_code@) ==> checked matches Err(
            ShaderSourceError::Wgsl(WgslError::Parse(_)),
        ),
        wgsl_parses(shader_code@) ==> spec_compute_outcome(
            shader_code@,
            entry_point@,
            layout@,
            checked,
        ),
{
    let (parsed, validated) = match parse_wgsl(shader_code) {
        Ok(parsed) => parsed,
        Err(message) => return Err(ShaderSourceError::Wgsl(WgslError::Parse(message))),
    };
    let module = match read_module(parsed) {
        Some(module) => module,
        None => return Err(ShaderSourceError::Wgsl(WgslError::Unreadable)),
    };
    match validate_compute_interface(&module, entry_point, layout) {
        Ok(()) => {},
        Err(e) => return Err(ShaderSourceError::Interface(e)),
    }
    match validated {
        Ok(()) => Ok(()),
        Err(message) => Err(ShaderSourceError::Wgsl(WgslError::Validation(message))),
    }
}

/// Parses WGSL source and validates it with naga.
pub fn validate_shader_code(shader_code: &str) -> (checked: Result<(), WgslError>)
    ensures
        !wgsl_parses(shader_code@) ==> checked matches Err(WgslError::Parse(_)),
        wgsl_parses(shader_code@) && wgsl_validates(shader_code@) ==> checked is Ok,
        wgsl_parses(shader_code@) && !wgsl_validates(shader_code@) ==> checked matches Err(
            WgslError::Validation(_),
        ),
{
    let validated = match parse_wgsl(shader_code) {
        Ok((_, validated)) => validated,
        Err(message) => return Err(WgslError::Parse(message)),
    };
    match validated {
        Ok(()) => Ok(()),
        Err(message) => Err(WgslError::Validation(message)),
    }
}

} // verus!
