use vstd::prelude::*;

verus! {

/// The pipeline stage an entry point runs in.
#[derive(Clone, Copy, Debug, PartialEq, Eq, Structural)]
pub enum PipelineStage {
    Vertex,
    Task,
    Mesh,
    Fragment,
    Compute,
    RayGeneration,
    Miss,
    AnyHit,
    ClosestHit,
}

/// How a stage input is interpolated.
#[derive(Clone, Copy, Debug, PartialEq, Eq, Structural)]
pub enum InterpolationMode {
    Perspective,
    Linear,
    Flat,
    PerVertex,
}

/// Where within a pixel an interpolated input is sampled.
#[derive(Clone, Copy, Debug, PartialEq, Eq, Structural)]
pub enum SamplingMode {
    Center,
    Centroid,
    Sample,
    First,
    Either,
}

/// A built-in shader variable.
#[derive(Clone, Copy, Debug, PartialEq, Eq, Structural)]
pub enum BuiltinValue {
    PrimitiveIndex,
    Position { invariant: bool },
    ViewIndex,
    BaseInstance,
    BaseVertex,
    ClipDistances,
    CullDistance,
    InstanceIndex,
    PointSize,
    VertexIndex,
    DrawIndex,
    FragDepth,
    PointCoord,
    FrontFacing,
    Barycentric { perspective: bool },
    SampleIndex,
    SampleMask,
    GlobalInvocationId,
    LocalInvocationId,
    LocalInvocationIndex,
    WorkGroupId,
    WorkGroupSize,
    NumWorkGroups,
    NumSubgroups,
    SubgroupId,
    SubgroupSize,
    SubgroupInvocationId,
    MeshTaskSize,
    CullPrimitive,
    PointIndex,
    LineIndices,
    TriangleIndices,
    VertexCount,
    Vertices,
    PrimitiveCount,
    Primitives,
    RayInvocationId,
    NumRayInvocations,
    InstanceCustomData,
    GeometryIndex,
    WorldRayOrigin,
    WorldRayDirection,
    ObjectRayOrigin,
    ObjectRayDirection,
    RayTmin,
    RayTCurrentMax,
    ObjectToWorld,
    WorldToObject,
    HitKind,
}

/// How a stage input or output is bound.
#[derive(Clone, Copy, Debug, PartialEq, Eq, Structural)]
pub enum IoBinding {
    BuiltIn(BuiltinValue),
    Location {
        location: u32,
        interpolation: Option<InterpolationMode>,
        sampling: Option<SamplingMode>,
        blend_src: Option<u32>,
    },
}

/// The kind of a scalar.
#[derive(Clone, Copy, Debug, PartialEq, Eq, Structural)]
pub enum ScalarClass {
    Sint,
    Uint,
    Float,
    Bool,
    AbstractInt,
    AbstractFloat,
}

/// A scalar type: its kind and its width in bytes.
#[derive(Clone, Copy, Debug, PartialEq, Eq, Structural)]
pub struct ScalarType {
    pub kind: ScalarClass,
    pub width: u8,
}

/// The number of components of a vector.
#[derive(Clone, Copy, Debug, PartialEq, Eq, Structural)]
pub enum VectorWidth {
    Bi,
    Tri,
    Quad,
}

/// The dimensionality of an image.
#[derive(Clone, Copy, Debug, PartialEq, Eq, Structural)]
pub enum ImageDim {
    D1,
    D2,
    D3,
    Cube,
}

/// What an image holds and how it is read.
#[derive(Clone, Copy, Debug, PartialEq, Eq, Structural)]
pub enum ImageKind {
    Sampled { kind: ScalarClass, multi: bool },
    Depth { multi: bool },
    External,
    Storage,
}

/// A member of a struct type: its name, the index of its type and its binding.
#[derive(Clone, Debug)]
pub struct StructField {
    pub name: Option<String>,
    pub ty: usize,
    pub binding: Option<IoBinding>,
}

/// A type of a shader module, as far as interface checks read it.
#[derive(Clone, Debug)]
pub enum ShaderType {
    Scalar(ScalarType),
    Vector { size: VectorWidth, scalar: ScalarType },
    Struct { members: Vec<StructField> },
    Image { dim: ImageDim, arrayed: bool, class: ImageKind },
    Sampler { comparison: bool },
    Other,
}

/// Where a resource is bound: its group and its binding within the group.
#[derive(Clone, Copy, Debug, PartialEq, Eq, Structural)]
pub struct ResourceBinding {
    pub group: u32,
    pub binding: u32,
}

/// The address space of a global variable; a storage buffer tells whether
/// the shader may store to it or use it atomically.
#[derive(Clone, Copy, Debug, PartialEq, Eq, Structural)]
pub enum MemorySpace {
    Function,
    Private,
    WorkGroup,
    Uniform,
    Storage { store: bool, atomic: bool },
    Handle,
    Other,
}

/// A global variable: its resource binding, if any, its address space and
/// the index of its type.
#[derive(Clone, Copy, Debug, PartialEq, Eq, Structural)]
pub struct GlobalVariable {
    pub binding: Option<ResourceBinding>,
    pub space: MemorySpace,
    pub ty: usize,
}

/// An argument of an entry point.
#[derive(Clone, Debug)]
pub struct EntryArgument {
    pub name: Option<String>,
    pub ty: usize,
    pub binding: Option<IoBinding>,
}

/// The result of an entry point.
#[derive(Clone, Copy, Debug, PartialEq, Eq, Structural)]
pub struct FunctionResult {
    pub ty: usize,
    pub binding: Option<IoBinding>,
}

/// An entry point of a shader module.
#[derive(Clone, Debug)]
pub struct EntryPoint {
    pub name: String,
    pub stage: PipelineStage,
    pub arguments: Vec<EntryArgument>,
    pub result: Option<FunctionResult>,
}

/// The interface of a parsed shader module: its types, its global variables
/// and its entry points. Types are referred to by their index in `types`.
#[derive(Clone, Debug)]
pub struct ShaderModule {
    pub types: Vec<ShaderType>,
    pub global_variables: Vec<GlobalVariable>,
    pub entry_points: Vec<EntryPoint>,
}

/// Why a WGSL source was refused by naga, or could not be read into the
/// library's model.
#[derive(Clone, Debug)]
pub enum WgslError {
    /// naga's WGSL front end refused the source; its message.
    Parse(String),
    /// The parsed module holds a value the library has no model of, or
    /// refers to a type it does not hold.
    Unreadable,
    /// naga's validator refused the parsed module; its message.
    Validation(String),
}

/// Why a shader source was refused: by naga, or by the library's interface
/// checks, whose error is `E`.
#[derive(Clone, Debug)]
pub enum ShaderSourceError<E> {
    Wgsl(WgslError),
    Interface(E),
}

/// Every type index of the module names a type of the module.
pub open spec fn spec_module_well_formed(module: ShaderModule) -> bool {
    let n = module.types@.len();
    &&& forall|t: int|
        0 <= t < n ==> (#[trigger] module.types@[t] matches ShaderType::Struct { members }
            ==> forall|m: int| 0 <= m < members@.len() ==> #[trigger] members@[m].ty < n)
    &&& forall|g: int|
        0 <= g < module.global_variables@.len() ==> #[trigger] module.global_variables@[g].ty < n
    &&& forall|e: int|
        0 <= e < module.entry_points@.len() ==> spec_entry_well_formed(
            #[trigger] module.entry_points@[e],
            n,
        )
}

/// Every type index of the entry point is below `n`.
pub open spec fn spec_entry_well_formed(entry: EntryPoint, n: nat) -> bool {
    &&& forall|a: int| 0 <= a < entry.arguments@.len() ==> #[trigger] entry.arguments@[a].ty < n
    &&& entry.result matches Some(r) ==> r.ty < n
}

} // verus!
