use vstd::prelude::*;

use crate::bind_group::ShaderResourceLayout;
use crate::shader::{
    spec_module_well_formed, MemorySpace, IoBinding, BuiltinValue, EntryPoint, EntryArgument,
    ImageKind, ImageDim, InterpolationMode, ResourceBinding, SamplingMode, ScalarClass, ShaderModule,
    PipelineStage, ShaderType, StructField, VectorWidth,
};
use crate::text::str_equals;
use crate::vertex::VertexFormat;

verus! {

/// The stage interface a field belongs to.
#[derive(Clone, Copy, Debug, PartialEq, Eq, Structural)]
pub enum InterfaceSubject {
    VertexOutput,
    FragmentInput,
    FragmentOutput,
}

/// The types a value can have when it passes between the vertex and the
/// fragment stage.
#[derive(Clone, Copy, Debug, PartialEq, Eq, Structural)]
pub enum InterfaceType {
    F32,
    Vec2F32,
    Vec3F32,
    Vec4F32,
}

/// A value passed from the vertex to the fragment stage: its type and how
/// it is interpolated.
#[derive(Clone, Copy, Debug, PartialEq, Eq, Structural)]
pub struct InterfaceField {
    pub ty: InterfaceType,
    pub interpolation: Option<InterpolationMode>,
    pub sampling: Option<SamplingMode>,
}

/// A vertex output at a location.
#[derive(Clone, Copy, Debug, PartialEq, Eq, Structural)]
pub struct InterfaceVariable {
    pub location: u32,
    pub field: InterfaceField,
}

/// A field of a stage interface: its binding and the index of its type.
#[derive(Clone, Copy, Debug, PartialEq, Eq, Structural)]
pub struct BoundField {
    pub binding: IoBinding,
    pub ty: usize,
}

/// Why a draw shader was refused.
#[derive(Clone, Debug)]
pub enum DrawShaderError {
    UnsupportedResource(ResourceBinding),
    ComparisonSampler(ResourceBinding),
    TextureWithoutSampler,
    SamplerWithoutTexture,
    TextureSamplerGroupMismatch,
    MissingVertexEntryPoint,
    MissingFragmentEntryPoint,
    MissingMeshAttribute { location: u32, expected: VertexFormat },
    MeshAttributeFormatMismatch { location: u32, actual: VertexFormat, expected: VertexFormat },
    UnsupportedVertexInput(Option<String>),
    UnsupportedVertexInputMember(Option<String>),
    UnsupportedVertexInputType(u32),
    MissingPositionOutput,
    UnsupportedVertexOutputType(u32),
    UnsupportedVertexOutputBuiltIn(BuiltinValue),
    MissingInterfaceBinding(InterfaceSubject),
    StructMemberWithoutBinding(InterfaceSubject),
    TooManyInterStageVariables { count: usize, max: u32 },
    InterStageLocationExceedsLimit { location: u32, max: u32 },
    UnsupportedFragmentInputType(u32),
    UnmatchedFragmentInput(u32),
    FragmentInputTypeMismatch { location: u32, fragment: InterfaceType, vertex: InterfaceType },
    InterpolationMismatch(u32),
    InvalidFragmentOutput,
}

/// The interface type of a shader type, if it has one: a 32-bit float
/// scalar or a vector of two, three or four of them.
pub open spec fn spec_interface_type(t: ShaderType) -> Option<InterfaceType> {
    match t {
        ShaderType::Scalar(s) => if s.kind == ScalarClass::Float && s.width == 4 {
            Some(InterfaceType::F32)
        } else {
            None
        },
        ShaderType::Vector { size, scalar } => if scalar.kind == ScalarClass::Float && scalar.width
            == 4 {
            match size {
                VectorWidth::Bi => Some(InterfaceType::Vec2F32),
                VectorWidth::Tri => Some(InterfaceType::Vec3F32),
                VectorWidth::Quad => Some(InterfaceType::Vec4F32),
            }
        } else {
            None
        },
        _ => None,
    }
}

/// The interface type of the module's type `ty`.
pub fn interface_type(module: &ShaderModule, ty: usize) -> (found: Option<InterfaceType>)
    requires
        ty < module.types@.len(),
    ensures
        found == spec_interface_type(module.types@[ty as int]),
{
    match &module.types[ty] {
        ShaderType::Scalar(s) => {
            if s.kind == ScalarClass::Float && s.width == 4 {
                Some(InterfaceType::F32)
            } else {
                None
            }
        },
        ShaderType::Vector { size, scalar } => {
            if scalar.kind == ScalarClass::Float && scalar.width == 4 {
                match size {
                    VectorWidth::Bi => Some(InterfaceType::Vec2F32),
                    VectorWidth::Tri => Some(InterfaceType::Vec3F32),
                    VectorWidth::Quad => Some(InterfaceType::Vec4F32),
                }
            } else {
                None
            }
        },
        _ => None,
    }
}

/// The bound fields of an interface value: the value itself when it has a
/// binding, else the members of its struct type, each of which must have one.
pub open spec fn spec_bound_fields(
    module: ShaderModule,
    ty: usize,
    binding: Option<IoBinding>,
    subject: InterfaceSubject,
) -> Result<Seq<BoundField>, DrawShaderError> {
    match binding {
        Some(b) => Ok(seq![BoundField { binding: b, ty }]),
        None => match module.types@[ty as int] {
            ShaderType::Struct { members } => if exists|m: int|
                0 <= m < members@.len() && (#[trigger] members@[m]).binding is None {
                Err(DrawShaderError::StructMemberWithoutBinding(subject))
            } else {
                Ok(
                    members@.map_values(
                        |member: StructField|
                            BoundField { binding: member.binding.unwrap(), ty: member.ty },
                    ),
                )
            },
            _ => Err(DrawShaderError::MissingInterfaceBinding(subject)),
        },
    }
}

/// The bound fields of an interface value.
pub fn bound_interface_fields(
    module: &ShaderModule,
    ty: usize,
    binding: Option<IoBinding>,
    subject: InterfaceSubject,
) -> (fields: Result<Vec<BoundField>, DrawShaderError>)
    requires
        spec_module_well_formed(*module),
        ty < module.types@.len(),
    ensures
        match spec_bound_fields(*module, ty, binding, subject) {
            Ok(s) => fields matches Ok(v) && v@ == s,
            Err(e) => fields matches Err(x) && x == e,
        },
        fields matches Ok(v) ==> forall|i: int| 0 <= i < v@.len() ==> #[trigger] v@[i].ty < module.types@.len(),
{
    if let Some(b) = binding {
        let mut v: Vec<BoundField> = Vec::new();
        v.push(BoundField { binding: b, ty });
        proof {
            assert(v@ =~= seq![BoundField { binding: b, ty }]);
        }
        return Ok(v);
    }
    match &module.types[ty] {
        ShaderType::Struct { members } => {
            proof {
                assert(module.types@[ty as int] matches ShaderType::Struct { .. });
            }
            let mut v: Vec<BoundField> = Vec::new();
            let mut m: usize = 0;
            while m < members.len()
                invariant
                    m <= members@.len(),
                    v@.len() == m,
                    binding is None,
                    module.types@[ty as int] == (ShaderType::Struct { members: *members }),
                    spec_module_well_formed(*module),
                    ty < module.types@.len(),
                    forall|k: int| 0 <= k < m ==> (#[trigger] members@[k]).binding is Some,
                    forall|k: int|
                        0 <= k < m ==> #[trigger] v@[k] == (BoundField {
                            binding: members@[k].binding.unwrap(),
                            ty: members@[k].ty,
                        }),
                    forall|k: int| 0 <= k < m ==> #[trigger] v@[k].ty < module.types@.len(),
                decreases members@.len() - m,
            {
                match members[m].binding {
                    Some(b) => {
                        v.push(BoundField { binding: b, ty: members[m].ty });
                    },
                    None => {
                        proof {
                            assert((members@[m as int]).binding is None);
                        }
                        return Err(DrawShaderError::StructMemberWithoutBinding(subject));
                    },
                }
                m = m + 1;
            }
            proof {
                assert(v@ =~= members@.map_values(
                    |member: StructField|
                        BoundField { binding: member.binding.unwrap(), ty: member.ty },
                ));
            }
            Ok(v)
        },
        _ => Err(DrawShaderError::MissingInterfaceBinding(subject)),
    }
}

} // verus!

verus! {

/// A sampled 2D float texture, not arrayed and not multisampled.
pub open spec fn spec_is_sampled_texture(t: ShaderType) -> bool {
    t matches ShaderType::Image {
        dim: ImageDim::D2,
        arrayed: false,
        class: ImageKind::Sampled { kind: ScalarClass::Float, multi: false },
    }
}

/// The texture and sampler found so far, or the error of a global variable.
pub open spec fn spec_resource_step(
    module: ShaderModule,
    g: int,
    found: (Option<ResourceBinding>, Option<ResourceBinding>),
) -> Result<(Option<ResourceBinding>, Option<ResourceBinding>), DrawShaderError> {
    let variable = module.global_variables@[g];
    let (texture, sampler) = found;
    match variable.binding {
        None => Ok(found),
        Some(b) => if b.group != 0 {
            Err(DrawShaderError::UnsupportedResource(b))
        } else {
            let t = module.types@[variable.ty as int];
            if spec_is_sampled_texture(t) {
                if texture is Some {
                    Err(DrawShaderError::UnsupportedResource(b))
                } else {
                    Ok((Some(b), sampler))
                }
            } else if t matches ShaderType::Sampler { comparison: false } {
                if sampler is Some {
                    Err(DrawShaderError::UnsupportedResource(b))
                } else {
                    Ok((texture, Some(b)))
                }
            } else if t matches ShaderType::Sampler { comparison: true } {
                Err(DrawShaderError::ComparisonSampler(b))
            } else {
                Err(DrawShaderError::UnsupportedResource(b))
            }
        },
    }
}

/// The texture and sampler among the first `n` global variables, or the
/// first error among them.
pub open spec fn spec_resource_scan(module: ShaderModule, n: int) -> Result<
    (Option<ResourceBinding>, Option<ResourceBinding>),
    DrawShaderError,
>
    decreases n,
{
    if n <= 0 {
        Ok((None, None))
    } else {
        match spec_resource_scan(module, n - 1) {
            Err(e) => Err(e),
            Ok(found) => spec_resource_step(module, n - 1, found),
        }
    }
}

/// The resources a draw shader binds: nothing, or one filtering sampler
/// and one sampled 2D float texture in bind group 0.
pub open spec fn spec_resource_layout(module: ShaderModule) -> Result<ShaderResourceLayout, DrawShaderError> {
    match spec_resource_scan(module, module.global_variables@.len() as int) {
        Err(e) => Err(e),
        Ok((None, None)) => Ok(ShaderResourceLayout::NoResources),
        Ok((Some(t), Some(s))) => if t.group == s.group {
            Ok(
                ShaderResourceLayout::TextureSampler {
                    group: t.group,
                    texture_binding: t.binding,
                    sampler_binding: s.binding,
                },
            )
        } else {
            Err(DrawShaderError::TextureSamplerGroupMismatch)
        },
        Ok((Some(_), None)) => Err(DrawShaderError::TextureWithoutSampler),
        Ok((None, Some(_))) => Err(DrawShaderError::SamplerWithoutTexture),
    }
}

proof fn lemma_resource_scan_stuck(module: ShaderModule, i: int, n: int)
    requires
        0 <= i < n,
        spec_resource_scan(module, i + 1) is Err,
    ensures
        spec_resource_scan(module, n) == spec_resource_scan(module, i + 1),
    decreases n,
{
    if i + 1 < n {
        lemma_resource_scan_stuck(module, i, n - 1);
    }
}

/// A filtering (non-comparison) sampler.
pub open spec fn spec_is_filtering_sampler(t: ShaderType) -> bool {
    t matches ShaderType::Sampler { comparison: false }
}

/// What the scan of the first `n` global variables found: every bound one
/// is in group 0 and is the texture or the sampler found, and each one
/// found is bound by one of them.
pub open spec fn spec_resources_found(
    module: ShaderModule,
    n: int,
    texture: Option<ResourceBinding>,
    sampler: Option<ResourceBinding>,
) -> bool {
    let vars = module.global_variables@;
    &&& forall|g: int|
        0 <= g < n && (#[trigger] vars[g]).binding is Some ==> {
            let b = vars[g].binding.unwrap();
            let t = module.types@[vars[g].ty as int];
            &&& b.group == 0
            &&& (spec_is_sampled_texture(t) && texture == Some(b)) || (spec_is_filtering_sampler(t)
                && sampler == Some(b))
        }
    &&& texture matches Some(b) ==> exists|g: int|
        0 <= g < n && (#[trigger] vars[g]).binding == Some(b) && spec_is_sampled_texture(
            module.types@[vars[g].ty as int],
        )
    &&& sampler matches Some(b) ==> exists|g: int|
        0 <= g < n && (#[trigger] vars[g]).binding == Some(b) && spec_is_filtering_sampler(
            module.types@[vars[g].ty as int],
        )
}

proof fn lemma_resource_scan_found(module: ShaderModule, n: int)
    requires
        0 <= n <= module.global_variables@.len(),
    ensures
        spec_resource_scan(module, n) matches Ok((texture, sampler)) ==> spec_resources_found(
            module,
            n,
            texture,
            sampler,
        ),
        (forall|g: int| 0 <= g < n ==> (#[trigger] module.global_variables@[g]).binding is None)
            ==> spec_resource_scan(module, n) == Ok::<
            (Option<ResourceBinding>, Option<ResourceBinding>),
            DrawShaderError,
        >((None, None)),
    decreases n,
{
    if n > 0 {
        lemma_resource_scan_found(module, n - 1);
        let vars = module.global_variables@;
        if let Ok((texture, sampler)) = spec_resource_scan(module, n - 1) {
            if let Ok((t2, s2)) = spec_resource_scan(module, n) {
                assert forall|g: int| 0 <= g < n && (#[trigger] vars[g]).binding is Some implies {
                    let b = vars[g].binding.unwrap();
                    let t = module.types@[vars[g].ty as int];
                    &&& b.group == 0
                    &&& (spec_is_sampled_texture(t) && t2 == Some(b)) || (spec_is_filtering_sampler(t)
                        && s2 == Some(b))
                } by {
                    if g < n - 1 {
                        assert(spec_resources_found(module, n - 1, texture, sampler));
                    }
                }
                if let Some(b) = t2 {
                    if texture is None {
                        assert(vars[n - 1].binding == Some(b));
                    }
                }
                if let Some(b) = s2 {
                    if sampler is None {
                        assert(vars[n - 1].binding == Some(b));
                    }
                }
            }
        }
    }
}

/// A draw shader binds no resources exactly when none of its global
/// variables is bound; when it binds a texture and a sampler, both are in
/// bind group 0, a sampled 2D float texture is bound at the texture binding
/// and a filtering sampler at the sampler binding, and no other global
/// variable is bound.
pub proof fn law_draw_shader_resources(module: ShaderModule)
    ensures
        spec_resource_layout(module) == Ok::<ShaderResourceLayout, DrawShaderError>(
            ShaderResourceLayout::NoResources,
        ) <==> forall|g: int|
            0 <= g < module.global_variables@.len() ==> (#[trigger] module.global_variables@[g]).binding
                is None,
        spec_resource_layout(module) matches Ok(
            ShaderResourceLayout::TextureSampler { group, texture_binding, sampler_binding },
        ) ==> {
            let vars = module.global_variables@;
            let texture = ResourceBinding { group: 0, binding: texture_binding };
            let sampler = ResourceBinding { group: 0, binding: sampler_binding };
            &&& group == 0
            &&& exists|g: int|
                0 <= g < vars.len() && (#[trigger] vars[g]).binding == Some(texture)
                    && spec_is_sampled_texture(module.types@[vars[g].ty as int])
            &&& exists|g: int|
                0 <= g < vars.len() && (#[trigger] vars[g]).binding == Some(sampler)
                    && spec_is_filtering_sampler(module.types@[vars[g].ty as int])
            &&& forall|g: int|
                0 <= g < vars.len() && (#[trigger] vars[g]).binding is Some ==> vars[g].binding == Some(
                    texture,
                ) || vars[g].binding == Some(sampler)
        },
{
    let n = module.global_variables@.len() as int;
    lemma_resource_scan_found(module, n);
    if let Ok((texture, sampler)) = spec_resource_scan(module, n) {
        assert(spec_resources_found(module, n, texture, sampler));
        if texture is None && sampler is None {
            assert forall|g: int| 0 <= g < n implies (#[trigger] module.global_variables@[g]).binding
                is None by {
                if module.global_variables@[g].binding is Some {
                    assert(spec_resources_found(module, n, texture, sampler));
                }
            }
        }
    }
}

/// Whether the resource check refuses global variable `g` of the module,
/// given that it accepted the ones before it: `g` is bound, and it is
/// outside bind group 0, neither a sampled 2D float texture nor a filtering
/// sampler, or a second texture or a second sampler.
pub open spec fn spec_global_refused(module: ShaderModule, g: int) -> bool {
    let vars = module.global_variables@;
    let t = module.types@[vars[g].ty as int];
    &&& vars[g].binding is Some
    &&& {
        ||| vars[g].binding.unwrap().group != 0
        ||| !(spec_is_sampled_texture(t) || spec_is_filtering_sampler(t))
        ||| spec_is_sampled_texture(t) && exists|h: int|
            0 <= h < g && (#[trigger] vars[h]).binding is Some && spec_is_sampled_texture(
                module.types@[vars[h].ty as int],
            )
        ||| spec_is_filtering_sampler(t) && exists|h: int|
            0 <= h < g && (#[trigger] vars[h]).binding is Some && spec_is_filtering_sampler(
                module.types@[vars[h].ty as int],
            )
    }
}

/// The error a refused global variable raises: a comparison sampler in
/// bind group 0 is named as such, anything else as an unsupported resource.
pub open spec fn spec_refusal_error(module: ShaderModule, g: int) -> DrawShaderError {
    let variable = module.global_variables@[g];
    let b = variable.binding.unwrap();
    if b.group == 0 && module.types@[variable.ty as int] matches ShaderType::Sampler { comparison: true } {
        DrawShaderError::ComparisonSampler(b)
    } else {
        DrawShaderError::UnsupportedResource(b)
    }
}

/// Some bound global variable of the first `n` is a sampled 2D float texture.
pub open spec fn spec_has_bound_texture(module: ShaderModule, n: int) -> bool {
    exists|h: int|
        0 <= h < n && (#[trigger] module.global_variables@[h]).binding is Some && spec_is_sampled_texture(
            module.types@[module.global_variables@[h].ty as int],
        )
}

/// Some bound global variable of the first `n` is a filtering sampler.
pub open spec fn spec_has_bound_sampler(module: ShaderModule, n: int) -> bool {
    exists|h: int|
        0 <= h < n && (#[trigger] module.global_variables@[h]).binding is Some && spec_is_filtering_sampler(
            module.types@[module.global_variables@[h].ty as int],
        )
}

proof fn lemma_scan_unrefused(module: ShaderModule, n: int)
    requires
        0 <= n <= module.global_variables@.len(),
        forall|h: int| 0 <= h < n ==> !#[trigger] spec_global_refused(module, h),
    ensures
        spec_resource_scan(module, n) matches Ok((texture, sampler)) && {
            &&& (texture is Some <==> spec_has_bound_texture(module, n))
            &&& (sampler is Some <==> spec_has_bound_sampler(module, n))
            &&& (texture matches Some(b) ==> b.group == 0 && exists|h: int|
                0 <= h < n && (#[trigger] module.global_variables@[h]).binding == Some(b)
                    && spec_is_sampled_texture(module.types@[module.global_variables@[h].ty as int]))
            &&& (sampler matches Some(b) ==> b.group == 0 && exists|h: int|
                0 <= h < n && (#[trigger] module.global_variables@[h]).binding == Some(b)
                    && spec_is_filtering_sampler(module.types@[module.global_variables@[h].ty as int]))
        },
    decreases n,
{
    if n > 0 {
        lemma_scan_unrefused(module, n - 1);
        let vars = module.global_variables@;
        assert(!spec_global_refused(module, n - 1));
        if let Ok((texture, sampler)) = spec_resource_scan(module, n - 1) {
            if spec_has_bound_texture(module, n) && !spec_has_bound_texture(module, n - 1) {
                assert(vars[n - 1].binding is Some);
            }
            if spec_has_bound_sampler(module, n) && !spec_has_bound_sampler(module, n - 1) {
                assert(vars[n - 1].binding is Some);
            }
            if spec_has_bound_texture(module, n - 1) {
                let h = choose|h: int|
                    0 <= h < n - 1 && (#[trigger] vars[h]).binding is Some && spec_is_sampled_texture(
                        module.types@[vars[h].ty as int],
                    );
                assert(spec_has_bound_texture(module, n));
            }
            if spec_has_bound_sampler(module, n - 1) {
                let h = choose|h: int|
                    0 <= h < n - 1 && (#[trigger] vars[h]).binding is Some && spec_is_filtering_sampler(
                        module.types@[vars[h].ty as int],
                    );
                assert(spec_has_bound_sampler(module, n));
            }
        }
    }
}

/// The whole case split of a draw shader's resource check. The first global
/// variable (in declaration order) that it refuses decides the error: a
/// comparison sampler in bind group 0 is named as such, anything else is an
/// unsupported resource. When none is refused, the shader binds nothing if
/// no texture and no sampler are bound, binds the texture and the sampler
/// (both in bind group 0) if both are, and is refused as a texture without
/// a sampler or a sampler without a texture if only one is.
pub proof fn law_draw_shader_resource_cases(module: ShaderModule)
    ensures
        forall|g: int|
            0 <= g < module.global_variables@.len() && #[trigger] spec_global_refused(module, g) && (forall|h: int|
                0 <= h < g ==> !#[trigger] spec_global_refused(module, h)) ==> spec_resource_layout(module)
                == Err::<ShaderResourceLayout, DrawShaderError>(spec_refusal_error(module, g)),
        (forall|h: int|
            0 <= h < module.global_variables@.len() ==> !#[trigger] spec_global_refused(module, h)) ==> {
            let n = module.global_variables@.len() as int;
            let vars = module.global_variables@;
            let texture = spec_has_bound_texture(module, n);
            let sampler = spec_has_bound_sampler(module, n);
            &&& !texture && !sampler ==> spec_resource_layout(module) == Ok::<
                ShaderResourceLayout,
                DrawShaderError,
            >(ShaderResourceLayout::NoResources)
            &&& texture && !sampler ==> spec_resource_layout(module) == Err::<
                ShaderResourceLayout,
                DrawShaderError,
            >(DrawShaderError::TextureWithoutSampler)
            &&& !texture && sampler ==> spec_resource_layout(module) == Err::<
                ShaderResourceLayout,
                DrawShaderError,
            >(DrawShaderError::SamplerWithoutTexture)
            &&& texture && sampler ==> (spec_resource_layout(module) matches Ok(
                ShaderResourceLayout::TextureSampler { group, texture_binding, sampler_binding },
            ) && group == 0 && (exists|h: int|
                0 <= h < n && (#[trigger] vars[h]).binding == Some(
                    ResourceBinding { group: 0, binding: texture_binding },
                ) && spec_is_sampled_texture(module.types@[vars[h].ty as int])) && (exists|h: int|
                0 <= h < n && (#[trigger] vars[h]).binding == Some(
                    ResourceBinding { group: 0, binding: sampler_binding },
                ) && spec_is_filtering_sampler(module.types@[vars[h].ty as int])))
        },
{
    let n = module.global_variables@.len() as int;
    assert forall|g: int|
        0 <= g < n && #[trigger] spec_global_refused(module, g) && (forall|h: int|
            0 <= h < g ==> !#[trigger] spec_global_refused(module, h)) implies spec_resource_layout(module)
        == Err::<ShaderResourceLayout, DrawShaderError>(spec_refusal_error(module, g)) by {
        lemma_scan_unrefused(module, g);
        let vars = module.global_variables@;
        if let Ok((texture, sampler)) = spec_resource_scan(module, g) {
            let t = module.types@[vars[g].ty as int];
            if spec_is_sampled_texture(t) && vars[g].binding.unwrap().group == 0 {
                let h = choose|h: int|
                    0 <= h < g && (#[trigger] vars[h]).binding is Some && spec_is_sampled_texture(
                        module.types@[vars[h].ty as int],
                    );
                assert(spec_has_bound_texture(module, g));
            }
            if spec_is_filtering_sampler(t) && vars[g].binding.unwrap().group == 0 {
                let h = choose|h: int|
                    0 <= h < g && (#[trigger] vars[h]).binding is Some && spec_is_filtering_sampler(
                        module.types@[vars[h].ty as int],
                    );
                assert(spec_has_bound_sampler(module, g));
            }
        }
        assert(spec_resource_scan(module, g + 1) == Err::<
            (Option<ResourceBinding>, Option<ResourceBinding>),
            DrawShaderError,
        >(spec_refusal_error(module, g)));
        lemma_resource_scan_stuck(module, g, n);
    }
    if forall|h: int| 0 <= h < n ==> !#[trigger] spec_global_refused(module, h) {
        lemma_scan_unrefused(module, n);
    }
}

/// Reads the texture and sampler a draw shader binds.
pub fn validate_shader_resource_layout(module: &ShaderModule) -> (layout: Result<
    ShaderResourceLayout,
    DrawShaderError,
>)
    requires
        spec_module_well_formed(*module),
    ensures
        match spec_resource_layout(*module) {
            Ok(l) => layout matches Ok(x) && x == l,
            Err(e) => layout matches Err(x) && x == e,
        },
{
    let mut texture: Option<ResourceBinding> = None;
    let mut sampler: Option<ResourceBinding> = None;
    let mut g: usize = 0;
    let ghost n = module.global_variables@.len() as int;
    while g < module.global_variables.len()
        invariant
            g <= n,
            n == module.global_variables@.len(),
            spec_module_well_formed(*module),
            spec_resource_scan(*module, g as int) == Ok::<
                (Option<ResourceBinding>, Option<ResourceBinding>),
                DrawShaderError,
            >((texture, sampler)),
        decreases n - g,
    {
        let variable = module.global_variables[g];
        proof {
            assert(variable.ty < module.types@.len());
        }
        if let Some(b) = variable.binding {
            let failure: Option<DrawShaderError> = if b.group != 0 {
                Some(DrawShaderError::UnsupportedResource(b))
            } else {
                match &module.types[variable.ty] {
                    ShaderType::Image { dim, arrayed, class } => {
                        let sampled = match (dim, class) {
                            (
                                ImageDim::D2,
                                ImageKind::Sampled { kind: ScalarClass::Float, multi: false },
                            ) => !*arrayed,
                            _ => false,
                        };
                        if !sampled || texture.is_some() {
                            Some(DrawShaderError::UnsupportedResource(b))
                        } else {
                            texture = Some(b);
                            None
                        }
                    },
                    ShaderType::Sampler { comparison } => {
                        if *comparison {
                            Some(DrawShaderError::ComparisonSampler(b))
                        } else if sampler.is_some() {
                            Some(DrawShaderError::UnsupportedResource(b))
                        } else {
                            sampler = Some(b);
                            None
                        }
                    },
                    _ => Some(DrawShaderError::UnsupportedResource(b)),
                }
            };
            if let Some(error) = failure {
                proof {
                    lemma_resource_scan_stuck(*module, g as int, n);
                }
                return Err(error);
            }
        }
        g = g + 1;
    }
    match (texture, sampler) {
        (None, None) => Ok(ShaderResourceLayout::NoResources),
        (Some(t), Some(s)) => {
            if t.group == s.group {
                Ok(
                    ShaderResourceLayout::TextureSampler {
                        group: t.group,
                        texture_binding: t.binding,
                        sampler_binding: s.binding,
                    },
                )
            } else {
                Err(DrawShaderError::TextureSamplerGroupMismatch)
            }
        },
        (Some(_), None) => Err(DrawShaderError::TextureWithoutSampler),
        (None, Some(_)) => Err(DrawShaderError::SamplerWithoutTexture),
    }
}

} // verus!

verus! {

/// The index of the first of the first `n` outputs at `location`.
pub open spec fn spec_output_index(outputs: Seq<InterfaceVariable>, location: u32, n: int) -> Option<int>
    decreases n,
{
    if n <= 0 {
        None
    } else {
        match spec_output_index(outputs, location, n - 1) {
            Some(i) => Some(i),
            None => if outputs[n - 1].location == location {
                Some(n - 1)
            } else {
                None
            },
        }
    }
}

/// The output at `location`, if any.
pub open spec fn spec_find_output(outputs: Seq<InterfaceVariable>, location: u32) -> Option<
    InterfaceField,
> {
    match spec_output_index(outputs, location, outputs.len() as int) {
        Some(i) => Some(outputs[i].field),
        None => None,
    }
}

/// The outputs with `field` at `location`, replacing an earlier output
/// there.
pub open spec fn spec_insert_output(
    outputs: Seq<InterfaceVariable>,
    location: u32,
    field: InterfaceField,
) -> Seq<InterfaceVariable> {
    match spec_output_index(outputs, location, outputs.len() as int) {
        Some(i) => outputs.update(i, InterfaceVariable { location, field }),
        None => outputs.push(InterfaceVariable { location, field }),
    }
}

/// Whether the position was seen, and the located outputs, after the first
/// `n` vertex output fields; or the first error among them.
pub open spec fn spec_output_scan(module: ShaderModule, fields: Seq<BoundField>, n: int) -> Result<
    (bool, Seq<InterfaceVariable>),
    DrawShaderError,
>
    decreases n,
{
    if n <= 0 {
        Ok((false, Seq::empty()))
    } else {
        match spec_output_scan(module, fields, n - 1) {
            Err(e) => Err(e),
            Ok((has_position, outputs)) => {
                let field = fields[n - 1];
                let ty = spec_interface_type(module.types@[field.ty as int]);
                match field.binding {
                    IoBinding::BuiltIn(BuiltinValue::Position { .. }) => if ty == Some(
                        InterfaceType::Vec4F32,
                    ) {
                        Ok((true, outputs))
                    } else {
                        Err(DrawShaderError::MissingPositionOutput)
                    },
                    IoBinding::Location { location, interpolation, sampling, .. } => match ty {
                        Some(t) => Ok(
                            (
                                has_position,
                                spec_insert_output(
                                    outputs,
                                    location,
                                    InterfaceField { ty: t, interpolation, sampling },
                                ),
                            ),
                        ),
                        None => Err(DrawShaderError::UnsupportedVertexOutputType(location)),
                    },
                    IoBinding::BuiltIn(builtin) => Err(
                        DrawShaderError::UnsupportedVertexOutputBuiltIn(builtin),
                    ),
                }
            },
        }
    }
}

/// The located outputs of a vertex entry point, which must also output
/// the position as a `vec4<f32>`.
pub open spec fn spec_vertex_outputs(module: ShaderModule, entry: EntryPoint) -> Result<
    Seq<InterfaceVariable>,
    DrawShaderError,
> {
    match entry.result {
        None => Err(DrawShaderError::MissingPositionOutput),
        Some(r) => match spec_bound_fields(module, r.ty, r.binding, InterfaceSubject::VertexOutput) {
            Err(e) => Err(e),
            Ok(fields) => match spec_output_scan(module, fields, fields.len() as int) {
                Err(e) => Err(e),
                Ok((has_position, outputs)) => if has_position {
                    Ok(outputs)
                } else {
                    Err(DrawShaderError::MissingPositionOutput)
                },
            },
        },
    }
}

/// No two outputs share a location.
pub open spec fn spec_outputs_distinct(outputs: Seq<InterfaceVariable>) -> bool {
    forall|i: int, j: int|
        0 <= i < j < outputs.len() ==> #[trigger] outputs[i].location != #[trigger] outputs[j].location
}

proof fn lemma_output_index_first(outputs: Seq<InterfaceVariable>, location: u32, i: int, n: int)
    requires
        0 <= i < n,
        spec_output_index(outputs, location, i) is None,
        outputs[i].location == location,
    ensures
        spec_output_index(outputs, location, n) == Some(i),
    decreases n,
{
    if i < n - 1 {
        lemma_output_index_first(outputs, location, i, n - 1);
    }
}

proof fn lemma_output_index_none(outputs: Seq<InterfaceVariable>, location: u32, n: int)
    requires
        0 <= n <= outputs.len(),
        spec_output_index(outputs, location, n) is None,
    ensures
        forall|k: int| 0 <= k < n ==> #[trigger] outputs[k].location != location,
    decreases n,
{
    if n > 0 {
        lemma_output_index_none(outputs, location, n - 1);
    }
}

/// Finds the output at `location`.
fn output_index(outputs: &Vec<InterfaceVariable>, location: u32) -> (index: Option<usize>)
    ensures
        match index {
            Some(i) => spec_output_index(outputs@, location, outputs@.len() as int) == Some(
                i as int,
            ) && i < outputs@.len(),
            None => spec_output_index(outputs@, location, outputs@.len() as int) is None,
        },
{
    let mut i: usize = 0;
    while i < outputs.len()
        invariant
            i <= outputs@.len(),
            spec_output_index(outputs@, location, i as int) is None,
        decreases outputs@.len() - i,
    {
        if outputs[i].location == location {
            proof {
                lemma_output_index_first(outputs@, location, i as int, outputs@.len() as int);
            }
            return Some(i);
        }
        i = i + 1;
    }
    None
}

proof fn lemma_output_index_some(outputs: Seq<InterfaceVariable>, location: u32, n: int)
    requires
        0 <= n <= outputs.len(),
        spec_output_index(outputs, location, n) is Some,
    ensures
        0 <= spec_output_index(outputs, location, n).unwrap() < n,
        outputs[spec_output_index(outputs, location, n).unwrap()].location == location,
    decreases n,
{
    if spec_output_index(outputs, location, n - 1) is Some {
        lemma_output_index_some(outputs, location, n - 1);
    }
}

/// Adds `field` at `location`, replacing an earlier output there.
fn insert_output(outputs: &mut Vec<InterfaceVariable>, location: u32, field: InterfaceField)
    ensures
        final(outputs)@ == spec_insert_output(old(outputs)@, location, field),
{
    match output_index(outputs, location) {
        Some(i) => {
            outputs.set(i, InterfaceVariable { location, field });
        },
        None => {
            outputs.push(InterfaceVariable { location, field });
        },
    }
}

proof fn lemma_output_scan_stuck(module: ShaderModule, fields: Seq<BoundField>, i: int, n: int)
    requires
        0 <= i < n,
        spec_output_scan(module, fields, i + 1) is Err,
    ensures
        spec_output_scan(module, fields, n) == spec_output_scan(module, fields, i + 1),
    decreases n,
{
    if i + 1 < n {
        lemma_output_scan_stuck(module, fields, i, n - 1);
    }
}

/// Reads the located outputs of a vertex entry point.
pub fn validate_vertex_outputs(module: &ShaderModule, entry: &EntryPoint) -> (outputs: Result<
    Vec<InterfaceVariable>,
    DrawShaderError,
>)
    requires
        spec_module_well_formed(*module),
        crate::shader::spec_entry_well_formed(*entry, module.types@.len()),
    ensures
        match spec_vertex_outputs(*module, *entry) {
            Ok(s) => outputs matches Ok(v) && v@ == s,
            Err(e) => outputs matches Err(x) && x == e,
        },
{
    let result = match entry.result {
        Some(r) => r,
        None => return Err(DrawShaderError::MissingPositionOutput),
    };
    let fields = match bound_interface_fields(module, result.ty, result.binding, InterfaceSubject::VertexOutput) {
        Ok(fields) => fields,
        Err(error) => return Err(error),
    };
    let mut has_position = false;
    let mut outputs: Vec<InterfaceVariable> = Vec::new();
    let mut i: usize = 0;
    while i < fields.len()
        invariant
            i <= fields@.len(),
            spec_module_well_formed(*module),
            entry.result == Some(result),
            spec_bound_fields(*module, result.ty, result.binding, InterfaceSubject::VertexOutput)
                == Ok::<Seq<BoundField>, DrawShaderError>(fields@),
            forall|k: int| 0 <= k < fields@.len() ==> #[trigger] fields@[k].ty < module.types@.len(),
            spec_output_scan(*module, fields@, i as int) == Ok::<
                (bool, Seq<InterfaceVariable>),
                DrawShaderError,
            >((has_position, outputs@)),
        decreases fields@.len() - i,
    {
        let field = fields[i];
        let ty = interface_type(module, field.ty);
        match field.binding {
            IoBinding::BuiltIn(BuiltinValue::Position { .. }) => {
                if ty != Some(InterfaceType::Vec4F32) {
                    proof {
                        lemma_output_scan_stuck(*module, fields@, i as int, fields@.len() as int);
                    }
                    return Err(DrawShaderError::MissingPositionOutput);
                }
                has_position = true;
            },
            IoBinding::Location { location, interpolation, sampling, .. } => {
                match ty {
                    Some(t) => {
                        insert_output(
                            &mut outputs,
                            location,
                            InterfaceField { ty: t, interpolation, sampling },
                        );
                    },
                    None => {
                        proof {
                            lemma_output_scan_stuck(*module, fields@, i as int, fields@.len() as int);
                        }
                        return Err(DrawShaderError::UnsupportedVertexOutputType(location));
                    },
                }
            },
            IoBinding::BuiltIn(builtin) => {
                proof {
                    lemma_output_scan_stuck(*module, fields@, i as int, fields@.len() as int);
                }
                return Err(DrawShaderError::UnsupportedVertexOutputBuiltIn(builtin));
            },
        }
        i = i + 1;
    }
    if !has_position {
        return Err(DrawShaderError::MissingPositionOutput);
    }
    Ok(outputs)
}

} // verus!

verus! {

/// The smallest location of the first `n` outputs that is `max` or more.
pub open spec fn spec_min_location_at_least(outputs: Seq<InterfaceVariable>, max: u32, n: int) -> Option<
    u32,
>
    decreases n,
{
    if n <= 0 {
        None
    } else {
        let location = outputs[n - 1].location;
        match spec_min_location_at_least(outputs, max, n - 1) {
            Some(m) => if location >= max && location < m {
                Some(location)
            } else {
                Some(m)
            },
            None => if location >= max {
                Some(location)
            } else {
                None
            },
        }
    }
}

/// The error the vertex outputs raise against the device's inter-stage
/// limit: too many of them, or a location at or past the limit (the
/// smallest one).
pub open spec fn spec_interstage_error(outputs: Seq<InterfaceVariable>, max: u32) -> Option<
    DrawShaderError,
> {
    if outputs.len() > max {
        Some(DrawShaderError::TooManyInterStageVariables { count: outputs.len() as usize, max })
    } else {
        match spec_min_location_at_least(outputs, max, outputs.len() as int) {
            Some(location) => Some(DrawShaderError::InterStageLocationExceedsLimit { location, max }),
            None => None,
        }
    }
}

/// Checks the vertex outputs against the device's inter-stage limit.
pub fn validate_interstage_limits(outputs: &Vec<InterfaceVariable>, max: u32) -> (checked: Result<
    (),
    DrawShaderError,
>)
    ensures
        match spec_interstage_error(outputs@, max) {
            Some(e) => checked matches Err(x) && x == e,
            None => checked is Ok,
        },
{
    if outputs.len() > max as usize {
        return Err(DrawShaderError::TooManyInterStageVariables { count: outputs.len(), max });
    }
    let mut smallest: Option<u32> = None;
    let mut i: usize = 0;
    while i < outputs.len()
        invariant
            i <= outputs@.len(),
            smallest == spec_min_location_at_least(outputs@, max, i as int),
        decreases outputs@.len() - i,
    {
        let location = outputs[i].location;
        smallest = match smallest {
            Some(m) => if location >= max && location < m {
                Some(location)
            } else {
                Some(m)
            },
            None => if location >= max {
                Some(location)
            } else {
                None
            },
        };
        i = i + 1;
    }
    match smallest {
        Some(location) => Err(DrawShaderError::InterStageLocationExceedsLimit { location, max }),
        None => Ok(()),
    }
}

/// The error a fragment input field raises against the vertex outputs, if
/// any; built-in inputs are not checked.
pub open spec fn spec_input_field_error(
    module: ShaderModule,
    field: BoundField,
    outputs: Seq<InterfaceVariable>,
) -> Option<DrawShaderError> {
    match field.binding {
        IoBinding::BuiltIn(_) => None,
        IoBinding::Location { location, interpolation, sampling, .. } => match spec_interface_type(
            module.types@[field.ty as int],
        ) {
            None => Some(DrawShaderError::UnsupportedFragmentInputType(location)),
            Some(t) => match spec_find_output(outputs, location) {
                None => Some(DrawShaderError::UnmatchedFragmentInput(location)),
                Some(v) => if t != v.ty {
                    Some(
                        DrawShaderError::FragmentInputTypeMismatch {
                            location,
                            fragment: t,
                            vertex: v.ty,
                        },
                    )
                } else if interpolation != v.interpolation || sampling != v.sampling {
                    Some(DrawShaderError::InterpolationMismatch(location))
                } else {
                    None
                },
            },
        },
    }
}

/// The first error among the first `n` fields of a fragment input.
pub open spec fn spec_input_fields_error(
    module: ShaderModule,
    fields: Seq<BoundField>,
    outputs: Seq<InterfaceVariable>,
    n: int,
) -> Option<DrawShaderError>
    decreases n,
{
    if n <= 0 {
        None
    } else {
        match spec_input_fields_error(module, fields, outputs, n - 1) {
            Some(e) => Some(e),
            None => spec_input_field_error(module, fields[n - 1], outputs),
        }
    }
}

/// The error a fragment argument raises, if any.
pub open spec fn spec_argument_error(
    module: ShaderModule,
    argument: EntryArgument,
    outputs: Seq<InterfaceVariable>,
) -> Option<DrawShaderError> {
    match spec_bound_fields(module, argument.ty, argument.binding, InterfaceSubject::FragmentInput) {
        Err(e) => Some(e),
        Ok(fields) => spec_input_fields_error(module, fields, outputs, fields.len() as int),
    }
}

/// The first error among the first `n` fragment arguments.
pub open spec fn spec_arguments_error(
    module: ShaderModule,
    arguments: Seq<EntryArgument>,
    outputs: Seq<InterfaceVariable>,
    n: int,
) -> Option<DrawShaderError>
    decreases n,
{
    if n <= 0 {
        None
    } else {
        match spec_arguments_error(module, arguments, outputs, n - 1) {
            Some(e) => Some(e),
            None => spec_argument_error(module, arguments[n - 1], outputs),
        }
    }
}

proof fn lemma_input_fields_first(
    module: ShaderModule,
    fields: Seq<BoundField>,
    outputs: Seq<InterfaceVariable>,
    i: int,
    n: int,
)
    requires
        0 <= i < n,
        spec_input_fields_error(module, fields, outputs, i) is None,
        spec_input_field_error(module, fields[i], outputs) is Some,
    ensures
        spec_input_fields_error(module, fields, outputs, n) == spec_input_field_error(
            module,
            fields[i],
            outputs,
        ),
    decreases n,
{
    if i < n - 1 {
        lemma_input_fields_first(module, fields, outputs, i, n - 1);
    }
}

proof fn lemma_arguments_first(
    module: ShaderModule,
    arguments: Seq<EntryArgument>,
    outputs: Seq<InterfaceVariable>,
    i: int,
    n: int,
)
    requires
        0 <= i < n,
        spec_arguments_error(module, arguments, outputs, i) is None,
        spec_argument_error(module, arguments[i], outputs) is Some,
    ensures
        spec_arguments_error(module, arguments, outputs, n) == spec_argument_error(
            module,
            arguments[i],
            outputs,
        ),
    decreases n,
{
    if i < n - 1 {
        lemma_arguments_first(module, arguments, outputs, i, n - 1);
    }
}

fn check_input_field(module: &ShaderModule, field: BoundField, outputs: &Vec<InterfaceVariable>) -> (checked:
    Result<(), DrawShaderError>)
    requires
        field.ty < module.types@.len(),
    ensures
        match spec_input_field_error(*module, field, outputs@) {
            Some(e) => checked matches Err(x) && x == e,
            None => checked is Ok,
        },
{
    match field.binding {
        IoBinding::BuiltIn(_) => Ok(()),
        IoBinding::Location { location, interpolation, sampling, .. } => {
            let t = match interface_type(module, field.ty) {
                Some(t) => t,
                None => return Err(DrawShaderError::UnsupportedFragmentInputType(location)),
            };
            let v = match output_index(outputs, location) {
                Some(index) => outputs[index].field,
                None => return Err(DrawShaderError::UnmatchedFragmentInput(location)),
            };
            if t != v.ty {
                return Err(
                    DrawShaderError::FragmentInputTypeMismatch { location, fragment: t, vertex: v.ty },
                );
            }
            if interpolation != v.interpolation || sampling != v.sampling {
                return Err(DrawShaderError::InterpolationMismatch(location));
            }
            Ok(())
        },
    }
}

/// Checks that every located fragment input matches a vertex output in type
/// and interpolation.
pub fn validate_fragment_inputs(
    module: &ShaderModule,
    entry: &EntryPoint,
    outputs: &Vec<InterfaceVariable>,
) -> (checked: Result<(), DrawShaderError>)
    requires
        spec_module_well_formed(*module),
        crate::shader::spec_entry_well_formed(*entry, module.types@.len()),
    ensures
        match spec_arguments_error(
            *module,
            entry.arguments@,
            outputs@,
            entry.arguments@.len() as int,
        ) {
            Some(e) => checked matches Err(x) && x == e,
            None => checked is Ok,
        },
{
    let mut a: usize = 0;
    while a < entry.arguments.len()
        invariant
            a <= entry.arguments@.len(),
            spec_module_well_formed(*module),
            crate::shader::spec_entry_well_formed(*entry, module.types@.len()),
            spec_arguments_error(*module, entry.arguments@, outputs@, a as int) is None,
        decreases entry.arguments@.len() - a,
    {
        let argument = &entry.arguments[a];
        let fields = match bound_interface_fields(
            module,
            argument.ty,
            argument.binding,
            InterfaceSubject::FragmentInput,
        ) {
            Ok(fields) => fields,
            Err(error) => {
                proof {
                    lemma_arguments_first(*module, entry.arguments@, outputs@, a as int, entry.arguments@.len() as int);
                }
                return Err(error);
            },
        };
        let mut f: usize = 0;
        while f < fields.len()
            invariant
                f <= fields@.len(),
                a < entry.arguments@.len(),
                *argument == entry.arguments@[a as int],
                spec_bound_fields(*module, argument.ty, argument.binding, InterfaceSubject::FragmentInput)
                    == Ok::<Seq<BoundField>, DrawShaderError>(fields@),
                forall|k: int| 0 <= k < fields@.len() ==> #[trigger] fields@[k].ty < module.types@.len(),
                spec_arguments_error(*module, entry.arguments@, outputs@, a as int) is None,
                spec_input_fields_error(*module, fields@, outputs@, f as int) is None,
            decreases fields@.len() - f,
        {
            match check_input_field(module, fields[f], outputs) {
                Ok(()) => {},
                Err(error) => {
                    proof {
                        lemma_input_fields_first(*module, fields@, outputs@, f as int, fields@.len() as int);
                        lemma_arguments_first(*module, entry.arguments@, outputs@, a as int, entry.arguments@.len() as int);
                    }
                    return Err(error);
                },
            }
            f = f + 1;
        }
        a = a + 1;
    }
    Ok(())
}

/// The error a fragment entry point's output raises, if any: it must be
/// exactly one `vec4<f32>` at location 0 without a blend source.
pub open spec fn spec_fragment_output_error(module: ShaderModule, entry: EntryPoint) -> Option<
    DrawShaderError,
> {
    match entry.result {
        None => Some(DrawShaderError::InvalidFragmentOutput),
        Some(r) => match spec_bound_fields(module, r.ty, r.binding, InterfaceSubject::FragmentOutput) {
            Err(e) => Some(e),
            Ok(fields) => if fields.len() != 1 {
                Some(DrawShaderError::InvalidFragmentOutput)
            } else if !(fields[0].binding matches IoBinding::Location { location: 0, blend_src: None, .. })
                || spec_interface_type(module.types@[fields[0].ty as int]) != Some(
                InterfaceType::Vec4F32,
            ) {
                Some(DrawShaderError::InvalidFragmentOutput)
            } else {
                None
            },
        },
    }
}

/// Checks that the fragment entry point outputs exactly one `vec4<f32>`
/// at location 0.
pub fn validate_fragment_output(module: &ShaderModule, entry: &EntryPoint) -> (checked: Result<
    (),
    DrawShaderError,
>)
    requires
        spec_module_well_formed(*module),
        crate::shader::spec_entry_well_formed(*entry, module.types@.len()),
    ensures
        match spec_fragment_output_error(*module, *entry) {
            Some(e) => checked matches Err(x) && x == e,
            None => checked is Ok,
        },
{
    let result = match entry.result {
        Some(r) => r,
        None => return Err(DrawShaderError::InvalidFragmentOutput),
    };
    let fields = match bound_interface_fields(module, result.ty, result.binding, InterfaceSubject::FragmentOutput) {
        Ok(fields) => fields,
        Err(error) => return Err(error),
    };
    if fields.len() != 1 {
        return Err(DrawShaderError::InvalidFragmentOutput);
    }
    let is_color_zero = match fields[0].binding {
        IoBinding::Location { location, blend_src, .. } => location == 0 && blend_src.is_none(),
        _ => false,
    };
    if !is_color_zero || interface_type(module, fields[0].ty) != Some(InterfaceType::Vec4F32) {
        return Err(DrawShaderError::InvalidFragmentOutput);
    }
    Ok(())
}

} // verus!

verus! {

/// The vertex attribute a located vertex input needs: a `vec2<f32>` or a
/// `vec3<f32>`; built-in inputs need none.
pub open spec fn spec_collect_input(module: ShaderModule, ty: usize, binding: IoBinding) -> Result<
    Seq<(u32, VertexFormat)>,
    DrawShaderError,
> {
    match binding {
        IoBinding::BuiltIn(_) => Ok(Seq::empty()),
        IoBinding::Location { location, .. } => match module.types@[ty as int] {
            ShaderType::Vector { size: VectorWidth::Bi, scalar } => if scalar.kind == ScalarClass::Float
                && scalar.width == 4 {
                Ok(seq![(location, VertexFormat::Float32x2)])
            } else {
                Err(DrawShaderError::UnsupportedVertexInputType(location))
            },
            ShaderType::Vector { size: VectorWidth::Tri, scalar } => if scalar.kind
                == ScalarClass::Float && scalar.width == 4 {
                Ok(seq![(location, VertexFormat::Float32x3)])
            } else {
                Err(DrawShaderError::UnsupportedVertexInputType(location))
            },
            _ => Err(DrawShaderError::UnsupportedVertexInputType(location)),
        },
    }
}

/// The attributes the first `n` members of an input struct need.
pub open spec fn spec_member_inputs(module: ShaderModule, members: Seq<StructField>, n: int) -> Result<
    Seq<(u32, VertexFormat)>,
    DrawShaderError,
>
    decreases n,
{
    if n <= 0 {
        Ok(Seq::empty())
    } else {
        match spec_member_inputs(module, members, n - 1) {
            Err(e) => Err(e),
            Ok(before) => match members[n - 1].binding {
                None => Err(DrawShaderError::UnsupportedVertexInputMember(members[n - 1].name)),
                Some(b) => match spec_collect_input(module, members[n - 1].ty, b) {
                    Err(e) => Err(e),
                    Ok(more) => Ok(before + more),
                },
            },
        }
    }
}

/// The attributes a vertex argument needs: its own when it is bound, else
/// those of the members of its input struct.
pub open spec fn spec_argument_inputs(module: ShaderModule, argument: EntryArgument) -> Result<
    Seq<(u32, VertexFormat)>,
    DrawShaderError,
> {
    match argument.binding {
        Some(b) => spec_collect_input(module, argument.ty, b),
        None => match module.types@[argument.ty as int] {
            ShaderType::Struct { members } => spec_member_inputs(
                module,
                members@,
                members@.len() as int,
            ),
            _ => Err(DrawShaderError::UnsupportedVertexInput(argument.name)),
        },
    }
}

/// The attributes the first `n` vertex arguments need, in order.
pub open spec fn spec_vertex_inputs(module: ShaderModule, arguments: Seq<EntryArgument>, n: int) -> Result<
    Seq<(u32, VertexFormat)>,
    DrawShaderError,
>
    decreases n,
{
    if n <= 0 {
        Ok(Seq::empty())
    } else {
        match spec_vertex_inputs(module, arguments, n - 1) {
            Err(e) => Err(e),
            Ok(before) => match spec_argument_inputs(module, arguments[n - 1]) {
                Err(e) => Err(e),
                Ok(more) => Ok(before + more),
            },
        }
    }
}

fn clone_name(name: &Option<String>) -> (copy: Option<String>)
    ensures
        copy == *name,
{
    match name {
        Some(n) => Some(n.clone()),
        None => None,
    }
}

/// Appends the attribute a bound vertex input needs.
fn collect_bound_vertex_input(
    module: &ShaderModule,
    ty: usize,
    binding: IoBinding,
    attributes: &mut Vec<(u32, VertexFormat)>,
) -> (collected: Result<(), DrawShaderError>)
    requires
        ty < module.types@.len(),
    ensures
        match spec_collect_input(*module, ty, binding) {
            Err(e) => collected matches Err(x) && x == e,
            Ok(more) => collected is Ok && final(attributes)@ == old(attributes)@ + more,
        },
{
    let location = match binding {
        IoBinding::Location { location, .. } => location,
        IoBinding::BuiltIn(_) => {
            proof {
                assert(attributes@ =~= attributes@ + Seq::<(u32, VertexFormat)>::empty());
            }
            return Ok(());
        },
    };
    let format = match &module.types[ty] {
        ShaderType::Vector { size: VectorWidth::Bi, scalar } => {
            if scalar.kind == ScalarClass::Float && scalar.width == 4 {
                VertexFormat::Float32x2
            } else {
                return Err(DrawShaderError::UnsupportedVertexInputType(location));
            }
        },
        ShaderType::Vector { size: VectorWidth::Tri, scalar } => {
            if scalar.kind == ScalarClass::Float && scalar.width == 4 {
                VertexFormat::Float32x3
            } else {
                return Err(DrawShaderError::UnsupportedVertexInputType(location));
            }
        },
        _ => return Err(DrawShaderError::UnsupportedVertexInputType(location)),
    };
    let ghost before = attributes@;
    attributes.push((location, format));
    proof {
        assert(attributes@ =~= before + seq![(location, format)]);
    }
    Ok(())
}

proof fn lemma_member_type_in_range(module: ShaderModule, t: int, m: int)
    requires
        spec_module_well_formed(module),
        0 <= t < module.types@.len(),
        module.types@[t] is Struct,
        0 <= m < module.types@[t]->Struct_members@.len(),
    ensures
        module.types@[t]->Struct_members@[m].ty < module.types@.len(),
{
    let members = module.types@[t]->Struct_members;
    assert(module.types@[t] matches ShaderType::Struct { members: ms } ==> forall|k: int|
        0 <= k < ms@.len() ==> #[trigger] ms@[k].ty < module.types@.len());
    assert(members@[m].ty < module.types@.len());
}

proof fn lemma_member_inputs_stuck(module: ShaderModule, members: Seq<StructField>, i: int, n: int)
    requires
        0 <= i < n,
        spec_member_inputs(module, members, i + 1) is Err,
    ensures
        spec_member_inputs(module, members, n) == spec_member_inputs(module, members, i + 1),
    decreases n,
{
    if i + 1 < n {
        lemma_member_inputs_stuck(module, members, i, n - 1);
    }
}

proof fn lemma_vertex_inputs_stuck(module: ShaderModule, arguments: Seq<EntryArgument>, i: int, n: int)
    requires
        0 <= i < n,
        spec_vertex_inputs(module, arguments, i + 1) is Err,
    ensures
        spec_vertex_inputs(module, arguments, n) == spec_vertex_inputs(module, arguments, i + 1),
    decreases n,
{
    if i + 1 < n {
        lemma_vertex_inputs_stuck(module, arguments, i, n - 1);
    }
}

/// The vertex attributes the vertex entry point's located inputs need, in
/// order.
pub fn required_vertex_attributes(module: &ShaderModule, entry: &EntryPoint) -> (attributes: Result<
    Vec<(u32, VertexFormat)>,
    DrawShaderError,
>)
    requires
        spec_module_well_formed(*module),
        crate::shader::spec_entry_well_formed(*entry, module.types@.len()),
    ensures
        match spec_vertex_inputs(*module, entry.arguments@, entry.arguments@.len() as int) {
            Ok(s) => attributes matches Ok(v) && v@ == s,
            Err(e) => attributes matches Err(x) && x == e,
        },
{
    let mut attributes: Vec<(u32, VertexFormat)> = Vec::new();
    let ghost arguments = entry.arguments@;
    let mut a: usize = 0;
    while a < entry.arguments.len()
        invariant
            a <= arguments.len(),
            arguments == entry.arguments@,
            spec_module_well_formed(*module),
            crate::shader::spec_entry_well_formed(*entry, module.types@.len()),
            spec_vertex_inputs(*module, arguments, a as int) == Ok::<
                Seq<(u32, VertexFormat)>,
                DrawShaderError,
            >(attributes@),
        decreases arguments.len() - a,
    {
        let argument = &entry.arguments[a];
        let ghost before = attributes@;
        if let Some(binding) = argument.binding {
            match collect_bound_vertex_input(module, argument.ty, binding, &mut attributes) {
                Ok(()) => {},
                Err(error) => {
                    proof {
                        lemma_vertex_inputs_stuck(*module, arguments, a as int, arguments.len() as int);
                    }
                    return Err(error);
                },
            }
        } else {
            match &module.types[argument.ty] {
                ShaderType::Struct { members } => {
                    proof {
                        assert(module.types@[argument.ty as int] matches ShaderType::Struct { .. });
                    }
                    let mut m: usize = 0;
                    proof {
                        assert(before =~= before + Seq::<(u32, VertexFormat)>::empty());
                    }
                    while m < members.len()
                        invariant
                            m <= members@.len(),
                            a < arguments.len(),
                            arguments == entry.arguments@,
                            *argument == arguments[a as int],
                            argument.binding is None,
                            module.types@[argument.ty as int] == (ShaderType::Struct { members: *members }),
                            spec_module_well_formed(*module),
                            argument.ty < module.types@.len(),
                            spec_vertex_inputs(*module, arguments, a as int) == Ok::<
                                Seq<(u32, VertexFormat)>,
                                DrawShaderError,
                            >(before),
                            match spec_member_inputs(*module, members@, m as int) {
                                Ok(more) => attributes@ == before + more,
                                Err(_) => false,
                            },
                        decreases members@.len() - m,
                    {
                        let member = &members[m];
                        proof {
                            lemma_member_type_in_range(*module, argument.ty as int, m as int);
                        }
                        let ghost mid = attributes@;
                        match member.binding {
                            None => {
                                proof {
                                    lemma_member_inputs_stuck(*module, members@, m as int, members@.len() as int);
                                    lemma_vertex_inputs_stuck(*module, arguments, a as int, arguments.len() as int);
                                }
                                return Err(DrawShaderError::UnsupportedVertexInputMember(clone_name(&member.name)));
                            },
                            Some(binding) => {
                                match collect_bound_vertex_input(module, member.ty, binding, &mut attributes) {
                                    Ok(()) => {
                                        proof {
                                            let more = spec_member_inputs(*module, members@, m as int)->Ok_0;
                                            let extra = spec_collect_input(*module, member.ty, binding)->Ok_0;
                                            assert(attributes@ =~= before + (more + extra));
                                        }
                                    },
                                    Err(error) => {
                                        proof {
                                            lemma_member_inputs_stuck(*module, members@, m as int, members@.len() as int);
                                            lemma_vertex_inputs_stuck(*module, arguments, a as int, arguments.len() as int);
                                        }
                                        return Err(error);
                                    },
                                }
                            },
                        }
                        m = m + 1;
                    }
                },
                _ => {
                    proof {
                        lemma_vertex_inputs_stuck(*module, arguments, a as int, arguments.len() as int);
                    }
                    return Err(DrawShaderError::UnsupportedVertexInput(clone_name(&argument.name)));
                },
            }
        }
        a = a + 1;
    }
    Ok(attributes)
}

} // verus!

verus! {

/// The format of the first mesh attribute at `location`.
pub open spec fn spec_find_format(mesh: Seq<(u32, VertexFormat)>, location: u32) -> Option<VertexFormat>
    decreases mesh.len(),
{
    if mesh.len() == 0 {
        None
    } else if mesh[0].0 == location {
        Some(mesh[0].1)
    } else {
        spec_find_format(mesh.drop_first(), location)
    }
}

/// The error the first `n` required attributes raise against the mesh's
/// attributes, if any.
pub open spec fn spec_mesh_inputs_error(
    required: Seq<(u32, VertexFormat)>,
    mesh: Seq<(u32, VertexFormat)>,
    n: int,
) -> Option<DrawShaderError>
    decreases n,
{
    if n <= 0 {
        None
    } else {
        match spec_mesh_inputs_error(required, mesh, n - 1) {
            Some(e) => Some(e),
            None => {
                let (location, expected) = required[n - 1];
                match spec_find_format(mesh, location) {
                    None => Some(DrawShaderError::MissingMeshAttribute { location, expected }),
                    Some(actual) => if actual != expected {
                        Some(
                            DrawShaderError::MeshAttributeFormatMismatch {
                                location,
                                actual,
                                expected,
                            },
                        )
                    } else {
                        None
                    },
                }
            },
        }
    }
}

/// The index of the first of the first `n` entry points with the given name
/// and stage.
pub open spec fn spec_entry_index(
    entries: Seq<EntryPoint>,
    name: Seq<char>,
    stage: PipelineStage,
    n: int,
) -> Option<int>
    decreases n,
{
    if n <= 0 {
        None
    } else {
        match spec_entry_index(entries, name, stage, n - 1) {
            Some(i) => Some(i),
            None => if entries[n - 1].name@ == name && entries[n - 1].stage == stage {
                Some(n - 1)
            } else {
                None
            },
        }
    }
}

/// What a draw shader binds, once its interface checks pass against the
/// mesh's attributes and the device's inter-stage limit; or the first
/// error: of its resources, of its entry points `vs_main` and `fs_main`, of
/// the vertex inputs against the mesh, of the vertex outputs, of the
/// inter-stage limit, of the fragment inputs and of the fragment output.
pub open spec fn spec_draw_interface(
    module: ShaderModule,
    mesh: Seq<(u32, VertexFormat)>,
    max_inter_stage_shader_variables: u32,
) -> Result<ShaderResourceLayout, DrawShaderError> {
    let entries = module.entry_points@;
    match spec_resource_layout(module) {
        Err(e) => Err(e),
        Ok(resources) => match spec_entry_index(
            entries,
            "vs_main"@,
            PipelineStage::Vertex,
            entries.len() as int,
        ) {
            None => Err(DrawShaderError::MissingVertexEntryPoint),
            Some(v) => match spec_entry_index(
                entries,
                "fs_main"@,
                PipelineStage::Fragment,
                entries.len() as int,
            ) {
                None => Err(DrawShaderError::MissingFragmentEntryPoint),
                Some(f) => match spec_vertex_inputs(
                    module,
                    entries[v].arguments@,
                    entries[v].arguments@.len() as int,
                ) {
                    Err(e) => Err(e),
                    Ok(required) => match spec_mesh_inputs_error(
                        required,
                        mesh,
                        required.len() as int,
                    ) {
                        Some(e) => Err(e),
                        None => match spec_vertex_outputs(module, entries[v]) {
                            Err(e) => Err(e),
                            Ok(outputs) => match spec_interstage_error(
                                outputs,
                                max_inter_stage_shader_variables,
                            ) {
                                Some(e) => Err(e),
                                None => match spec_arguments_error(
                                    module,
                                    entries[f].arguments@,
                                    outputs,
                                    entries[f].arguments@.len() as int,
                                ) {
                                    Some(e) => Err(e),
                                    None => match spec_fragment_output_error(module, entries[f]) {
                                        Some(e) => Err(e),
                                        None => Ok(resources),
                                    },
                                },
                            },
                        },
                    },
                },
            },
        },
    }
}

fn find_format(mesh: &[(u32, VertexFormat)], location: u32) -> (found: Option<VertexFormat>)
    ensures
        found == spec_find_format(mesh@, location),
{
    let mut i: usize = 0;
    proof {
        assert(mesh@.subrange(0, mesh@.len() as int) =~= mesh@);
    }
    while i < mesh.len()
        invariant
            i <= mesh@.len(),
            spec_find_format(mesh@, location) == spec_find_format(
                mesh@.subrange(i as int, mesh@.len() as int),
                location,
            ),
        decreases mesh@.len() - i,
    {
        let ghost rest = mesh@.subrange(i as int, mesh@.len() as int);
        proof {
            assert(rest.drop_first() =~= mesh@.subrange(i as int + 1, mesh@.len() as int));
        }
        if mesh[i].0 == location {
            return Some(mesh[i].1);
        }
        i = i + 1;
    }
    None
}

proof fn lemma_mesh_inputs_first(
    required: Seq<(u32, VertexFormat)>,
    mesh: Seq<(u32, VertexFormat)>,
    i: int,
    n: int,
)
    requires
        0 <= i < n,
        spec_mesh_inputs_error(required, mesh, i) is None,
        spec_mesh_inputs_error(required, mesh, i + 1) is Some,
    ensures
        spec_mesh_inputs_error(required, mesh, n) == spec_mesh_inputs_error(required, mesh, i + 1),
    decreases n,
{
    if i + 1 < n {
        lemma_mesh_inputs_first(required, mesh, i, n - 1);
    }
}

/// Checks that the mesh has each required attribute in the required format.
fn validate_mesh_inputs(required: &Vec<(u32, VertexFormat)>, mesh: &[(u32, VertexFormat)]) -> (checked:
    Result<(), DrawShaderError>)
    ensures
        match spec_mesh_inputs_error(required@, mesh@, required@.len() as int) {
            Some(e) => checked matches Err(x) && x == e,
            None => checked is Ok,
        },
{
    let mut i: usize = 0;
    while i < required.len()
        invariant
            i <= required@.len(),
            spec_mesh_inputs_error(required@, mesh@, i as int) is None,
        decreases required@.len() - i,
    {
        let (location, expected) = required[i];
        match find_format(mesh, location) {
            None => {
                proof {
                    lemma_mesh_inputs_first(required@, mesh@, i as int, required@.len() as int);
                }
                return Err(DrawShaderError::MissingMeshAttribute { location, expected });
            },
            Some(actual) => {
                if actual != expected {
                    proof {
                        lemma_mesh_inputs_first(required@, mesh@, i as int, required@.len() as int);
                    }
                    return Err(
                        DrawShaderError::MeshAttributeFormatMismatch { location, actual, expected },
                    );
                }
            },
        }
        i = i + 1;
    }
    Ok(())
}

proof fn lemma_entry_index_first(
    entries: Seq<EntryPoint>,
    name: Seq<char>,
    stage: PipelineStage,
    i: int,
    n: int,
)
    requires
        0 <= i < n,
        spec_entry_index(entries, name, stage, i) is None,
        entries[i].name@ == name && entries[i].stage == stage,
    ensures
        spec_entry_index(entries, name, stage, n) == Some(i),
    decreases n,
{
    if i < n - 1 {
        lemma_entry_index_first(entries, name, stage, i, n - 1);
    }
}

/// Finds the first entry point with the given name and stage.
pub fn find_entry_point(module: &ShaderModule, name: &str, stage: PipelineStage) -> (index: Option<usize>)
    ensures
        match index {
            Some(i) => i < module.entry_points@.len() && spec_entry_index(
                module.entry_points@,
                name@,
                stage,
                module.entry_points@.len() as int,
            ) == Some(i as int),
            None => spec_entry_index(
                module.entry_points@,
                name@,
                stage,
                module.entry_points@.len() as int,
            ) is None,
        },
{
    let mut i: usize = 0;
    while i < module.entry_points.len()
        invariant
            i <= module.entry_points@.len(),
            spec_entry_index(module.entry_points@, name@, stage, i as int) is None,
        decreases module.entry_points@.len() - i,
    {
        let entry = &module.entry_points[i];
        if str_equals(entry.name.as_str(), name) && entry.stage == stage {
            proof {
                lemma_entry_index_first(module.entry_points@, name@, stage, i as int, module.entry_points@.len() as int);
            }
            return Some(i);
        }
        i = i + 1;
    }
    None
}

/// Checks a draw shader's interface against the mesh's attributes and the
/// device's inter-stage limit, and reads the resources it binds.
pub fn validate_module_draw_interface(
    module: &ShaderModule,
    mesh_attributes: &[(u32, VertexFormat)],
    max_inter_stage_shader_variables: u32,
) -> (resources: Result<ShaderResourceLayout, DrawShaderError>)
    requires
        spec_module_well_formed(*module),
    ensures
        match spec_draw_interface(*module, mesh_attributes@, max_inter_stage_shader_variables) {
            Ok(r) => resources matches Ok(x) && x == r,
            Err(e) => resources matches Err(x) && x == e,
        },
{
    let resources = match validate_shader_resource_layout(module) {
        Ok(r) => r,
        Err(e) => return Err(e),
    };
    let v = match find_entry_point(module, "vs_main", PipelineStage::Vertex) {
        Some(v) => v,
        None => return Err(DrawShaderError::MissingVertexEntryPoint),
    };
    let f = match find_entry_point(module, "fs_main", PipelineStage::Fragment) {
        Some(f) => f,
        None => return Err(DrawShaderError::MissingFragmentEntryPoint),
    };
    let vertex_entry = &module.entry_points[v];
    let fragment_entry = &module.entry_points[f];
    let required = match required_vertex_attributes(module, vertex_entry) {
        Ok(r) => r,
        Err(e) => return Err(e),
    };
    match validate_mesh_inputs(&required, mesh_attributes) {
        Ok(()) => {},
        Err(e) => return Err(e),
    }
    let outputs = match validate_vertex_outputs(module, vertex_entry) {
        Ok(o) => o,
        Err(e) => return Err(e),
    };
    match validate_interstage_limits(&outputs, max_inter_stage_shader_variables) {
        Ok(()) => {},
        Err(e) => return Err(e),
    }
    match validate_fragment_inputs(module, fragment_entry, &outputs) {
        Ok(()) => {},
        Err(e) => return Err(e),
    }
    match validate_fragment_output(module, fragment_entry) {
        Ok(()) => {},
        Err(e) => return Err(e),
    }
    Ok(resources)
}

} // verus!

verus! {

proof fn lemma_mesh_inputs_prefix(
    required: Seq<(u32, VertexFormat)>,
    mesh: Seq<(u32, VertexFormat)>,
    n: int,
    i: int,
)
    requires
        0 <= i < n,
        spec_mesh_inputs_error(required, mesh, n) is None,
    ensures
        spec_find_format(mesh, required[i].0) == Some(required[i].1),
    decreases n,
{
    if i < n - 1 {
        lemma_mesh_inputs_prefix(required, mesh, n - 1, i);
    }
}

/// An accepted draw shader has a vertex entry point `vs_main` and a
/// fragment entry point `fs_main`, and the mesh gives every vertex input
/// the shader reads an attribute at its location in the format it reads.
pub proof fn law_accepted_draw_shader_matches_mesh(
    module: ShaderModule,
    mesh: Seq<(u32, VertexFormat)>,
    max_inter_stage_shader_variables: u32,
)
    requires
        spec_draw_interface(module, mesh, max_inter_stage_shader_variables) is Ok,
    ensures
        ({
            let entries = module.entry_points@;
            let v = spec_entry_index(entries, "vs_main"@, PipelineStage::Vertex, entries.len() as int);
            let f = spec_entry_index(entries, "fs_main"@, PipelineStage::Fragment, entries.len() as int);
            &&& v is Some && f is Some
            &&& spec_vertex_inputs(module, entries[v.unwrap()].arguments@, entries[v.unwrap()].arguments@.len() as int) is Ok
            &&& forall|i: int|
                0 <= i < spec_vertex_inputs(module, entries[v.unwrap()].arguments@, entries[v.unwrap()].arguments@.len() as int)->Ok_0.len()
                    ==> spec_find_format(mesh, #[trigger] spec_vertex_inputs(module, entries[v.unwrap()].arguments@, entries[v.unwrap()].arguments@.len() as int)->Ok_0[i].0)
                    == Some(spec_vertex_inputs(module, entries[v.unwrap()].arguments@, entries[v.unwrap()].arguments@.len() as int)->Ok_0[i].1)
        }),
{
    let entries = module.entry_points@;
    let v = spec_entry_index(entries, "vs_main"@, PipelineStage::Vertex, entries.len() as int).unwrap();
    let required = spec_vertex_inputs(module, entries[v].arguments@, entries[v].arguments@.len() as int)->Ok_0;
    assert forall|i: int| 0 <= i < required.len() implies spec_find_format(mesh, #[trigger] required[i].0)
        == Some(required[i].1) by {
        lemma_mesh_inputs_prefix(required, mesh, required.len() as int, i);
    }
}

} // verus!
