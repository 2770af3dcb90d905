use belfast::draw_shader::{
    validate_module_draw_interface, DrawShaderError, InterfaceSubject, InterfaceType,
};
use belfast::wgsl::{
    module_well_formed, parse_and_validate_draw_shader, validate_draw_interface, validate_shader_code,
};
use belfast::shader::{
    BuiltinValue, EntryArgument, EntryPoint, FunctionResult, InterpolationMode, IoBinding,
    ResourceBinding, SamplingMode, ScalarClass, ScalarType,
    ShaderModule, PipelineStage, ShaderSourceError, ShaderType, StructField, VectorWidth, WgslError,
};
use belfast::{Mesh, ShaderResourceLayout, VertexAttributeDescriptor, VertexBufferLayoutDescriptor, VertexFormat, VertexStepMode};

type Field = (Option<&'static str>, usize, Option<IoBinding>);

struct Builder {
    module: ShaderModule,
}

impl Builder {
    fn new() -> Self {
        Builder {
            module: ShaderModule { types: vec![], global_variables: vec![], entry_points: vec![] },
        }
    }

    fn ty(&mut self, ty: ShaderType) -> usize {
        self.module.types.push(ty);
        self.module.types.len() - 1
    }

    fn vec(&mut self, size: VectorWidth) -> usize {
        self.ty(ShaderType::Vector { size, scalar: ScalarType { kind: ScalarClass::Float, width: 4 } })
    }

    fn scalar(&mut self, kind: ScalarClass) -> usize {
        self.ty(ShaderType::Scalar(ScalarType { kind, width: 4 }))
    }

    fn record(&mut self, members: Vec<Field>) -> usize {
        let members = members
            .into_iter()
            .map(|(name, ty, binding)| StructField { name: name.map(String::from), ty, binding })
            .collect();
        self.ty(ShaderType::Struct { members })
    }

    fn entry(&mut self, name: &str, stage: PipelineStage, arguments: Vec<Field>, result: Option<(usize, Option<IoBinding>)>) {
        let arguments = arguments
            .into_iter()
            .map(|(name, ty, binding)| EntryArgument { name: name.map(String::from), ty, binding })
            .collect();
        self.module.entry_points.push(EntryPoint {
            name: name.to_string(),
            stage,
            arguments,
            result: result.map(|(ty, binding)| FunctionResult { ty, binding }),
        });
    }

}

fn smooth(location: u32) -> Option<IoBinding> {
    Some(IoBinding::Location {
        location,
        interpolation: Some(InterpolationMode::Perspective),
        sampling: Some(SamplingMode::Center),
        blend_src: None,
    })
}

fn attribute(location: u32) -> Option<IoBinding> {
    Some(IoBinding::Location { location, interpolation: None, sampling: None, blend_src: None })
}

fn position() -> Option<IoBinding> {
    Some(IoBinding::BuiltIn(BuiltinValue::Position { invariant: false }))
}

/// A vertex stage that outputs only the position, and a fragment stage that
/// outputs one color.
fn plain_stages(builder: &mut Builder, vertex_arguments: Vec<Field>) {
    let vec4 = builder.vec(VectorWidth::Quad);
    builder.entry("vs_main", PipelineStage::Vertex, vertex_arguments, Some((vec4, position())));
    builder.entry("fs_main", PipelineStage::Fragment, vec![], Some((vec4, attribute(0))));
}

const COLORED_TRIANGLE_SHADER: &str = r#"
struct VertexOutput {
    @builtin(position) position: vec4f,
    @location(0) color: vec3f,
}

@vertex
fn vs_main(
    @location(0) position: vec2f,
    @location(1) color: vec3f,
) -> VertexOutput {
    var output: VertexOutput;
    output.position = vec4f(position, 0.0, 1.0);
    output.color = color;
    return output;
}

@fragment
fn fs_main(input: VertexOutput) -> @location(0) vec4f {
    return vec4f(input.color, 1.0);
}
"#;

const STRUCT_INPUT_SHADER: &str = r#"
struct VertexInput {
    @builtin(vertex_index) vertex_index: u32,
    @location(0) position: vec2f,
    @location(1) color: vec3f,
}

struct VertexOutput {
    @builtin(position) position: vec4f,
    @location(0) color: vec3f,
}

@vertex
fn vs_main(input: VertexInput) -> VertexOutput {
    var output: VertexOutput;
    output.position = vec4f(input.position, 0.0, 1.0);
    output.color = input.color;
    return output;
}

@fragment
fn fs_main(input: VertexOutput) -> @location(0) vec4f {
    return vec4f(input.color, 1.0);
}
"#;

const TEXTURE_SHADER: &str = r#"
@group(0) @binding(0) var image: texture_2d<f32>;
@group(0) @binding(1) var image_sampler: sampler;

@vertex
fn vs_main(@location(0) position: vec2f) -> @builtin(position) vec4f {
    return vec4f(position, 0.0, 1.0);
}

@fragment
fn fs_main() -> @location(0) vec4f {
    return textureSample(image, image_sampler, vec2f(0.5));
}
"#;

const STORAGE_TEXTURE_SHADER: &str = r#"
@group(0) @binding(0) var image: texture_storage_2d<rgba8unorm, write>;

@vertex
fn vs_main() -> @builtin(position) vec4f {
    return vec4f(0.0, 0.0, 0.0, 1.0);
}

@fragment
fn fs_main() -> @location(0) vec4f {
    return vec4f(1.0);
}
"#;

const COMPARISON_SAMPLER_SHADER: &str = r#"
@group(0) @binding(0) var image_sampler: sampler_comparison;

@vertex
fn vs_main() -> @builtin(position) vec4f {
    return vec4f(0.0, 0.0, 0.0, 1.0);
}

@fragment
fn fs_main() -> @location(0) vec4f {
    return vec4f(1.0);
}
"#;

const TEXTURE_ONLY_SHADER: &str = r#"
@group(0) @binding(0) var image: texture_2d<f32>;

@vertex
fn vs_main() -> @builtin(position) vec4f {
    return vec4f(0.0, 0.0, 0.0, 1.0);
}

@fragment
fn fs_main() -> @location(0) vec4f {
    return textureLoad(image, vec2i(0), 0);
}
"#;

const TRIANGLE_ATTRIBUTES: &[(u32, VertexFormat)] = &[(0, VertexFormat::Float32x2), (1, VertexFormat::Float32x3)];

fn interface_error(
    checked: Result<ShaderResourceLayout, ShaderSourceError<DrawShaderError>>,
) -> DrawShaderError {
    match checked {
        Err(ShaderSourceError::Interface(error)) => error,
        other => panic!("expected an interface error, got {other:?}"),
    }
}

#[test]
fn accepts_valid_colored_triangle_shader() {
    assert!(matches!(
        validate_draw_interface(COLORED_TRIANGLE_SHADER, TRIANGLE_ATTRIBUTES),
        Ok(ShaderResourceLayout::NoResources)
    ));
}

#[test]
fn accepts_supported_texture_and_sampler_pair() {
    let layout = parse_and_validate_draw_shader(TEXTURE_SHADER, TRIANGLE_ATTRIBUTES, 16).unwrap();
    assert_eq!(
        layout,
        ShaderResourceLayout::TextureSampler { group: 0, texture_binding: 0, sampler_binding: 1 }
    );
}

#[test]
fn rejects_storage_texture_and_comparison_sampler() {
    assert!(matches!(
        interface_error(parse_and_validate_draw_shader(STORAGE_TEXTURE_SHADER, &[], 16)),
        DrawShaderError::UnsupportedResource(ResourceBinding { group: 0, binding: 0 })
    ));
    assert!(matches!(
        interface_error(parse_and_validate_draw_shader(COMPARISON_SAMPLER_SHADER, &[], 16)),
        DrawShaderError::ComparisonSampler(ResourceBinding { group: 0, binding: 0 })
    ));
}

#[test]
fn rejects_incomplete_texture_sampler_pair() {
    assert!(matches!(
        interface_error(parse_and_validate_draw_shader(TEXTURE_ONLY_SHADER, &[], 16)),
        DrawShaderError::TextureWithoutSampler
    ));
}

fn mesh_with_position_format(format: VertexFormat) -> Mesh {
    Mesh::new(3)
        .unwrap()
        .add_vertex_buffer_layout(VertexBufferLayoutDescriptor {
            array_stride: format.size(),
            attributes: vec![VertexAttributeDescriptor { shader_location: 0, format, offset: 0 }],
            slot: Some(0),
            step_mode: Some(VertexStepMode::Vertex),
        })
        .unwrap()
}

#[test]
fn replacement_mesh_layout_must_match_pipeline_signature() {
    let pipeline_mesh = mesh_with_position_format(VertexFormat::Float32x2);
    let compatible_mesh = mesh_with_position_format(VertexFormat::Float32x2);
    let incompatible_mesh = mesh_with_position_format(VertexFormat::Float32x3);
    let pipeline_layout = pipeline_mesh.layout_signature();
    assert!(pipeline_layout.same_layout(&compatible_mesh.layout_signature()));
    assert!(!pipeline_layout.same_layout(&incompatible_mesh.layout_signature()));
}

#[test]
fn rejects_malformed_wgsl() {
    let error = validate_shader_code("@vertex fn vs_main(").unwrap_err();
    assert!(matches!(error, WgslError::Parse(_)), "{error:?}");
}

#[test]
fn rejects_semantically_invalid_wgsl() {
    let error = validate_shader_code("@vertex fn vs_main() {}").unwrap_err();
    assert!(matches!(error, WgslError::Validation(_)), "{error:?}");
}

#[test]
fn rejects_missing_vertex_entry_point() {
    let shader = r#"
@fragment
fn fs_main() -> @location(0) vec4f {
    return vec4f(1.0);
}
"#;
    assert!(matches!(
        interface_error(validate_draw_interface(shader, &[])),
        DrawShaderError::MissingVertexEntryPoint
    ));
}

#[test]
fn rejects_missing_fragment_entry_point() {
    let shader = r#"
@vertex
fn vs_main() -> @builtin(position) vec4f {
    return vec4f(0.0, 0.0, 0.0, 1.0);
}
"#;
    assert!(matches!(
        interface_error(validate_draw_interface(shader, &[])),
        DrawShaderError::MissingFragmentEntryPoint
    ));
}

#[test]
fn rejects_missing_mesh_location() {
    assert!(matches!(
        interface_error(validate_draw_interface(COLORED_TRIANGLE_SHADER, &[(0, VertexFormat::Float32x2)])),
        DrawShaderError::MissingMeshAttribute { location: 1, expected: VertexFormat::Float32x3 }
    ));
}

#[test]
fn rejects_mismatched_mesh_format() {
    assert!(matches!(
        interface_error(validate_draw_interface(
            COLORED_TRIANGLE_SHADER,
            &[(0, VertexFormat::Float32x3), (1, VertexFormat::Float32x3)],
        )),
        DrawShaderError::MeshAttributeFormatMismatch {
            location: 0,
            actual: VertexFormat::Float32x3,
            expected: VertexFormat::Float32x2
        }
    ));
}

#[test]
fn accepts_struct_inputs_builtins_and_extra_mesh_attributes() {
    let attributes = [
        (0, VertexFormat::Float32x2),
        (1, VertexFormat::Float32x3),
        (2, VertexFormat::Float32x2),
    ];
    assert!(matches!(
        validate_draw_interface(STRUCT_INPUT_SHADER, &attributes),
        Ok(ShaderResourceLayout::NoResources)
    ));
}

#[test]
fn rejects_unsupported_vertex_input_type() {
    let shader = r#"
@vertex
fn vs_main(@location(0) position: vec4f) -> @builtin(position) vec4f {
    return position;
}

@fragment
fn fs_main() -> @location(0) vec4f {
    return vec4f(1.0);
}
"#;
    assert!(matches!(
        interface_error(validate_draw_interface(shader, &[(0, VertexFormat::Float32x2)])),
        DrawShaderError::UnsupportedVertexInputType(0)
    ));
}

#[test]
fn rejects_unsupported_uniform_resource() {
    let shader = r#"
@group(0) @binding(2) var<uniform> tint: vec4f;

@vertex
fn vs_main(@location(0) position: vec2f) -> @builtin(position) vec4f {
    return vec4f(position, 0.0, 1.0);
}

@fragment
fn fs_main() -> @location(0) vec4f {
    return tint;
}
"#;
    assert!(matches!(
        interface_error(validate_draw_interface(shader, &[(0, VertexFormat::Float32x2)])),
        DrawShaderError::UnsupportedResource(ResourceBinding { group: 0, binding: 2 })
    ));
}

#[test]
fn rejects_mismatched_vertex_fragment_interface() {
    let shader = r#"
struct VertexOutput {
    @builtin(position) position: vec4f,
    @location(0) color: vec3f,
}

@vertex
fn vs_main(@location(0) position: vec2f) -> VertexOutput {
    return VertexOutput(vec4f(position, 0.0, 1.0), vec3f(1.0));
}

@fragment
fn fs_main(@location(0) color: vec2f) -> @location(0) vec4f {
    return vec4f(color, 0.0, 1.0);
}
"#;
    assert!(matches!(
        interface_error(validate_draw_interface(shader, &[(0, VertexFormat::Float32x2)])),
        DrawShaderError::FragmentInputTypeMismatch {
            location: 0,
            fragment: InterfaceType::Vec2F32,
            vertex: InterfaceType::Vec3F32
        }
    ));
}

#[test]
fn rejects_mismatched_vertex_fragment_interpolation() {
    let shader = r#"
struct VertexOutput {
    @builtin(position) position: vec4f,
    @location(0) @interpolate(flat) color: vec3f,
}

@vertex
fn vs_main(@location(0) position: vec2f) -> VertexOutput {
    return VertexOutput(vec4f(position, 0.0, 1.0), vec3f(1.0));
}

@fragment
fn fs_main(@location(0) color: vec3f) -> @location(0) vec4f {
    return vec4f(color, 1.0);
}
"#;
    assert!(matches!(
        interface_error(validate_draw_interface(shader, &[(0, VertexFormat::Float32x2)])),
        DrawShaderError::InterpolationMismatch(0)
    ));
}

#[test]
fn rejects_interstage_location_beyond_device_limit() {
    let shader = r#"
struct VertexOutput {
    @builtin(position) position: vec4f,
    @location(4) color: vec3f,
}

@vertex
fn vs_main() -> VertexOutput {
    return VertexOutput(vec4f(0.0, 0.0, 0.0, 1.0), vec3f(1.0));
}

@fragment
fn fs_main(@location(4) color: vec3f) -> @location(0) vec4f {
    return vec4f(color, 1.0);
}
"#;
    assert!(matches!(
        interface_error(parse_and_validate_draw_shader(shader, &[], 4)),
        DrawShaderError::InterStageLocationExceedsLimit { location: 4, max: 4 }
    ));
}

#[test]
fn rejects_vertex_shader_without_position_output() {
    let shader = r#"
@vertex
fn vs_main(@location(0) position: vec2f) -> @location(0) vec2f {
    return position;
}

@fragment
fn fs_main(@location(0) position: vec2f) -> @location(0) vec4f {
    return vec4f(position, 0.0, 1.0);
}
"#;
    assert!(matches!(
        interface_error(validate_draw_interface(shader, &[(0, VertexFormat::Float32x2)])),
        DrawShaderError::MissingPositionOutput
    ));
}

#[test]
fn rejects_unsupported_fragment_outputs() {
    let wrong_color_type = r#"
@vertex
fn vs_main() -> @builtin(position) vec4f {
    return vec4f(0.0);
}

@fragment
fn fs_main() -> @location(0) vec3f {
    return vec3f(1.0);
}
"#;
    assert!(matches!(
        interface_error(validate_draw_interface(wrong_color_type, &[])),
        DrawShaderError::InvalidFragmentOutput
    ));

    let depth_output = r#"
struct FragmentOutput {
    @location(0) color: vec4f,
    @builtin(frag_depth) depth: f32,
}

@vertex
fn vs_main() -> @builtin(position) vec4f {
    return vec4f(0.0);
}

@fragment
fn fs_main() -> FragmentOutput {
    return FragmentOutput(vec4f(1.0), 0.5);
}
"#;
    assert!(matches!(
        interface_error(validate_draw_interface(depth_output, &[])),
        DrawShaderError::InvalidFragmentOutput
    ));
}

#[test]
fn interface_errors_come_before_naga_validation() {
    // naga's validator refuses this source too, but the missing fragment
    // entry point is reported first.
    let vertex_only = "@vertex fn vs_main() {}";
    assert!(matches!(validate_shader_code(vertex_only), Err(WgslError::Validation(_))));
    assert!(matches!(
        interface_error(validate_draw_interface(vertex_only, &[])),
        DrawShaderError::MissingFragmentEntryPoint
    ));
    // The interface passes; a second vertex entry point without a position
    // output is left to naga's validator.
    let shader = r#"
@vertex
fn vs_main() -> @builtin(position) vec4f {
    return vec4f(0.0, 0.0, 0.0, 1.0);
}

@fragment
fn fs_main() -> @location(0) vec4f {
    return vec4f(1.0);
}

@vertex
fn extra() {}
"#;
    assert!(matches!(
        validate_draw_interface(shader, &[]),
        Err(ShaderSourceError::Wgsl(WgslError::Validation(_)))
    ));
    assert!(matches!(
        validate_draw_interface("fn", &[]),
        Err(ShaderSourceError::Wgsl(WgslError::Parse(_)))
    ));
}

#[test]
fn hand_built_module_matches_the_parsed_triangle() {
    let mut b = Builder::new();
    let vec2 = b.vec(VectorWidth::Bi);
    let vec3 = b.vec(VectorWidth::Tri);
    let vec4 = b.vec(VectorWidth::Quad);
    let output = b.record(vec![(Some("position"), vec4, position()), (Some("color"), vec3, smooth(0))]);
    b.entry(
        "vs_main",
        PipelineStage::Vertex,
        vec![(Some("position"), vec2, attribute(0)), (Some("color"), vec3, attribute(1))],
        Some((output, None)),
    );
    b.entry("fs_main", PipelineStage::Fragment, vec![(Some("input"), output, None)], Some((vec4, attribute(0))));
    assert!(matches!(
        validate_module_draw_interface(&b.module, TRIANGLE_ATTRIBUTES, 16),
        Ok(ShaderResourceLayout::NoResources)
    ));
    assert!(matches!(
        validate_module_draw_interface(&b.module, &[(0, VertexFormat::Float32x2)], 16),
        Err(DrawShaderError::MissingMeshAttribute { location: 1, expected: VertexFormat::Float32x3 })
    ));
}

#[test]
fn reports_unbound_interface_values_and_builtins() {
    let mut b = Builder::new();
    let vec4 = b.vec(VectorWidth::Quad);
    b.entry("vs_main", PipelineStage::Vertex, vec![], Some((vec4, None)));
    b.entry("fs_main", PipelineStage::Fragment, vec![], Some((vec4, attribute(0))));
    assert!(matches!(
        validate_module_draw_interface(&b.module, &[], 16),
        Err(DrawShaderError::MissingInterfaceBinding(InterfaceSubject::VertexOutput))
    ));

    let mut b = Builder::new();
    let u32_ty = b.scalar(ScalarClass::Uint);
    let vec4 = b.vec(VectorWidth::Quad);
    let output = b.record(vec![
        (Some("position"), vec4, position()),
        (Some("index"), u32_ty, Some(IoBinding::BuiltIn(BuiltinValue::VertexIndex))),
    ]);
    b.entry("vs_main", PipelineStage::Vertex, vec![], Some((output, None)));
    b.entry("fs_main", PipelineStage::Fragment, vec![], Some((vec4, attribute(0))));
    assert!(matches!(
        validate_module_draw_interface(&b.module, &[], 16),
        Err(DrawShaderError::UnsupportedVertexOutputBuiltIn(BuiltinValue::VertexIndex))
    ));
}

#[test]
fn counts_inter_stage_variables_against_the_limit() {
    let mut b = Builder::new();
    let vec3 = b.vec(VectorWidth::Tri);
    let vec4 = b.vec(VectorWidth::Quad);
    let output = b.record(vec![
        (Some("position"), vec4, position()),
        (Some("a"), vec3, smooth(0)),
        (Some("b"), vec3, smooth(1)),
    ]);
    b.entry("vs_main", PipelineStage::Vertex, vec![], Some((output, None)));
    b.entry("fs_main", PipelineStage::Fragment, vec![], Some((vec4, attribute(0))));
    assert!(matches!(
        validate_module_draw_interface(&b.module, &[], 1),
        Err(DrawShaderError::TooManyInterStageVariables { count: 2, max: 1 })
    ));
    assert!(validate_module_draw_interface(&b.module, &[], 2).is_ok());
}

#[test]
fn vertex_input_without_binding_is_named() {
    let mut b = Builder::new();
    let vec2 = b.vec(VectorWidth::Bi);
    plain_stages(&mut b, vec![(Some("position"), vec2, None)]);
    assert!(matches!(
        validate_module_draw_interface(&b.module, &[], 16),
        Err(DrawShaderError::UnsupportedVertexInput(Some(name))) if name == "position"
    ));
}

#[test]
fn module_well_formedness_checks_every_type_index() {
    let mut b = Builder::new();
    let vec4 = b.vec(VectorWidth::Quad);
    b.entry("vs_main", PipelineStage::Vertex, vec![], Some((vec4, position())));
    assert!(module_well_formed(&b.module));
    b.entry("fs_main", PipelineStage::Fragment, vec![], Some((vec4 + 1, attribute(0))));
    assert!(!module_well_formed(&b.module));

    let mut b = Builder::new();
    let record = b.record(vec![(Some("dangling"), 7, attribute(0))]);
    b.entry("vs_main", PipelineStage::Vertex, vec![(None, record, None)], None);
    assert!(!module_well_formed(&b.module));
}
