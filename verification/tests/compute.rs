use belfast::bind_group::{
    validate_bind_group_devices, BindGroupDeviceError, validate_compute_buffer_bindings, validate_texture_bindings, validate_uniform_bindings,
    BindGroupError, BindGroupOptionsInput, BufferBindingSpec, UniformBindGroupOptionsInput,
};
use belfast::compute::{
    parse_compute_layout, ComputeBindingLayout, ComputeBufferType, ComputeLayoutEntryInput,
    ComputeLayoutError,
};
use belfast::compute_shader::{collect_compute_shader_bindings, validate_compute_interface, ComputeShaderError};
use belfast::gpu::{BUFFER_USAGE_STORAGE, BUFFER_USAGE_UNIFORM};
use belfast::shader::{
    EntryPoint, GlobalVariable, ImageDim, ImageKind, MemorySpace, PipelineStage, ResourceBinding,
    ShaderModule, ShaderSourceError, ShaderType, WgslError,
};
use belfast::wgsl::parse_and_validate_compute_shader;
use belfast::{BufferUsages, Compute, Device, DeviceLimits, ShaderResourceLayout, TextureFormat};

fn usage(bits: u32) -> BufferUsages {
    BufferUsages { bits }
}

fn layout_entry(binding: u32, ty: ComputeBufferType) -> ComputeBindingLayout {
    ComputeBindingLayout { binding, ty, min_binding_size: None }
}

fn spec(binding: u32, buffer_size: u64, buffer_usage: BufferUsages, offset: u64, size: Option<u64>) -> BufferBindingSpec {
    BufferBindingSpec { binding, buffer_size, buffer_usage, offset, size }
}

#[test]
fn bind_group_bindings_must_match_draw_shader_layout() {
    let required = ShaderResourceLayout::TextureSampler { group: 0, texture_binding: 0, sampler_binding: 1 };
    assert!(validate_texture_bindings(&required, 0, 0, 1).is_ok());
    assert!(validate_texture_bindings(&required, 0, 1, 0).is_err());
    assert_eq!(
        validate_texture_bindings(&ShaderResourceLayout::Uniform { group: 0, binding: 0 }, 0, 0, 1),
        Err(BindGroupError::NoTextureSampler)
    );
}

#[test]
fn uniform_bind_group_bindings_must_match_draw_shader_layout() {
    let required = ShaderResourceLayout::Uniform { group: 0, binding: 0 };
    assert!(validate_uniform_bindings(&required, 0, 0).is_ok());
    assert_eq!(
        validate_uniform_bindings(&required, 0, 1),
        Err(BindGroupError::UniformBindingMismatch { group: 0, binding: 0 })
    );
    assert_eq!(
        validate_uniform_bindings(&ShaderResourceLayout::NoResources, 0, 0),
        Err(BindGroupError::NoUniformBuffer)
    );
}

#[test]
fn compute_bind_group_entries_must_match_layout() {
    let layout = [layout_entry(0, ComputeBufferType::Uniform), layout_entry(1, ComputeBufferType::Storage)];
    let entries = [
        spec(0, 256, usage(BUFFER_USAGE_UNIFORM), 0, None),
        spec(1, 64, usage(BUFFER_USAGE_STORAGE), 0, None),
    ];
    assert!(validate_compute_buffer_bindings(&layout, &entries, 256, 256).is_ok());
    assert_eq!(
        validate_compute_buffer_bindings(&layout, &entries[..1], 256, 256),
        Err(BindGroupError::MissingBinding(1))
    );
    assert_eq!(
        validate_compute_buffer_bindings(
            &layout,
            &[spec(0, 256, usage(BUFFER_USAGE_UNIFORM), 0, None), spec(2, 64, usage(BUFFER_USAGE_STORAGE), 0, None)],
            256,
            256
        ),
        Err(BindGroupError::UnexpectedBinding(2))
    );
    assert_eq!(
        validate_compute_buffer_bindings(
            &layout,
            &[spec(0, 256, usage(BUFFER_USAGE_STORAGE), 0, None), spec(1, 64, usage(BUFFER_USAGE_STORAGE), 0, None)],
            256,
            256
        ),
        Err(BindGroupError::MissingUsage { binding: 0, ty: ComputeBufferType::Uniform })
    );
    assert_eq!(validate_compute_buffer_bindings(&[], &[], 256, 256), Err(BindGroupError::NoBufferBindings));
}

#[test]
fn compute_bind_group_rejects_invalid_offset_and_size() {
    let layout = [ComputeBindingLayout { binding: 0, ty: ComputeBufferType::Storage, min_binding_size: Some(32) }];
    assert_eq!(
        validate_compute_buffer_bindings(&layout, &[spec(0, 64, usage(BUFFER_USAGE_STORAGE), 8, None)], 256, 256),
        Err(BindGroupError::MisalignedOffset { binding: 0, alignment: 256 })
    );
    assert_eq!(
        validate_compute_buffer_bindings(&layout, &[spec(0, 16, usage(BUFFER_USAGE_STORAGE), 0, None)], 256, 256),
        Err(BindGroupError::BelowMinBindingSize { binding: 0, min_binding_size: 32 })
    );
    assert_eq!(
        validate_compute_buffer_bindings(&layout, &[spec(0, 64, usage(BUFFER_USAGE_STORAGE), 0, Some(0))], 256, 256),
        Err(BindGroupError::ZeroBindingSize(0))
    );
}

#[test]
fn compute_bind_group_reports_each_range_error() {
    let storage = [layout_entry(0, ComputeBufferType::Storage)];
    let uniform = [layout_entry(0, ComputeBufferType::Uniform)];
    assert_eq!(
        validate_compute_buffer_bindings(
            &storage,
            &[spec(0, 64, usage(BUFFER_USAGE_STORAGE), 0, None), spec(0, 64, usage(BUFFER_USAGE_STORAGE), 0, None)],
            256,
            256
        ),
        Err(BindGroupError::DuplicateBinding(0))
    );
    assert_eq!(
        validate_compute_buffer_bindings(&storage, &[spec(0, 64, usage(BUFFER_USAGE_STORAGE), 0, None)], 256, 0),
        Err(BindGroupError::MisalignedOffset { binding: 0, alignment: 0 })
    );
    assert_eq!(
        validate_compute_buffer_bindings(&storage, &[spec(0, 64, usage(BUFFER_USAGE_STORAGE), 512, None)], 256, 256),
        Err(BindGroupError::OffsetExceedsBuffer(0))
    );
    assert_eq!(
        validate_compute_buffer_bindings(&storage, &[spec(0, 64, usage(BUFFER_USAGE_STORAGE), 0, Some(128))], 256, 256),
        Err(BindGroupError::BindingExceedsBuffer(0))
    );
    assert_eq!(
        validate_compute_buffer_bindings(&storage, &[spec(0, 256, usage(BUFFER_USAGE_STORAGE), 256, None)], 256, 256),
        Err(BindGroupError::EmptyBinding(0))
    );
    assert_eq!(
        validate_compute_buffer_bindings(&uniform, &[spec(0, 24, usage(BUFFER_USAGE_UNIFORM), 0, None)], 256, 256),
        Err(BindGroupError::UniformSizeNotMultipleOf16(0))
    );
}

#[test]
fn bind_group_options_fill_their_defaults() {
    let options = BindGroupOptionsInput::default().resolve("TextureBindGroup");
    assert_eq!((options.group_index, options.texture_binding, options.sampler_binding), (0, 0, 1));
    assert_eq!(options.label, "TextureBindGroup");
    let options = UniformBindGroupOptionsInput { group_index: Some(2), binding: None, label: Some("Tint".into()) }.resolve();
    assert_eq!((options.group_index, options.binding), (2, 0));
    assert_eq!(options.label, "Tint");
    assert_eq!(UniformBindGroupOptionsInput::default().resolve().label, "UniformBindGroup");
}

#[test]
fn parse_layout_rejects_duplicates_and_unknown_types() {
    let duplicate = parse_compute_layout(vec![
        ComputeLayoutEntryInput { binding: 0, ty: "uniform".into(), min_binding_size: None },
        ComputeLayoutEntryInput { binding: 0, ty: "storage".into(), min_binding_size: None },
    ]);
    assert!(matches!(duplicate, Err(ComputeLayoutError::DuplicateBinding(0))));
    assert!(matches!(
        ComputeBufferType::parse("texture"),
        Err(ComputeLayoutError::UnsupportedBindingType(name)) if name == "texture"
    ));
}

#[test]
fn parse_layout_orders_bindings_and_checks_min_sizes() {
    let layout = parse_compute_layout(vec![
        ComputeLayoutEntryInput { binding: 2, ty: "storage".into(), min_binding_size: Some(16) },
        ComputeLayoutEntryInput { binding: 0, ty: "uniform".into(), min_binding_size: None },
        ComputeLayoutEntryInput { binding: 1, ty: "readOnlyStorage".into(), min_binding_size: None },
    ])
    .unwrap();
    assert_eq!(
        layout,
        vec![
            layout_entry(0, ComputeBufferType::Uniform),
            layout_entry(1, ComputeBufferType::ReadOnlyStorage),
            ComputeBindingLayout { binding: 2, ty: ComputeBufferType::Storage, min_binding_size: Some(16) },
        ]
    );
    assert!(matches!(
        parse_compute_layout(vec![ComputeLayoutEntryInput { binding: 5, ty: "uniform".into(), min_binding_size: Some(0) }]),
        Err(ComputeLayoutError::ZeroMinBindingSize(5))
    ));
    assert_eq!(ComputeBufferType::ReadOnlyStorage.as_str(), "read-only storage");
    assert_eq!(ComputeBufferType::Uniform.required_usage().bits, BUFFER_USAGE_UNIFORM);
}

const COMPUTE_BUFFERS_SHADER: &str = r#"
struct Params {
    time: f32,
}

@group(0) @binding(0) var<uniform> params: Params;
@group(0) @binding(1) var<storage, read> source: array<vec4f>;
@group(0) @binding(2) var<storage, read_write> dest: array<vec4f>;

@compute @workgroup_size(1)
fn cs_main(@builtin(global_invocation_id) id: vec3u) {
    dest[id.x] = source[id.x] + vec4f(params.time);
}
"#;

fn layout(entries: &[(u32, ComputeBufferType)]) -> Vec<ComputeBindingLayout> {
    entries.iter().map(|(binding, ty)| layout_entry(*binding, *ty)).collect()
}

fn interface_error(checked: Result<(), ShaderSourceError<ComputeShaderError>>) -> ComputeShaderError {
    match checked {
        Err(ShaderSourceError::Interface(error)) => error,
        other => panic!("expected an interface error, got {other:?}"),
    }
}

#[test]
fn accepts_matching_explicit_buffer_layout() {
    parse_and_validate_compute_shader(
        COMPUTE_BUFFERS_SHADER,
        "cs_main",
        &layout(&[
            (0, ComputeBufferType::Uniform),
            (1, ComputeBufferType::ReadOnlyStorage),
            (2, ComputeBufferType::Storage),
        ]),
    )
    .unwrap();
}

#[test]
fn rejects_missing_compute_entry_point() {
    assert!(matches!(
        interface_error(parse_and_validate_compute_shader(
            COMPUTE_BUFFERS_SHADER,
            "main",
            &layout(&[
                (0, ComputeBufferType::Uniform),
                (1, ComputeBufferType::ReadOnlyStorage),
                (2, ComputeBufferType::Storage),
            ]),
        )),
        ComputeShaderError::MissingEntryPoint(name) if name == "main"
    ));
}

#[test]
fn rejects_layout_mismatch() {
    assert!(matches!(
        interface_error(parse_and_validate_compute_shader(
            COMPUTE_BUFFERS_SHADER,
            "cs_main",
            &layout(&[(0, ComputeBufferType::Uniform), (1, ComputeBufferType::Storage), (2, ComputeBufferType::Storage)]),
        )),
        ComputeShaderError::TypeMismatch {
            binding: 1,
            actual: ComputeBufferType::ReadOnlyStorage,
            expected: ComputeBufferType::Storage
        }
    ));
    assert!(matches!(
        interface_error(parse_and_validate_compute_shader(
            COMPUTE_BUFFERS_SHADER,
            "cs_main",
            &layout(&[(0, ComputeBufferType::Uniform)]),
        )),
        ComputeShaderError::MissingFromLayout(1)
    ));
    assert!(matches!(
        interface_error(parse_and_validate_compute_shader(
            COMPUTE_BUFFERS_SHADER,
            "cs_main",
            &layout(&[
                (0, ComputeBufferType::Uniform),
                (1, ComputeBufferType::ReadOnlyStorage),
                (2, ComputeBufferType::Storage),
                (3, ComputeBufferType::Uniform),
            ]),
        )),
        ComputeShaderError::NotDeclaredInShader(3)
    ));
}

#[test]
fn rejects_textures_and_other_groups() {
    const TEXTURE_SHADER: &str = r#"
@group(0) @binding(0) var image: texture_storage_2d<rgba8unorm, write>;

@compute @workgroup_size(1)
fn cs_main() {}
"#;
    assert!(matches!(
        interface_error(parse_and_validate_compute_shader(TEXTURE_SHADER, "cs_main", &[])),
        ComputeShaderError::UnsupportedResource(ResourceBinding { group: 0, binding: 0 })
    ));

    const OTHER_GROUP_SHADER: &str = r#"
@group(1) @binding(0) var<uniform> params: vec4f;

@compute @workgroup_size(1)
fn cs_main() {}
"#;
    assert!(matches!(
        interface_error(parse_and_validate_compute_shader(OTHER_GROUP_SHADER, "cs_main", &[])),
        ComputeShaderError::UnsupportedResource(ResourceBinding { group: 1, binding: 0 })
    ));
}

#[test]
fn empty_layout_requires_shader_without_bindings() {
    const EMPTY_SHADER: &str = r#"
@compute @workgroup_size(1)
fn cs_main() {}
"#;
    parse_and_validate_compute_shader(EMPTY_SHADER, "cs_main", &[]).unwrap();
    assert!(matches!(
        interface_error(parse_and_validate_compute_shader(COMPUTE_BUFFERS_SHADER, "cs_main", &[])),
        ComputeShaderError::MissingFromLayout(0)
    ));
}

#[test]
fn compute_shader_source_errors_come_from_naga() {
    assert!(matches!(
        parse_and_validate_compute_shader("@compute fn", "cs_main", &[]),
        Err(ShaderSourceError::Wgsl(WgslError::Parse(_)))
    ));
    // Parses, has the entry point and no bindings, but lacks a workgroup size.
    assert!(matches!(
        parse_and_validate_compute_shader("@compute fn cs_main() {}", "cs_main", &[]),
        Err(ShaderSourceError::Wgsl(_))
    ));
}

fn single_resource_module(group: u32, space: MemorySpace, ty: ShaderType) -> ShaderModule {
    ShaderModule {
        types: vec![ty],
        global_variables: vec![GlobalVariable { binding: Some(ResourceBinding { group, binding: 0 }), space, ty: 0 }],
        entry_points: vec![EntryPoint { name: "cs_main".into(), stage: PipelineStage::Compute, arguments: vec![], result: None }],
    }
}

#[test]
fn hand_built_compute_modules_check_their_resources() {
    let texture = single_resource_module(
        0,
        MemorySpace::Handle,
        ShaderType::Image { dim: ImageDim::D2, arrayed: false, class: ImageKind::Storage },
    );
    assert!(matches!(
        validate_compute_interface(&texture, "cs_main", &[]),
        Err(ComputeShaderError::UnsupportedResource(ResourceBinding { group: 0, binding: 0 }))
    ));
    let uniform = single_resource_module(0, MemorySpace::Uniform, ShaderType::Other);
    assert!(validate_compute_interface(&uniform, "cs_main", &layout(&[(0, ComputeBufferType::Uniform)])).is_ok());
}

#[test]
fn duplicate_shader_resources_are_refused() {
    let mut module = single_resource_module(0, MemorySpace::Uniform, ShaderType::Other);
    module.global_variables.push(module.global_variables[0]);
    assert!(matches!(collect_compute_shader_bindings(&module), Err(ComputeShaderError::DuplicateResource(0))));
}

#[test]
fn compute_pipeline_checks_its_device() {
    let limits = DeviceLimits {
        max_vertex_buffers: 8,
        max_vertex_buffer_array_stride: 2048,
        max_vertex_attributes: 16,
        max_texture_dimension_2d: 8192,
        max_inter_stage_shader_variables: 16,
        min_uniform_buffer_offset_alignment: 256,
        min_storage_buffer_offset_alignment: 256,
    };
    let device = Device::from_parts(1, limits, TextureFormat::Bgra8UnormSrgb, None);
    let other = Device::from_parts(2, limits, TextureFormat::Bgra8UnormSrgb, None);
    let compute = Compute::new(&device);
    assert!(compute.device().is_same(&device));
    assert!(compute.validate_for_dispatch(&device).is_ok());
    assert!(matches!(compute.validate_for_dispatch(&other), Err(belfast::BelfastError::ComputeDeviceMismatch)));
}

#[test]
fn compute_bind_group_checks_the_pipeline_device_then_each_buffer_device() {
    let limits = DeviceLimits {
        max_vertex_buffers: 8,
        max_vertex_buffer_array_stride: 2048,
        max_vertex_attributes: 16,
        max_texture_dimension_2d: 8192,
        max_inter_stage_shader_variables: 16,
        min_uniform_buffer_offset_alignment: 256,
        min_storage_buffer_offset_alignment: 256,
    };
    let device = Device::from_parts(1, limits, TextureFormat::Bgra8UnormSrgb, None);
    let other = Device::from_parts(2, limits, TextureFormat::Bgra8UnormSrgb, None);
    let compute = Compute::new(&device);
    let foreign = Compute::new(&other);
    assert_eq!(validate_bind_group_devices(&device, &compute, &[device, device]), Ok(()));
    assert_eq!(validate_bind_group_devices(&device, &compute, &[]), Ok(()));
    assert_eq!(
        validate_bind_group_devices(&device, &compute, &[device, other]),
        Err(BindGroupDeviceError::BufferDeviceMismatch)
    );
    assert_eq!(
        validate_bind_group_devices(&device, &foreign, &[other]),
        Err(BindGroupDeviceError::ComputeDeviceMismatch)
    );
}

#[test]
fn bind_group_errors_read_as_the_messages_users_see() {
    let required = ShaderResourceLayout::Uniform { group: 0, binding: 0 };
    assert_eq!(
        validate_uniform_bindings(&required, 0, 1).unwrap_err().message(),
        "bind group bindings must match draw shader layout @group(0) uniform @binding(0)"
    );
    assert_eq!(
        validate_uniform_bindings(&ShaderResourceLayout::NoResources, 0, 0).unwrap_err().message(),
        "draw shader does not declare a uniform buffer"
    );
    let layout = [layout_entry(0, ComputeBufferType::Uniform), layout_entry(1, ComputeBufferType::Storage)];
    let entries = [
        spec(0, 256, usage(BUFFER_USAGE_UNIFORM), 0, None),
        spec(1, 64, usage(BUFFER_USAGE_STORAGE), 0, None),
    ];
    assert_eq!(
        validate_compute_buffer_bindings(&layout, &entries[..1], 256, 256).unwrap_err().message(),
        "bind group is missing binding 1"
    );
    assert_eq!(
        validate_compute_buffer_bindings(
            &layout,
            &[spec(0, 256, usage(BUFFER_USAGE_UNIFORM), 0, None), spec(2, 64, usage(BUFFER_USAGE_STORAGE), 0, None)],
            256,
            256
        )
        .unwrap_err()
        .message(),
        "bind group has unexpected binding 2"
    );
    assert_eq!(
        validate_compute_buffer_bindings(
            &layout,
            &[spec(0, 256, usage(BUFFER_USAGE_STORAGE), 0, None), spec(1, 64, usage(BUFFER_USAGE_STORAGE), 0, None)],
            256,
            256
        )
        .unwrap_err()
        .message(),
        "buffer at binding 0 must have uniform usage"
    );
    assert_eq!(
        validate_compute_buffer_bindings(&[], &[], 256, 256).unwrap_err().message(),
        "compute does not declare buffer bindings"
    );
    let sized = [ComputeBindingLayout { binding: 0, ty: ComputeBufferType::Storage, min_binding_size: Some(32) }];
    assert_eq!(
        validate_compute_buffer_bindings(&sized, &[spec(0, 64, usage(BUFFER_USAGE_STORAGE), 8, None)], 256, 256)
            .unwrap_err()
            .message(),
        "buffer offset at binding 0 must be a multiple of 256"
    );
    assert_eq!(
        validate_compute_buffer_bindings(&sized, &[spec(0, 16, usage(BUFFER_USAGE_STORAGE), 0, None)], 256, 256)
            .unwrap_err()
            .message(),
        "buffer at binding 0 is smaller than minBindingSize 32"
    );
    assert_eq!(
        validate_compute_buffer_bindings(&sized, &[spec(0, 64, usage(BUFFER_USAGE_STORAGE), 0, Some(0))], 256, 256)
            .unwrap_err()
            .message(),
        "buffer size at binding 0 must be greater than 0"
    );
}

#[test]
fn compute_shader_errors_read_as_the_messages_users_see() {
    assert_eq!(
        ComputeShaderError::MissingEntryPoint("main".to_string()).message(),
        "shader is missing required compute entry point \"main\""
    );
    assert_eq!(
        ComputeShaderError::TypeMismatch {
            binding: 3,
            actual: ComputeBufferType::ReadOnlyStorage,
            expected: ComputeBufferType::Uniform,
        }
        .message(),
        "shader resource @group(0) @binding(3) is a read-only storage, expected uniform"
    );
    assert_eq!(
        ComputeShaderError::UnsupportedResource(ResourceBinding { group: 1, binding: 20 }).message(),
        "unsupported compute shader resource @group(1) @binding(20)"
    );
}
