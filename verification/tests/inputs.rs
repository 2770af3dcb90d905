use belfast::bindings::{
    parse_buffer_usage, parse_vertex_format, BindingInputError, VertexAttributeInput,
    VertexBufferDescriptorInput,
};
use belfast::controls::{drag_kind, map_pointer_button, parse_button, release_ends_drag, ControlInputError, DragKind};
use belfast::texture::{
    resolve_filter, resolve_format, validate_dimensions, FilterMode, TextureOptionsError,
    TextureOptionsInput,
};
use belfast::{BelfastError, BufferUsage, OrbitalPointerButton, TextureFormat, VertexFormat};

#[test]
fn parses_vertex_buffer_usage() {
    assert_eq!(parse_buffer_usage("vertex").unwrap(), BufferUsage::vertex());
}

#[test]
fn parses_uniform_buffer_usage() {
    assert_eq!(parse_buffer_usage("uniform").unwrap(), BufferUsage::uniform());
}

#[test]
fn parses_storage_buffer_usage() {
    assert_eq!(parse_buffer_usage("storage").unwrap(), BufferUsage::storage());
    assert_eq!(parse_buffer_usage("vertexStorage").unwrap(), BufferUsage::vertex_storage());
}

#[test]
fn rejects_unknown_buffer_usage() {
    assert!(matches!(
        parse_buffer_usage("index"),
        Err(BindingInputError::UnsupportedBufferUsage(name)) if name == "index"
    ));
}

fn descriptor(array_stride: u64, attributes: Vec<(u32, &str, u64)>, slot: Option<u32>, step_mode: Option<&str>) -> VertexBufferDescriptorInput {
    VertexBufferDescriptorInput {
        array_stride,
        attributes: attributes
            .into_iter()
            .map(|(shader_location, format, offset)| VertexAttributeInput {
                shader_location,
                format: format.to_string(),
                offset,
            })
            .collect(),
        slot,
        step_mode: step_mode.map(String::from),
    }
}

#[test]
fn converts_separate_position_layout() {
    let converted = descriptor(8, vec![(0, "vec2", 0)], Some(0), None).try_into_binding().unwrap();
    assert_eq!(converted.array_stride, 8);
    assert_eq!(converted.attributes[0].format, VertexFormat::Float32x2);
    assert_eq!(converted.slot, Some(0));
}

#[test]
fn parses_gl_matrix_formats_and_webgpu_aliases() {
    assert_eq!(parse_vertex_format("vec2").unwrap(), (VertexFormat::Float32x2, 8));
    assert_eq!(parse_vertex_format("vec3").unwrap(), (VertexFormat::Float32x3, 12));
    assert_eq!(parse_vertex_format("vec4").unwrap(), (VertexFormat::Float32x4, 16));
    assert_eq!(parse_vertex_format("float32x4").unwrap(), (VertexFormat::Float32x4, 16));
}

#[test]
fn rejects_attribute_past_array_stride() {
    assert!(matches!(
        descriptor(8, vec![(0, "vec3", 0)], Some(0), None).try_into_binding(),
        Err(BindingInputError::ExceedsStride { shader_location: 0, array_stride: 8 })
    ));
}

#[test]
fn rejects_zero_array_stride() {
    assert!(matches!(
        descriptor(0, vec![(0, "vec2", 0)], None, None).try_into_binding(),
        Err(BindingInputError::ZeroArrayStride)
    ));
}

#[test]
fn rejects_empty_attributes() {
    assert!(matches!(
        descriptor(8, vec![], None, None).try_into_binding(),
        Err(BindingInputError::NoAttributes)
    ));
}

#[test]
fn rejects_unknown_vertex_format() {
    assert!(matches!(
        descriptor(4, vec![(0, "float16x2", 0)], None, None).try_into_binding(),
        Err(BindingInputError::UnsupportedFormat(name)) if name == "float16x2"
    ));
}

#[test]
fn rejects_duplicate_shader_locations() {
    assert!(matches!(
        descriptor(16, vec![(0, "vec2", 0), (0, "vec2", 8)], None, None).try_into_binding(),
        Err(BindingInputError::DuplicateLocation(0))
    ));
}

#[test]
fn rejects_unknown_step_mode() {
    assert!(matches!(
        descriptor(8, vec![(0, "vec2", 0)], None, Some("draw")).try_into_binding(),
        Err(BindingInputError::UnsupportedStepMode(name)) if name == "draw"
    ));
}

#[test]
fn converts_instance_step_mode_and_offsets() {
    let converted = descriptor(20, vec![(3, "vec3", 0), (4, "vec2", 12)], None, Some("instance"))
        .try_into_binding()
        .unwrap();
    assert_eq!(converted.step_mode, Some(belfast::VertexStepMode::Instance));
    assert_eq!(converted.attributes[1].offset, 12);
    assert_eq!(converted.attributes[1].shader_location, 4);
}

#[test]
fn validation_rejects_extreme_dimensions_before_size_calculation() {
    assert!(matches!(
        validate_dimensions(u32::MAX, u32::MAX, 8_192),
        Err(BelfastError::TextureDimensionsExceedLimit { width: u32::MAX, height: u32::MAX, limit: 8_192 })
    ));
}

#[test]
fn texture_options_default_to_external_image_settings() {
    let options = TextureOptionsInput::default().resolve().unwrap();
    assert_eq!(options.format, TextureFormat::Rgba8UnormSrgb);
    assert_eq!(options.mag_filter, FilterMode::Linear);
    assert!(options.flip_y);
    assert_eq!(options.label, "Texture");
}

#[test]
fn texture_options_reject_unknown_format() {
    let options = TextureOptionsInput { format: Some("bgra8unorm".into()), ..Default::default() };
    assert!(options.resolve().is_err());
}

#[test]
fn texture_options_reject_unknown_mag_filter() {
    let options = TextureOptionsInput { mag_filter: Some("cubic".into()), ..Default::default() };
    assert!(options.resolve().is_err());
}

#[test]
fn texture_options_reject_unknown_min_filter() {
    let options = TextureOptionsInput { min_filter: Some("cubic".into()), ..Default::default() };
    assert!(matches!(
        options.resolve(),
        Err(TextureOptionsError::UnsupportedFilter { name, value }) if name == "minFilter" && value == "cubic"
    ));
}

#[test]
fn texture_names_select_formats_and_filters() {
    assert_eq!(resolve_format(Some("rgba8unorm")).unwrap(), TextureFormat::Rgba8Unorm);
    assert_eq!(resolve_format(None).unwrap(), TextureFormat::Rgba8UnormSrgb);
    assert!(matches!(
        resolve_format(Some("r8")),
        Err(TextureOptionsError::UnsupportedFormat(name)) if name == "r8"
    ));
    assert_eq!(resolve_filter("magFilter", Some("nearest")).unwrap(), FilterMode::Nearest);
    assert_eq!(resolve_filter("magFilter", None).unwrap(), FilterMode::Linear);
}

#[test]
fn maps_pointer_buttons() {
    assert_eq!(map_pointer_button(0), Some(OrbitalPointerButton::Primary));
    assert_eq!(map_pointer_button(1), Some(OrbitalPointerButton::Middle));
    assert_eq!(map_pointer_button(2), None);
    assert_eq!(parse_button("middle").unwrap(), OrbitalPointerButton::Middle);
    assert!(matches!(
        parse_button("secondary"),
        Err(ControlInputError::UnsupportedButton(name)) if name == "secondary"
    ));
}

#[test]
fn primary_drags_rotate_unless_panning() {
    assert_eq!(drag_kind(OrbitalPointerButton::Primary, false), DragKind::Rotate);
    assert_eq!(drag_kind(OrbitalPointerButton::Primary, true), DragKind::Pan);
    assert_eq!(drag_kind(OrbitalPointerButton::Middle, false), DragKind::Pan);
    assert!(release_ends_drag(Some(OrbitalPointerButton::Middle), OrbitalPointerButton::Middle));
    assert!(!release_ends_drag(Some(OrbitalPointerButton::Primary), OrbitalPointerButton::Middle));
    assert!(!release_ends_drag(None, OrbitalPointerButton::Primary));
}

#[test]
fn decimal_text_spells_numbers_without_leading_zeros() {
    assert_eq!(belfast::text::decimal_text(0), "0");
    assert_eq!(belfast::text::decimal_text(7), "7");
    assert_eq!(belfast::text::decimal_text(10), "10");
    assert_eq!(belfast::text::decimal_text(1_234_567_890), "1234567890");
    assert_eq!(belfast::text::decimal_text(u64::MAX), u64::MAX.to_string());
}
