use belfast::uniform_block::{align_to, parse_field_type, value_float_count, UniformSchemaError};
use belfast::{BelfastError, UniformBlock, UniformFieldType};

fn schema(fields: &[(&str, UniformFieldType)]) -> Vec<(String, UniformFieldType)> {
    fields.iter().map(|(name, ty)| (name.to_string(), *ty)).collect()
}

fn bits(values: &[f32]) -> Vec<u32> {
    values.iter().map(|value| value.to_bits()).collect()
}

fn floats(words: &[u32]) -> Vec<f32> {
    words.iter().map(|word| f32::from_bits(*word)).collect()
}

#[test]
fn packs_uniform_fields_with_wgsl_alignment() {
    let block = UniformBlock::create(schema(&[
        ("time", UniformFieldType::F32),
        ("mode", UniformFieldType::U32),
        ("direction", UniformFieldType::Vec3F),
        ("view_proj", UniformFieldType::Mat4x4F),
    ]))
    .expect("schema is valid");

    assert_eq!(block.byte_size(), 96);
    assert_eq!(block.float_count(), 24);
    assert_eq!(block.get_offset("time").unwrap(), 0);
    assert_eq!(block.get_offset("mode").unwrap(), 1);
    assert_eq!(block.get_offset("direction").unwrap(), 4);
    assert_eq!(block.get_offset("view_proj").unwrap(), 8);
}

#[test]
fn accepts_dynamic_schema_and_pads_uniform_struct_size() {
    let schema = vec![
        ("viewProj".to_string(), UniformFieldType::Mat4x4F),
        ("time".to_string(), UniformFieldType::F32),
    ];
    let block = UniformBlock::create(schema).expect("dynamic schema is valid");

    assert_eq!(block.byte_size(), 80);
    assert_eq!(block.float_count(), 20);
    assert_eq!(block.get_offset("viewProj").unwrap(), 0);
    assert_eq!(block.get_offset("time").unwrap(), 16);
    assert_eq!(block.field_type("viewProj").unwrap(), UniformFieldType::Mat4x4F);
    assert_eq!(block.field_type("time").unwrap(), UniformFieldType::F32);
}

#[test]
fn packs_mat3_columns_with_wgsl_padding() {
    let mut block = UniformBlock::create(schema(&[("normal", UniformFieldType::Mat3x3F)])).unwrap();

    block
        .set_f32_slice("normal", &bits(&[1.0, 2.0, 3.0, 4.0, 5.0, 6.0, 7.0, 8.0, 9.0]))
        .unwrap();

    assert_eq!(block.byte_size(), 48);
    assert_eq!(block.float_count(), 12);
    assert_eq!(
        floats(block.u32_data()),
        vec![1.0, 2.0, 3.0, 0.0, 4.0, 5.0, 6.0, 0.0, 7.0, 8.0, 9.0, 0.0]
    );
    assert!(block
        .set_f32_slice("normal", &bits(&[1.0, 2.0, 3.0, 4.0, 5.0, 6.0, 7.0, 8.0]))
        .is_err());
}

#[test]
fn writes_float_vector_matrix_and_u32_values_by_name() {
    let mut block = UniformBlock::create(schema(&[
        ("mode", UniformFieldType::U32),
        ("color", UniformFieldType::Vec3F),
        ("transform", UniformFieldType::Mat4x4F),
    ]))
    .expect("schema is valid");

    block.set_u32("mode", 7).unwrap();
    block.set_f32_slice("color", &bits(&[0.25, 0.5, 0.75])).unwrap();
    block
        .set_f32_slice(
            "transform",
            &bits(&[
                1.0, 0.0, 0.0, 0.0, 0.0, 1.0, 0.0, 0.0, 0.0, 0.0, 1.0, 0.0, 2.0, 3.0, 4.0, 1.0,
            ]),
        )
        .unwrap();

    let data = floats(block.u32_data());
    assert_eq!(block.u32_data()[0], 7);
    assert_eq!(&data[4..8], &[0.25, 0.5, 0.75, 0.0]);
    assert_eq!(&data[8..12], &[1.0, 0.0, 0.0, 0.0]);
    assert_eq!(&data[20..24], &[2.0, 3.0, 4.0, 1.0]);
}

#[test]
fn rejects_unknown_fields_and_short_values() {
    let mut block = UniformBlock::create(schema(&[("color", UniformFieldType::Vec4F)])).unwrap();

    assert!(block.get_offset("missing").is_err());
    assert!(block.set_f32_slice("color", &bits(&[1.0, 0.0, 0.0])).is_err());
    assert!(block.set_u32("color", 1).is_err());
}

#[test]
fn reports_each_uniform_error() {
    let mut block = UniformBlock::create(schema(&[("color", UniformFieldType::Vec4F)])).unwrap();
    assert!(matches!(
        block.get_offset("missing"),
        Err(BelfastError::UnknownUniformField(name)) if name == "missing"
    ));
    assert!(matches!(
        block.set_f32_slice("color", &bits(&[1.0, 0.0, 0.0])),
        Err(BelfastError::UniformValueTooShort { name, expected: 4, actual: 3 }) if name == "color"
    ));
    assert!(matches!(
        block.set_u32("color", 1),
        Err(BelfastError::UniformTypeMismatch { name, .. }) if name == "color"
    ));
    assert_eq!(block.get_offset("missing").unwrap_err().message(), "unknown uniform field \"missing\"");
    assert_eq!(
        block.set_f32_slice("color", &bits(&[1.0, 0.0, 0.0])).unwrap_err().message(),
        "uniform field \"color\" requires 4 floats, got 3"
    );
    assert_eq!(
        block.set_u32("color", 1).unwrap_err().message(),
        "uniform field \"color\" expects vec4f, got u32"
    );
}

#[test]
fn later_fields_with_the_same_name_win() {
    let block = UniformBlock::create(schema(&[
        ("value", UniformFieldType::F32),
        ("value", UniformFieldType::Vec4F),
    ]))
    .unwrap();
    assert_eq!(block.field_type("value").unwrap(), UniformFieldType::Vec4F);
    assert_eq!(block.get_offset("value").unwrap(), 4);
}

#[test]
fn bytes_are_the_words_in_little_endian_order() {
    let mut block = UniformBlock::create(schema(&[("mode", UniformFieldType::U32)])).unwrap();
    block.set_u32("mode", 0x0403_0201).unwrap();
    let bytes = block.bytes();
    assert_eq!(bytes, vec![1, 2, 3, 4]);
}

#[test]
fn parses_field_type_names_and_aliases() {
    assert_eq!(parse_field_type("a", "f32").unwrap(), UniformFieldType::F32);
    assert_eq!(parse_field_type("a", "vec2").unwrap(), UniformFieldType::Vec2F);
    assert_eq!(parse_field_type("a", "vec3f").unwrap(), UniformFieldType::Vec3F);
    assert_eq!(parse_field_type("a", "mat3").unwrap(), UniformFieldType::Mat3x3F);
    assert_eq!(parse_field_type("a", "mat4x4f").unwrap(), UniformFieldType::Mat4x4F);
    assert!(matches!(
        parse_field_type("tint", "vec5"),
        Err(UniformSchemaError::UnsupportedFieldType { field_type, name })
            if field_type == "vec5" && name == "tint"
    ));
    assert_eq!(value_float_count(UniformFieldType::Mat3x3F), 9);
    assert_eq!(value_float_count(UniformFieldType::U32), 1);
}

#[test]
fn pads_the_block_to_its_largest_field_alignment() {
    let lone = UniformBlock::create(schema(&[("t", UniformFieldType::F32)])).unwrap();
    assert_eq!(lone.byte_size(), 4);
    assert_eq!(lone.float_count(), 1);
    let pair = UniformBlock::create(schema(&[("v", UniformFieldType::Vec2F), ("t", UniformFieldType::F32)])).unwrap();
    assert_eq!(pair.byte_size(), 16);
    let empty = UniformBlock::create(Vec::new()).unwrap();
    assert_eq!(empty.byte_size(), 0);
}

#[test]
fn align_to_keeps_aligned_values_up_to_the_limit() {
    assert_eq!(align_to(usize::MAX, 1), usize::MAX);
    assert_eq!(align_to(17, 16), 32);
    assert_eq!(align_to(32, 16), 32);
}
