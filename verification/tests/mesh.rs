use belfast::{
    BelfastError, Buffer, BufferUsage, Device, DeviceLimits, Draw, Mesh, MeshIndexFormat,
    TextureFormat, VertexAttributeDescriptor, VertexBufferBinding, VertexBufferLayoutDescriptor,
    VertexFormat, VertexStepMode,
};

fn limits() -> DeviceLimits {
    DeviceLimits {
        max_vertex_buffers: 8,
        max_vertex_buffer_array_stride: 2048,
        max_vertex_attributes: 16,
        max_texture_dimension_2d: 8192,
        max_inter_stage_shader_variables: 16,
        min_uniform_buffer_offset_alignment: 256,
        min_storage_buffer_offset_alignment: 256,
    }
}

fn create_test_devices() -> (Device, Device) {
    (
        Device::from_parts(1, limits(), TextureFormat::Rgba8UnormSrgb, None),
        Device::from_parts(2, limits(), TextureFormat::Rgba8UnormSrgb, None),
    )
}

fn float_buffer(device: &Device, floats: u64, usage: belfast::BufferUsages) -> Buffer {
    Buffer { size: floats * 4, usage, device: *device }
}

fn layout(
    array_stride: u64,
    shader_location: u32,
    format: VertexFormat,
    offset: u64,
    slot: Option<u32>,
) -> VertexBufferLayoutDescriptor {
    VertexBufferLayoutDescriptor {
        array_stride,
        attributes: vec![VertexAttributeDescriptor { shader_location, format, offset }],
        slot,
        step_mode: None,
    }
}

#[test]
fn creates_vertex_layouts_with_explicit_slots() {
    let mesh = Mesh::new(3)
        .unwrap()
        .add_vertex_buffer_layout(layout(8, 0, VertexFormat::Float32x2, 0, Some(0)))
        .unwrap();

    let layouts = mesh.vertex_layouts();

    assert_eq!(layouts.len(), 1);
    let layout = layouts[0].as_ref().unwrap();
    assert_eq!(layout.array_stride, 8);
    assert_eq!(layout.step_mode, VertexStepMode::Vertex);
    assert_eq!(layout.attributes[0].shader_location, 0);
}

#[test]
fn assigns_next_free_vertex_buffer_slot() {
    let mesh = Mesh::new(3)
        .unwrap()
        .add_vertex_buffer_layout(layout(8, 0, VertexFormat::Float32x2, 0, None))
        .unwrap()
        .add_vertex_buffer_layout(layout(12, 1, VertexFormat::Float32x3, 0, None))
        .unwrap();

    let layouts = mesh.vertex_layouts();

    assert!(layouts[0].is_some());
    assert!(layouts[1].is_some());
}

#[test]
fn rejects_duplicate_slots_and_empty_meshes() {
    assert!(Mesh::new(0).is_err());

    let result = Mesh::new(3)
        .unwrap()
        .add_vertex_buffer_layout(layout(8, 0, VertexFormat::Float32x2, 0, Some(0)))
        .unwrap()
        .add_vertex_buffer_layout(layout(12, 1, VertexFormat::Float32x3, 0, Some(0)));

    assert!(result.is_err());
}

#[test]
fn rejects_sparse_and_extreme_vertex_buffer_slots() {
    for slot in [1, u32::MAX] {
        let result = Mesh::new(3)
            .unwrap()
            .add_vertex_buffer_layout(layout(8, 0, VertexFormat::Float32x2, 0, Some(slot)));

        assert!(matches!(
            result,
            Err(BelfastError::NonContiguousVertexBufferSlot { expected: 0, actual }) if actual == slot
        ));
        assert_eq!(
            result.err().unwrap().message(),
            format!("vertex buffer slot {slot} is not contiguous; expected slot 0")
        );
    }
}

#[test]
fn rejects_duplicate_shader_locations_across_bindings() {
    let within_binding = Mesh::new(3).unwrap().add_vertex_buffer_layout(
        VertexBufferLayoutDescriptor {
            array_stride: 16,
            attributes: vec![
                VertexAttributeDescriptor {
                    shader_location: 2,
                    format: VertexFormat::Float32x2,
                    offset: 0,
                },
                VertexAttributeDescriptor {
                    shader_location: 2,
                    format: VertexFormat::Float32x2,
                    offset: 8,
                },
            ],
            slot: None,
            step_mode: None,
        },
    );
    assert!(matches!(
        within_binding,
        Err(BelfastError::DuplicateVertexAttributeLocation(2))
    ));
    assert_eq!(
        within_binding.err().unwrap().message(),
        "vertex attribute shader location 2 is already in use"
    );

    let result = Mesh::new(3)
        .unwrap()
        .add_vertex_buffer_layout(layout(8, 2, VertexFormat::Float32x2, 0, None))
        .unwrap()
        .add_vertex_buffer_layout(layout(12, 2, VertexFormat::Float32x3, 0, None));

    assert!(matches!(
        result,
        Err(BelfastError::DuplicateVertexAttributeLocation(2))
    ));
    assert_eq!(result.err().unwrap().message(), "vertex attribute shader location 2 is already in use");
}

#[test]
fn rejects_invalid_vertex_buffer_stride_and_attribute_extents() {
    let result = Mesh::new(3)
        .unwrap()
        .add_vertex_buffer_layout(layout(0, 0, VertexFormat::Float32x2, 0, None));
    assert!(matches!(result, Err(BelfastError::InvalidVertexBufferStride)));

    let result = Mesh::new(3)
        .unwrap()
        .add_vertex_buffer_layout(layout(10, 0, VertexFormat::Float32x2, 0, None));
    assert!(matches!(result, Err(BelfastError::MisalignedVertexBufferStride(10))));

    let result = Mesh::new(3)
        .unwrap()
        .add_vertex_buffer_layout(layout(12, 0, VertexFormat::Float32x2, 2, None));
    assert!(matches!(
        result,
        Err(BelfastError::MisalignedVertexAttributeOffset { shader_location: 0, offset: 2 })
    ));

    let result = Mesh::new(3)
        .unwrap()
        .add_vertex_buffer_layout(layout(8, 0, VertexFormat::Float32x3, 0, None));
    assert!(matches!(
        result,
        Err(BelfastError::VertexAttributeExceedsStride { shader_location: 0, array_stride: 8 })
    ));
}

#[test]
fn validates_vertex_buffer_device_limits_and_extent() {
    let (device, other_device) = create_test_devices();

    let too_small = float_buffer(&device, 5, BufferUsage::vertex());
    let result = Mesh::new(3).unwrap().add_vertex_buffer(VertexBufferBinding {
        buffer: too_small,
        array_stride: 8,
        attributes: vec![VertexAttributeDescriptor {
            shader_location: 0,
            format: VertexFormat::Float32x2,
            offset: 0,
        }],
        slot: None,
        step_mode: None,
    });
    assert!(matches!(
        result,
        Err(BelfastError::VertexBufferTooSmall { slot: 0, required: 24, actual: 20 })
    ));
    assert_eq!(
        result.err().unwrap().message(),
        "vertex buffer at slot 0 requires at least 24 bytes for this mesh, got 20"
    );

    let valid = float_buffer(&device, 6, BufferUsage::vertex());
    let mut mesh = Mesh::new(3)
        .unwrap()
        .add_vertex_buffer(VertexBufferBinding {
            buffer: valid,
            array_stride: 8,
            attributes: vec![VertexAttributeDescriptor {
                shader_location: 0,
                format: VertexFormat::Float32x2,
                offset: 0,
            }],
            slot: None,
            step_mode: None,
        })
        .unwrap();

    let foreign_index = Buffer { size: 6, usage: BufferUsage::index(), device: other_device };
    let refused = mesh.set_index_buffer(foreign_index, 3, MeshIndexFormat::Uint16);
    assert!(matches!(refused, Err(BelfastError::IndexBufferDeviceMismatch)));
    assert_eq!(refused.err().unwrap().message(), "index buffer was created by a different device");
    assert!(!mesh.has_index_buffer());

    let foreign = float_buffer(&other_device, 9, BufferUsage::vertex());
    let result = mesh.add_vertex_buffer(VertexBufferBinding {
        buffer: foreign,
        array_stride: 12,
        attributes: vec![VertexAttributeDescriptor {
            shader_location: 1,
            format: VertexFormat::Float32x3,
            offset: 0,
        }],
        slot: None,
        step_mode: None,
    });
    assert!(matches!(
        result,
        Err(BelfastError::VertexBufferDeviceMismatch { slot: 1 })
    ));
    assert_eq!(
        result.err().unwrap().message(),
        "vertex buffer at slot 1 was created by a different device"
    );

    let oversized_stride = u64::from(device.limits.max_vertex_buffer_array_stride) + 4;
    let buffer = float_buffer(&device, 2, BufferUsage::vertex());
    let result = Mesh::new(1).unwrap().add_vertex_buffer(VertexBufferBinding {
        buffer,
        array_stride: oversized_stride,
        attributes: vec![VertexAttributeDescriptor {
            shader_location: 0,
            format: VertexFormat::Float32x2,
            offset: 0,
        }],
        slot: None,
        step_mode: None,
    });
    assert!(matches!(
        result,
        Err(BelfastError::VertexBufferStrideExceedsLimit { stride, limit })
            if stride == oversized_stride && limit == device.limits.max_vertex_buffer_array_stride
    ));
    assert_eq!(
        result.err().unwrap().message(),
        format!(
            "vertex buffer array stride {oversized_stride} exceeds device limit {}",
            device.limits.max_vertex_buffer_array_stride
        )
    );

    let buffer = float_buffer(&device, 2, BufferUsage::vertex());
    let location = device.limits.max_vertex_attributes;
    let result = Mesh::new(1).unwrap().add_vertex_buffer(VertexBufferBinding {
        buffer,
        array_stride: 8,
        attributes: vec![VertexAttributeDescriptor {
            shader_location: location,
            format: VertexFormat::Float32x2,
            offset: 0,
        }],
        slot: None,
        step_mode: None,
    });
    assert!(matches!(
        result,
        Err(BelfastError::VertexAttributeLocationExceedsLimit { location: l, limit })
            if l == location && limit == device.limits.max_vertex_attributes
    ));
    assert_eq!(
        result.err().unwrap().message(),
        format!(
            "vertex attribute shader location {location} exceeds device limit {}",
            device.limits.max_vertex_attributes
        )
    );
}

#[test]
fn instance_buffer_extent_requires_one_element() {
    let (device, _) = create_test_devices();
    let buffer = float_buffer(&device, 3, BufferUsage::vertex());

    let result = Mesh::new(50).unwrap().add_vertex_buffer(VertexBufferBinding {
        buffer,
        array_stride: 12,
        attributes: vec![VertexAttributeDescriptor {
            shader_location: 0,
            format: VertexFormat::Float32x3,
            offset: 0,
        }],
        slot: None,
        step_mode: Some(VertexStepMode::Instance),
    });

    assert!(result.is_ok());
}

#[test]
fn layout_signature_is_canonical_and_detects_incompatible_meshes() {
    let position_layout = layout(8, 0, VertexFormat::Float32x2, 0, None);
    let matching_layout = position_layout.clone();
    let different_layout = layout(12, 0, VertexFormat::Float32x3, 0, None);
    let first = Mesh::new(3).unwrap().add_vertex_buffer_layout(position_layout).unwrap();
    let matching = Mesh::new(99).unwrap().add_vertex_buffer_layout(matching_layout).unwrap();
    let different = Mesh::new(3).unwrap().add_vertex_buffer_layout(different_layout).unwrap();

    assert_eq!(first.layout_signature(), matching.layout_signature());
    assert_ne!(first.layout_signature(), different.layout_signature());
}

#[test]
fn tracks_index_buffer_metadata() {
    let mut mesh = Mesh::new(4).unwrap();

    mesh.set_index_buffer_metadata(6, MeshIndexFormat::Uint32).unwrap();

    assert!(mesh.has_index_buffer());
    assert_eq!(mesh.index_count(), 6);
    assert_eq!(mesh.index_format(), MeshIndexFormat::Uint32);
}

#[test]
fn explicit_defaults_give_the_same_signature() {
    let implicit = Mesh::new(3)
        .unwrap()
        .add_vertex_buffer_layout(layout(8, 0, VertexFormat::Float32x2, 0, None))
        .unwrap();
    let explicit = Mesh::new(3)
        .unwrap()
        .add_vertex_buffer_layout(VertexBufferLayoutDescriptor {
            array_stride: 8,
            attributes: vec![VertexAttributeDescriptor {
                shader_location: 0,
                format: VertexFormat::Float32x2,
                offset: 0,
            }],
            slot: Some(0),
            step_mode: Some(VertexStepMode::Vertex),
        })
        .unwrap();
    assert!(implicit.layout_signature().same_layout(&explicit.layout_signature()));
}

#[test]
fn index_buffer_must_hold_every_index() {
    let (device, _) = create_test_devices();
    let mut mesh = Mesh::new(4).unwrap();
    let small = Buffer { size: 10, usage: BufferUsage::index(), device };
    assert!(matches!(
        mesh.set_index_buffer(small, 6, MeshIndexFormat::Uint16),
        Err(BelfastError::IndexBufferTooSmall { required: 12, actual: 10 })
    ));
    let empty = Buffer { size: 12, usage: BufferUsage::index(), device };
    assert!(matches!(
        mesh.set_index_buffer(empty, 0, MeshIndexFormat::Uint16),
        Err(BelfastError::InvalidMeshIndexCount)
    ));
    let fitting = Buffer { size: 12, usage: BufferUsage::index(), device };
    mesh.set_index_buffer(fitting, 6, MeshIndexFormat::Uint16).unwrap();
    assert_eq!(mesh.index_count(), 6);
    assert!(mesh.device().unwrap().is_same(&device));
}

#[test]
fn binding_past_the_slot_limit_is_refused() {
    let (device, _) = create_test_devices();
    let mut mesh = Mesh::new(1).unwrap();
    for location in 0..16u32 {
        mesh = mesh.add_vertex_buffer_layout(layout(4, location, VertexFormat::Float32, 0, None)).unwrap();
    }
    let extra = VertexBufferBinding {
        buffer: float_buffer(&device, 1, BufferUsage::vertex()),
        array_stride: 4,
        attributes: vec![VertexAttributeDescriptor {
            shader_location: 16,
            format: VertexFormat::Float32,
            offset: 0,
        }],
        slot: None,
        step_mode: None,
    };
    assert!(matches!(
        mesh.add_vertex_buffer(extra),
        Err(BelfastError::VertexBufferSlotExceedsLimit { slot: 16, limit: 8 })
    ));
}

#[test]
fn too_many_attributes_exceed_the_device_limit() {
    let mut wide = limits();
    wide.max_vertex_buffers = 32;
    let device = Device::from_parts(3, wide, TextureFormat::Rgba8UnormSrgb, None);
    let mut mesh = Mesh::new(1).unwrap();
    for location in 0..16u32 {
        mesh = mesh.add_vertex_buffer_layout(layout(4, location, VertexFormat::Float32, 0, None)).unwrap();
    }
    let extra = VertexBufferBinding {
        buffer: float_buffer(&device, 1, BufferUsage::vertex()),
        array_stride: 4,
        attributes: vec![VertexAttributeDescriptor {
            shader_location: 16,
            format: VertexFormat::Float32,
            offset: 0,
        }],
        slot: None,
        step_mode: None,
    };
    assert!(matches!(
        mesh.add_vertex_buffer(extra),
        Err(BelfastError::VertexAttributeCountExceedsLimit { count: 17, limit: 16 })
    ));
}

#[test]
fn draw_tracks_creator_device_and_mesh_layout() {
    let (device, other_device) = create_test_devices();
    let cloned_device = device;
    assert!(device.is_same(&cloned_device));
    assert!(!device.is_same(&other_device));

    let make_mesh = |format: VertexFormat| {
        Mesh::new(3)
            .unwrap()
            .add_vertex_buffer_layout(layout(format.size(), 0, format, 0, None))
            .unwrap()
    };
    let mesh = make_mesh(VertexFormat::Float32x2);
    let matching_mesh = make_mesh(VertexFormat::Float32x2);
    let incompatible_mesh = make_mesh(VertexFormat::Float32x3);
    let draw = Draw::new(&device, &mesh);

    assert!(draw.device().is_same(&device));
    assert!(draw.is_compatible_mesh(&matching_mesh));
    assert!(!draw.is_compatible_mesh(&incompatible_mesh));
    assert!(matches!(
        draw.validate_for_render(&other_device, &matching_mesh),
        Err(BelfastError::DrawDeviceMismatch)
    ));
    assert_eq!(draw.validate_for_render(&other_device, &matching_mesh).unwrap_err().message(), "draw was created by a different device");
    assert!(matches!(
        draw.validate_for_render(&device, &incompatible_mesh),
        Err(BelfastError::DrawMeshLayoutMismatch)
    ));
    assert_eq!(draw.validate_for_render(&device, &incompatible_mesh).unwrap_err().message(), "mesh layout is incompatible with this draw");

    let foreign_buffer = float_buffer(&other_device, 6, BufferUsage::vertex());
    let foreign_mesh = Mesh::new(3)
        .unwrap()
        .add_vertex_buffer(VertexBufferBinding {
            buffer: foreign_buffer,
            array_stride: 8,
            attributes: vec![VertexAttributeDescriptor {
                shader_location: 0,
                format: VertexFormat::Float32x2,
                offset: 0,
            }],
            slot: None,
            step_mode: None,
        })
        .unwrap();
    assert!(matches!(
        Draw::validate_mesh_device(&device, &foreign_mesh),
        Err(BelfastError::MeshDeviceMismatch)
    ));
    assert_eq!(Draw::validate_mesh_device(&device, &foreign_mesh).unwrap_err().message(), "mesh contains resources created by a different device");
    assert!(matches!(
        draw.validate_for_render(&device, &foreign_mesh),
        Err(BelfastError::MeshDeviceMismatch)
    ));
    assert_eq!(draw.validate_for_render(&device, &foreign_mesh).unwrap_err().message(), "mesh contains resources created by a different device");
}

#[test]
fn attribute_formats_list_every_binding_in_slot_order() {
    let mesh = Mesh::new(3)
        .unwrap()
        .add_vertex_buffer_layout(layout(8, 0, VertexFormat::Float32x2, 0, None))
        .unwrap()
        .add_vertex_buffer_layout(layout(12, 1, VertexFormat::Float32x3, 0, None))
        .unwrap();
    assert_eq!(
        mesh.attribute_formats(),
        vec![(0, VertexFormat::Float32x2), (1, VertexFormat::Float32x3)]
    );
}

#[test]
fn draw_call_uses_indices_when_present() {
    let mut mesh = Mesh::new(4).unwrap();
    assert_eq!(
        Draw::draw_call(&mesh, 2),
        belfast::draw::DrawCall::Vertices { vertex_count: 4, instance_count: 2 }
    );
    mesh.set_index_buffer_metadata(6, MeshIndexFormat::Uint16).unwrap();
    assert_eq!(
        Draw::draw_call(&mesh, 1),
        belfast::draw::DrawCall::Indexed { index_count: 6, instance_count: 1 }
    );
}
