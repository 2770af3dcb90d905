use belfast::gpu::{check_buffer_write, check_float_write, BufferError};
use belfast::presentation::{
    check_surface_size_limit, surface_action, GpuError, PendingGpuErrors, SurfaceAction,
    SurfaceError, SurfaceLease, SurfaceStatus,
};
use belfast::render_target::{
    render_target_size_changed, validate_render_target_dimensions, RenderTargetError,
};
use belfast::surface::{SurfaceCapabilities, SurfaceColorSpace, SurfaceFormatCapabilities, COLOR_SPACE_EXTENDED_SRGB, COLOR_SPACE_EXTENDED_SRGB_LINEAR, COLOR_SPACE_SRGB};
use belfast::texture::TEXTURE_USAGE_RENDER_ATTACHMENT;
use belfast::{
    pick_surface_color, BelfastError, Buffer, BufferUsage, Device, DeviceLimits, RenderTarget,
    RenderTargetOptions, SurfaceColorChoice, Texture, TextureFormat, TextureOptions,
};

fn limits() -> DeviceLimits {
    DeviceLimits {
        max_vertex_buffers: 8,
        max_vertex_buffer_array_stride: 2048,
        max_vertex_attributes: 16,
        max_texture_dimension_2d: 8192,
        max_inter_stage_shader_variables: 16,
        min_uniform_buffer_offset_alignment: 256,
        min_storage_buffer_offset_alignment: 256,
    }
}

fn device(id: u64) -> Device {
    Device::from_parts(id, limits(), TextureFormat::Rgba8UnormSrgb, None)
}

#[test]
fn device_wraps_an_existing_wgpu_device_and_format() {
    let device = device(1);
    assert_eq!(device.format(), TextureFormat::Rgba8UnormSrgb);
    assert!(!device.hdr());
    let hdr = Device::from_parts(2, limits(), TextureFormat::Rgba16Float, Some(true));
    assert!(hdr.hdr());
}

fn caps(formats: Vec<TextureFormat>, format_capabilities: Vec<(TextureFormat, u32)>) -> SurfaceCapabilities {
    SurfaceCapabilities {
        formats,
        format_capabilities: format_capabilities
            .into_iter()
            .map(|(format, color_spaces)| SurfaceFormatCapabilities { format, color_spaces })
            .collect(),
    }
}

#[test]
fn sdr_prefers_first_srgb_format_and_auto() {
    let caps = caps(
        vec![TextureFormat::Rgba8Unorm, TextureFormat::Bgra8UnormSrgb],
        vec![(TextureFormat::Rgba8Unorm, COLOR_SPACE_SRGB), (TextureFormat::Bgra8UnormSrgb, COLOR_SPACE_SRGB)],
    );
    assert_eq!(
        pick_surface_color(&caps, false),
        SurfaceColorChoice { format: TextureFormat::Bgra8UnormSrgb, color_space: SurfaceColorSpace::Auto, hdr: false }
    );
}

#[test]
fn hdr_prefers_linear_scrgb_when_available() {
    let caps = caps(
        vec![TextureFormat::Bgra8UnormSrgb, TextureFormat::Rgba16Float],
        vec![
            (TextureFormat::Bgra8UnormSrgb, COLOR_SPACE_SRGB),
            (TextureFormat::Rgba16Float, COLOR_SPACE_EXTENDED_SRGB_LINEAR | COLOR_SPACE_EXTENDED_SRGB),
        ],
    );
    assert_eq!(
        pick_surface_color(&caps, true),
        SurfaceColorChoice {
            format: TextureFormat::Rgba16Float,
            color_space: SurfaceColorSpace::ExtendedSrgbLinear,
            hdr: true
        }
    );
}

#[test]
fn hdr_falls_back_to_encoded_extended_srgb() {
    let caps = caps(
        vec![TextureFormat::Rgba8UnormSrgb, TextureFormat::Rgba16Float],
        vec![(TextureFormat::Rgba8UnormSrgb, COLOR_SPACE_SRGB), (TextureFormat::Rgba16Float, COLOR_SPACE_EXTENDED_SRGB)],
    );
    assert_eq!(
        pick_surface_color(&caps, true),
        SurfaceColorChoice { format: TextureFormat::Rgba16Float, color_space: SurfaceColorSpace::ExtendedSrgb, hdr: true }
    );
}

#[test]
fn hdr_falls_back_to_sdr_when_no_hdr_space() {
    let caps = caps(vec![TextureFormat::Bgra8UnormSrgb], vec![(TextureFormat::Bgra8UnormSrgb, COLOR_SPACE_SRGB)]);
    assert_eq!(
        pick_surface_color(&caps, true),
        SurfaceColorChoice { format: TextureFormat::Bgra8UnormSrgb, color_space: SurfaceColorSpace::Auto, hdr: false }
    );
}

#[test]
fn hdr_can_pick_float_format_only_listed_in_format_capabilities() {
    let caps = caps(
        vec![TextureFormat::Bgra8UnormSrgb],
        vec![(TextureFormat::Bgra8UnormSrgb, COLOR_SPACE_SRGB), (TextureFormat::Rgba16Float, COLOR_SPACE_EXTENDED_SRGB_LINEAR)],
    );
    assert_eq!(
        pick_surface_color(&caps, true),
        SurfaceColorChoice {
            format: TextureFormat::Rgba16Float,
            color_space: SurfaceColorSpace::ExtendedSrgbLinear,
            hdr: true
        }
    );
}

#[test]
fn sdr_falls_back_to_first_format_then_bgra() {
    let caps_linear = caps(vec![TextureFormat::Rgba8Unorm], vec![]);
    assert_eq!(pick_surface_color(&caps_linear, false).format, TextureFormat::Rgba8Unorm);
    let empty = caps(vec![], vec![]);
    assert_eq!(pick_surface_color(&empty, true).format, TextureFormat::Bgra8UnormSrgb);
    let other = caps(vec![TextureFormat::Other { code: 9, srgb: true }], vec![]);
    assert_eq!(pick_surface_color(&other, false).format, TextureFormat::Other { code: 9, srgb: true });
}

#[test]
fn rejects_dimensions_above_max_texture_dimension() {
    assert!(matches!(
        check_surface_size_limit(Some((4097, 2048)), 4096),
        Err(SurfaceError::SizeExceedsLimit { width: 4097, height: 2048, limit: 4096 })
    ));
    assert_eq!(check_surface_size_limit(Some((4096, 2048)), 4096).unwrap(), Some((4096, 2048)));
    assert_eq!(check_surface_size_limit(None, 4096).unwrap(), None);
}

#[test]
fn captures_uncaptured_gpu_errors_for_the_next_api_boundary() {
    let mut pending = PendingGpuErrors::new();
    pending.record(GpuError::Validation("bad pipeline".into()));
    assert!(matches!(pending.take(), Some(GpuError::Validation(message)) if message == "bad pipeline"));
    assert!(pending.take().is_none());
}

#[test]
fn labels_out_of_memory_as_a_fatal_gpu_error() {
    let mut pending = PendingGpuErrors::new();
    pending.record(GpuError::OutOfMemory);
    pending.record(GpuError::Internal("later".into()));
    assert!(matches!(pending.take(), Some(GpuError::OutOfMemory)));
}

#[test]
fn surface_lease_rejects_overlap_until_the_active_guard_drops() {
    let mut lease = SurfaceLease::default();
    let mut guard = lease.acquire().unwrap();
    assert!(matches!(lease.acquire(), Err(SurfaceError::SurfaceInUse)));
    assert!(matches!(lease.ensure_available(), Err(SurfaceError::SurfaceInUse)));
    lease.release(&mut guard);
    assert!(lease.acquire().is_ok());
}

#[test]
fn surface_lease_can_be_released_before_reconfiguration() {
    let mut lease = SurfaceLease::default();
    let mut guard = lease.acquire().unwrap();
    lease.release(&mut guard);
    lease.release(&mut guard);
    assert!(lease.ensure_available().is_ok());
    assert!(lease.acquire().is_ok());
}

#[test]
fn surface_statuses_decide_the_frame() {
    let mut pending = PendingGpuErrors::new();
    assert!(matches!(
        surface_action(SurfaceStatus::Suboptimal, &mut pending),
        SurfaceAction::Render { reconfigure_after_present: true }
    ));
    assert!(matches!(surface_action(SurfaceStatus::Occluded, &mut pending), SurfaceAction::Skip));
    assert!(matches!(surface_action(SurfaceStatus::Outdated, &mut pending), SurfaceAction::ReconfigureAndSkip));
    assert!(matches!(surface_action(SurfaceStatus::Lost, &mut pending), SurfaceAction::RecreateAndSkip));
    pending.record(GpuError::Internal("gone".into()));
    assert!(matches!(
        surface_action(SurfaceStatus::Lost, &mut pending),
        SurfaceAction::Fail(SurfaceError::Gpu(GpuError::Internal(message))) if message == "gone"
    ));
    assert!(matches!(
        surface_action(SurfaceStatus::Validation, &mut pending),
        SurfaceAction::Fail(SurfaceError::Validation(None))
    ));
}

#[test]
fn render_target_dimensions_must_be_positive() {
    assert_eq!(validate_render_target_dimensions(0, 180, 4096), Err(RenderTargetError::ZeroDimension));
    assert_eq!(validate_render_target_dimensions(320, 0, 4096), Err(RenderTargetError::ZeroDimension));
}

#[test]
fn render_target_dimensions_must_fit_the_device_limit() {
    assert!(validate_render_target_dimensions(4096, 4096, 4096).is_ok());
    assert_eq!(
        validate_render_target_dimensions(4097, 2048, 4096),
        Err(RenderTargetError::ExceedsLimit { width: 4097, height: 2048, limit: 4096 })
    );
}

#[test]
fn resize_reports_only_dimension_changes() {
    assert!(!render_target_size_changed(320, 180, 320, 180));
    assert!(render_target_size_changed(320, 180, 640, 360));
}

#[test]
fn render_target_options_clamp_dimensions_and_default_format() {
    let options = RenderTargetOptions { width: 0, height: 0, ..Default::default() };
    assert_eq!(options.resolved_width(), 1);
    assert_eq!(options.resolved_height(), 1);
    assert_eq!(options.format, None);
    assert_eq!(options.sample_count, 1);
    assert!(!options.with_depth);
    assert_eq!(options.depth_format, TextureFormat::Depth24Plus);
}

#[test]
fn render_target_tracks_depth_metadata() {
    let options = RenderTargetOptions {
        width: 320,
        height: 180,
        format: Some(TextureFormat::Rgba16Float),
        with_depth: true,
        depth_format: TextureFormat::Depth32Float,
        ..Default::default()
    };
    assert_eq!(options.resolved_width(), 320);
    assert_eq!(options.resolved_height(), 180);
    assert_eq!(options.format, Some(TextureFormat::Rgba16Float));
    assert!(options.with_depth);
    assert_eq!(options.depth_format, TextureFormat::Depth32Float);
}

#[test]
fn render_target_tracks_creator_device_after_resize() {
    let device = device(1);
    let mut target = RenderTarget::create(&device, RenderTargetOptions { width: 8, height: 4, ..Default::default() });
    assert!(target.resize(16, 12));
    assert!(target.device().is_same(&device));
    assert_eq!((target.width(), target.height()), (16, 12));
}

#[test]
fn render_target_create_and_resize_update_metadata() {
    let device = device(1);
    let mut target = RenderTarget::create(
        &device,
        RenderTargetOptions {
            width: 8,
            height: 4,
            with_depth: true,
            depth_format: TextureFormat::Depth24Plus,
            ..Default::default()
        },
    );
    assert_eq!(target.width(), 8);
    assert_eq!(target.height(), 4);
    assert_eq!(target.format(), device.format());
    assert_eq!(target.depth_format(), Some(TextureFormat::Depth24Plus));
    assert!(target.attachment_plan().with_depth);
    assert!(target.resize(0, 16));
    assert!(!target.resize(1, 16));
    assert_eq!(target.width(), 1);
    assert_eq!(target.height(), 16);
    assert!(target.texture_plan().depth.is_some());
}

#[test]
fn multisampled_targets_resolve_into_the_color_texture() {
    let device = device(1);
    let target = RenderTarget::create(&device, RenderTargetOptions { width: 4, height: 4, sample_count: 4, ..Default::default() });
    let plan = target.texture_plan();
    assert_eq!(plan.color.sample_count, 1);
    assert_eq!(plan.multisampled_color.unwrap().sample_count, 4);
    assert_eq!(plan.multisampled_color.unwrap().usage, TEXTURE_USAGE_RENDER_ATTACHMENT);
    assert!(plan.depth.is_none());
    assert!(target.attachment_plan().resolve_to_color);
}

#[test]
fn texture_tracks_creator_device() {
    let first = device(1);
    let second = device(2);
    let texture = Texture::create_2d(&first, 4, 8, TextureOptions::default()).unwrap();
    assert!(texture.device().is_same(&first));
    assert!(!texture.device().is_same(&second));
    assert_eq!(texture.width(), 4);
    assert_eq!(texture.height(), 8);
}

#[test]
fn rejects_texture_dimensions_exceeding_device_limit() {
    let device = device(1);
    let limit = device.limits.max_texture_dimension_2d;
    let width = limit.checked_add(1).expect("device texture limit must be below u32::MAX");
    let result = Texture::create_2d(&device, width, 1, TextureOptions::default());
    assert!(matches!(
        result,
        Err(BelfastError::TextureDimensionsExceedLimit { width: actual_width, height: 1, limit: actual_limit })
            if actual_width == width && actual_limit == limit
    ));
    assert_eq!(
        result.err().unwrap().message(),
        format!("texture dimensions {width}x1 exceed device limit {limit}")
    );
}

#[test]
fn rejects_zero_sized_rgba_textures() {
    let device = device(1);
    let result = Texture::from_rgba8(&device, 0, 4, &[], TextureOptions::default());
    assert!(matches!(result, Err(BelfastError::InvalidTextureDimensions { width: 0, height: 4 })));
    assert_eq!(result.err().unwrap().message(), "texture dimensions must be greater than 0, got 0x4");
}

#[test]
fn rejects_incorrect_rgba_byte_length() {
    let device = device(1);
    let result = Texture::from_rgba8(&device, 2, 2, &[255; 15], TextureOptions::default());
    assert!(matches!(result, Err(BelfastError::InvalidTextureDataLength { expected: 16, actual: 15 })));
    assert_eq!(result.err().unwrap().message(), "RGBA texture data requires 16 bytes, got 15");
}

#[test]
fn uploads_rgba_texture_and_exposes_metadata() {
    let device = device(1);
    let texture = Texture::from_rgba8(&device, 2, 1, &[255, 0, 0, 255, 0, 255, 0, 255], TextureOptions::default())
        .expect("valid texture");
    assert_eq!(texture.width(), 2);
    assert_eq!(texture.height(), 1);
    assert_eq!(texture.format(), TextureFormat::Rgba8UnormSrgb);
}

#[test]
fn buffer_writes_stay_on_their_device_and_within_size() {
    let first = device(1);
    let second = device(2);
    let buffer = Buffer { size: 16, usage: BufferUsage::uniform(), device: first };
    assert_eq!(check_buffer_write(&buffer, &first, 16), Ok(()));
    assert_eq!(check_buffer_write(&buffer, &first, 17), Err(BufferError::ExceedsSize));
    assert_eq!(check_buffer_write(&buffer, &second, 4), Err(BufferError::DeviceMismatch));
    assert_eq!(check_float_write(&buffer, &first, 4), Ok(()));
    assert_eq!(check_float_write(&buffer, &first, 5), Err(BufferError::ExceedsSize));
    assert_eq!(check_float_write(&buffer, &first, u64::MAX), Err(BufferError::ExceedsSize));
}

#[test]
fn lease_guard_reports_whether_it_still_holds_the_surface() {
    let mut lease = SurfaceLease::default();
    let mut guard = lease.acquire().unwrap();
    assert!(guard.held());
    lease.release(&mut guard);
    assert!(!guard.held());
    let mut second = lease.acquire().unwrap();
    lease.release(&mut guard);
    assert!(matches!(lease.ensure_available(), Err(SurfaceError::SurfaceInUse)));
    lease.release(&mut second);
    assert!(lease.ensure_available().is_ok());
}

#[test]
fn a_new_lease_is_free_until_a_frame_acquires_it() {
    let mut lease = SurfaceLease::new();
    assert!(!lease.is_active());
    let mut guard = lease.acquire().unwrap();
    assert!(lease.is_active());
    lease.release(&mut guard);
    assert!(!lease.is_active());
}

#[test]
fn surface_errors_read_as_the_messages_users_see() {
    assert_eq!(SurfaceError::SurfaceInUse.message(), "canvas surface is owned by an active frame");
    assert_eq!(
        SurfaceError::SizeExceedsLimit { width: 9000, height: 20, limit: 8192 }.message(),
        "surface dimensions 9000x20 exceed limit 8192"
    );
    assert_eq!(SurfaceError::Validation(None).message(), "canvas surface validation failed");
    assert_eq!(
        SurfaceError::Gpu(GpuError::Validation("bad pass".to_string())).message(),
        "WebGPU validation error: bad pass"
    );
    assert_eq!(
        GpuError::DeviceLost { reason: "destroyed".to_string(), message: "gone".to_string() }.message(),
        "WebGPU device lost (destroyed): gone"
    );
}
