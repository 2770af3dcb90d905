use belfast::frame::{
    validate_axis_render_command, validate_dispatch_command, validate_render_command,
    validate_render_target, AxisKey, AxisValidation, BindGroupKey, BindGroupValidation,
    ComputeKey, ComputeValidation, DeviceKey, DrawKey, DrawValidation, FrameError, FramePlan,
    PlannedDrawable, PlannedLoadOp, PlannedOp, PlannedRenderCommand, PlannedRenderPass,
    RenderTargetValidation, TargetKey,
};
use belfast::TextureFormat;

type Color = [f64; 4];

fn clear(value: f64) -> Color {
    [value, value, value, 1.0]
}

fn default_clear() -> Color {
    [0.02, 0.025, 0.04, 1.0]
}

fn draw(key: u64, device: u64, requires_bind_group: bool) -> DrawValidation {
    DrawValidation { key: DrawKey(key), device: DeviceKey(device), requires_bind_group }
}

fn bind_group(key: u64, draw: u64, device: u64) -> BindGroupValidation {
    BindGroupValidation {
        key: BindGroupKey(key),
        draw: Some(DrawKey(draw)),
        compute: None,
        axis: None,
        device: DeviceKey(device),
    }
}

fn compute_bind_group(key: u64, compute: u64, device: u64) -> BindGroupValidation {
    BindGroupValidation {
        key: BindGroupKey(key),
        draw: None,
        compute: Some(ComputeKey(compute)),
        axis: None,
        device: DeviceKey(device),
    }
}

fn axis_bind_group(key: u64, axis: u64, device: u64) -> BindGroupValidation {
    BindGroupValidation {
        key: BindGroupKey(key),
        draw: None,
        compute: None,
        axis: Some(AxisKey(axis)),
        device: DeviceKey(device),
    }
}

fn axis(key: u64, device: u64) -> AxisValidation {
    AxisValidation { key: AxisKey(key), device: DeviceKey(device) }
}

fn compute(key: u64, device: u64, requires_bind_group: bool) -> ComputeValidation {
    ComputeValidation { key: ComputeKey(key), device: DeviceKey(device), requires_bind_group }
}

fn render_pass(op: &PlannedOp<Color>) -> &PlannedRenderPass<Color> {
    match op {
        PlannedOp::RenderPass(pass) => pass,
        PlannedOp::Compute { .. } => panic!("expected render pass"),
    }
}

#[test]
fn binding_a_new_target_closes_the_previous_logical_pass() {
    let mut plan = FramePlan::new();
    plan.bind_target(TargetKey::Offscreen(7), clear(0.1));
    plan.render(DrawKey(1), None).unwrap();
    plan.bind_target(TargetKey::Canvas, clear(0.0));
    plan.render(DrawKey(2), Some(BindGroupKey(3))).unwrap();

    let ops = plan.finish(default_clear()).unwrap();
    assert_eq!(ops.len(), 2);
    assert_eq!(render_pass(&ops[0]).target, TargetKey::Offscreen(7));
    assert_eq!(render_pass(&ops[0]).load_op, PlannedLoadOp::Clear);
    assert_eq!(render_pass(&ops[1]).target, TargetKey::Canvas);
    assert_eq!(render_pass(&ops[1]).load_op, PlannedLoadOp::Clear);
}

#[test]
fn render_without_bind_defaults_to_canvas() {
    let mut plan = FramePlan::new();
    plan.render(DrawKey(1), None).unwrap();
    let ops = plan.finish(default_clear()).unwrap();
    assert_eq!(render_pass(&ops[0]).target, TargetKey::Canvas);
    assert_eq!(render_pass(&ops[0]).clear_color, default_clear());
}

#[test]
fn empty_frame_is_rejected() {
    assert_eq!(FramePlan::<Color>::new().finish(default_clear()), Err(FrameError::EmptyFrame));
}

#[test]
fn compute_only_frame_is_valid() {
    let mut plan = FramePlan::new();
    plan.dispatch(ComputeKey(1), None, [1, 1, 1]).unwrap();
    assert_eq!(
        plan.finish(default_clear()).unwrap(),
        vec![PlannedOp::Compute { compute: ComputeKey(1), bind_group: None, workgroups: [1, 1, 1] }]
    );
}

#[test]
fn compute_splits_render_pass_and_reopens_with_load() {
    let mut plan = FramePlan::new();
    plan.bind_target(TargetKey::Canvas, clear(0.2));
    plan.render(DrawKey(1), None).unwrap();
    plan.dispatch(ComputeKey(7), Some(BindGroupKey(8)), [4, 1, 1]).unwrap();
    plan.render(DrawKey(2), None).unwrap();

    let ops = plan.finish(default_clear()).unwrap();
    assert_eq!(ops.len(), 3);
    assert_eq!(render_pass(&ops[0]).load_op, PlannedLoadOp::Clear);
    assert_eq!(
        ops[1],
        PlannedOp::Compute {
            compute: ComputeKey(7),
            bind_group: Some(BindGroupKey(8)),
            workgroups: [4, 1, 1],
        }
    );
    assert_eq!(render_pass(&ops[2]).load_op, PlannedLoadOp::Load);
    assert_eq!(render_pass(&ops[2]).target, TargetKey::Canvas);
}

#[test]
fn bind_target_after_compute_clears_again() {
    let mut plan = FramePlan::new();
    plan.bind_target(TargetKey::Canvas, clear(0.2));
    plan.render(DrawKey(1), None).unwrap();
    plan.dispatch(ComputeKey(7), None, [1, 1, 1]).unwrap();
    plan.bind_target(TargetKey::Canvas, clear(0.9));
    plan.render(DrawKey(2), None).unwrap();

    let ops = plan.finish(default_clear()).unwrap();
    assert_eq!(render_pass(&ops[2]).load_op, PlannedLoadOp::Clear);
    assert_eq!(render_pass(&ops[2]).clear_color, clear(0.9));
}

#[test]
fn missing_required_bind_group_is_rejected() {
    assert_eq!(
        validate_render_command(DeviceKey(1), draw(2, 1, true), None),
        Err(FrameError::DrawRequiresBindGroup)
    );
    assert_eq!(
        validate_dispatch_command(DeviceKey(1), compute(2, 1, true), None),
        Err(FrameError::ComputeRequiresBindGroup)
    );
}

#[test]
fn unexpected_bind_group_is_rejected() {
    assert_eq!(
        validate_render_command(DeviceKey(1), draw(2, 1, false), Some(bind_group(3, 2, 1))),
        Err(FrameError::DrawRejectsBindGroup)
    );
    assert_eq!(
        validate_dispatch_command(DeviceKey(1), compute(2, 1, false), Some(compute_bind_group(3, 2, 1))),
        Err(FrameError::ComputeRejectsBindGroup)
    );
}

#[test]
fn bind_group_for_a_different_draw_is_rejected() {
    assert_eq!(
        validate_render_command(DeviceKey(1), draw(2, 1, true), Some(bind_group(3, 4, 1))),
        Err(FrameError::BindGroupForOtherDraw)
    );
    assert_eq!(
        validate_dispatch_command(DeviceKey(1), compute(2, 1, true), Some(compute_bind_group(3, 4, 1))),
        Err(FrameError::BindGroupForOtherCompute)
    );
}

#[test]
fn axis_helper_joins_the_current_render_pass() {
    let mut plan = FramePlan::new();
    plan.bind_target(TargetKey::Canvas, clear(0.2));
    plan.render(DrawKey(1), None).unwrap();
    plan.render_axis(AxisKey(2), BindGroupKey(3)).unwrap();

    let ops = plan.finish(default_clear()).unwrap();
    let commands = &render_pass(&ops[0]).commands;
    assert_eq!(commands.len(), 2);
    assert_eq!(
        commands[1],
        PlannedRenderCommand {
            drawable: PlannedDrawable::Axis(AxisKey(2)),
            bind_group: Some(BindGroupKey(3)),
        }
    );
}

#[test]
fn axis_helper_requires_its_own_bind_group() {
    assert_eq!(
        validate_axis_render_command(DeviceKey(1), axis(2, 1), None),
        Err(FrameError::AxisRequiresBindGroup)
    );
    assert_eq!(
        validate_axis_render_command(DeviceKey(1), axis(2, 1), Some(axis_bind_group(3, 4, 1))),
        Err(FrameError::BindGroupForOtherAxis)
    );
    assert_eq!(
        validate_axis_render_command(DeviceKey(1), axis(2, 9), Some(axis_bind_group(3, 2, 1))),
        Err(FrameError::AxisDeviceMismatch)
    );
}

#[test]
fn resource_from_a_different_device_is_rejected() {
    assert_eq!(
        validate_render_command(DeviceKey(1), draw(2, 9, false), None),
        Err(FrameError::DrawDeviceMismatch)
    );
    assert_eq!(
        validate_render_command(DeviceKey(1), draw(2, 1, true), Some(bind_group(3, 2, 9))),
        Err(FrameError::BindGroupDeviceMismatch)
    );
    assert_eq!(
        validate_dispatch_command(DeviceKey(1), compute(2, 9, false), None),
        Err(FrameError::ComputeDeviceMismatch)
    );
    assert_eq!(
        validate_dispatch_command(DeviceKey(1), compute(2, 1, true), Some(compute_bind_group(3, 2, 9))),
        Err(FrameError::BindGroupDeviceMismatch)
    );
    assert_eq!(
        validate_render_target(
            DeviceKey(1),
            TextureFormat::Bgra8UnormSrgb,
            RenderTargetValidation { device: DeviceKey(9), format: TextureFormat::Bgra8UnormSrgb },
        ),
        Err(FrameError::RenderTargetDeviceMismatch)
    );
}

#[test]
fn mismatched_render_target_format_is_rejected() {
    assert_eq!(
        validate_render_target(
            DeviceKey(1),
            TextureFormat::Bgra8UnormSrgb,
            RenderTargetValidation { device: DeviceKey(1), format: TextureFormat::Rgba8Unorm },
        ),
        Err(FrameError::RenderTargetFormatMismatch)
    );
}

#[test]
fn accepted_commands_pass_every_check() {
    assert_eq!(validate_render_command(DeviceKey(1), draw(2, 1, true), Some(bind_group(3, 2, 1))), Ok(()));
    assert_eq!(validate_render_command(DeviceKey(1), draw(2, 1, false), None), Ok(()));
    assert_eq!(validate_axis_render_command(DeviceKey(1), axis(2, 1), Some(axis_bind_group(3, 2, 1))), Ok(()));
    assert_eq!(validate_dispatch_command(DeviceKey(1), compute(2, 1, false), None), Ok(()));
}

#[test]
fn draws_on_one_target_share_a_pass_and_a_target_switch_splits() {
    let mut plan = FramePlan::new();
    plan.render(DrawKey(1), None).unwrap();
    plan.render(DrawKey(2), None).unwrap();
    plan.bind_target(TargetKey::Offscreen(4), clear(0.5));
    plan.bind_target(TargetKey::Canvas, clear(0.3));
    plan.render(DrawKey(3), None).unwrap();
    let ops = plan.finish(default_clear()).unwrap();
    assert_eq!(ops.len(), 2);
    assert_eq!(render_pass(&ops[0]).commands.len(), 2);
    assert_eq!(render_pass(&ops[1]).target, TargetKey::Canvas);
    assert_eq!(render_pass(&ops[1]).load_op, PlannedLoadOp::Clear);
    assert_eq!(render_pass(&ops[1]).clear_color, clear(0.3));
}

#[test]
fn a_bound_target_without_draws_plans_nothing() {
    let mut plan = FramePlan::new();
    plan.bind_target(TargetKey::Canvas, clear(0.3));
    assert_eq!(plan.finish(default_clear()), Err(FrameError::EmptyFrame));
}

#[test]
fn frame_errors_read_as_the_messages_users_see() {
    assert_eq!(FrameError::EmptyFrame.message(), "frame contains no commands");
    assert_eq!(FrameError::DrawRequiresBindGroup.message(), "draw requires a bind group");
    assert_eq!(
        FrameError::RenderTargetFormatMismatch.message(),
        "render target format does not match frame format"
    );
}
