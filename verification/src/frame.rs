use vstd::prelude::*;
use vstd::string::StringExecFns;

use crate::texture::TextureFormat;

verus! {

/// Identity of a device within a frame.
#[derive(Clone, Copy, Debug, PartialEq, Eq, Hash, Structural)]
pub struct DeviceKey(pub u64);

/// Identity of a draw.
#[derive(Clone, Copy, Debug, PartialEq, Eq, Hash, Structural)]
pub struct DrawKey(pub u64);

/// Identity of an axis helper.
#[derive(Clone, Copy, Debug, PartialEq, Eq, Hash, Structural)]
pub struct AxisKey(pub u64);

/// Identity of a compute pipeline.
#[derive(Clone, Copy, Debug, PartialEq, Eq, Hash, Structural)]
pub struct ComputeKey(pub u64);

/// Identity of a bind group.
#[derive(Clone, Copy, Debug, PartialEq, Eq, Hash, Structural)]
pub struct BindGroupKey(pub u64);

/// Where a render pass draws: the canvas or an offscreen render target.
#[derive(Clone, Copy, Debug, PartialEq, Eq, Hash, Structural)]
pub enum TargetKey {
    Canvas,
    Offscreen(u64),
}

/// What a frame checks of a draw.
#[derive(Clone, Copy, Debug, PartialEq, Eq, Structural)]
pub struct DrawValidation {
    pub key: DrawKey,
    pub device: DeviceKey,
    pub requires_bind_group: bool,
}

/// What a frame checks of an axis helper.
#[derive(Clone, Copy, Debug, PartialEq, Eq, Structural)]
pub struct AxisValidation {
    pub key: AxisKey,
    pub device: DeviceKey,
}

/// What a frame checks of a compute pipeline.
#[derive(Clone, Copy, Debug, PartialEq, Eq, Structural)]
pub struct ComputeValidation {
    pub key: ComputeKey,
    pub device: DeviceKey,
    pub requires_bind_group: bool,
}

/// What a frame checks of a bind group: its device and what it was made for.
#[derive(Clone, Copy, Debug, PartialEq, Eq, Structural)]
pub struct BindGroupValidation {
    pub key: BindGroupKey,
    pub draw: Option<DrawKey>,
    pub compute: Option<ComputeKey>,
    pub axis: Option<AxisKey>,
    pub device: DeviceKey,
}

/// What a frame checks of a render target.
#[derive(Clone, Copy, Debug, PartialEq, Eq, Structural)]
pub struct RenderTargetValidation {
    pub device: DeviceKey,
    pub format: TextureFormat,
}

/// Why a frame command was refused.
#[derive(Clone, Copy, Debug, PartialEq, Eq, Structural)]
pub enum FrameError {
    DrawDeviceMismatch,
    DrawRequiresBindGroup,
    DrawRejectsBindGroup,
    BindGroupDeviceMismatch,
    BindGroupForOtherDraw,
    AxisDeviceMismatch,
    AxisRequiresBindGroup,
    BindGroupForOtherAxis,
    ComputeDeviceMismatch,
    ComputeRequiresBindGroup,
    ComputeRejectsBindGroup,
    BindGroupForOtherCompute,
    RenderTargetDeviceMismatch,
    RenderTargetFormatMismatch,
    EmptyFrame,
}

/// The error rendering `draw` with `bind_group` in a frame of `frame_device`
/// raises, if any.
pub open spec fn spec_render_command_error(
    frame_device: DeviceKey,
    draw: DrawValidation,
    bind_group: Option<BindGroupValidation>,
) -> Option<FrameError> {
    if draw.device != frame_device {
        Some(FrameError::DrawDeviceMismatch)
    } else {
        match (draw.requires_bind_group, bind_group) {
            (true, None) => Some(FrameError::DrawRequiresBindGroup),
            (false, Some(_)) => Some(FrameError::DrawRejectsBindGroup),
            (false, None) => None,
            (true, Some(b)) => if b.device != frame_device {
                Some(FrameError::BindGroupDeviceMismatch)
            } else if b.draw != Some(draw.key) {
                Some(FrameError::BindGroupForOtherDraw)
            } else {
                None
            },
        }
    }
}

/// Checks that a draw and its bind group belong to the frame's device and
/// to each other.
pub fn validate_render_command(
    frame_device: DeviceKey,
    draw: DrawValidation,
    bind_group: Option<BindGroupValidation>,
) -> (checked: Result<(), FrameError>)
    ensures
        match spec_render_command_error(frame_device, draw, bind_group) {
            Some(e) => checked == Err::<(), FrameError>(e),
            None => checked is Ok,
        },
{
    if draw.device != frame_device {
        return Err(FrameError::DrawDeviceMismatch);
    }
    match (draw.requires_bind_group, bind_group) {
        (true, None) => Err(FrameError::DrawRequiresBindGroup),
        (false, Some(_)) => Err(FrameError::DrawRejectsBindGroup),
        (false, None) => Ok(()),
        (true, Some(b)) => {
            if b.device != frame_device {
                return Err(FrameError::BindGroupDeviceMismatch);
            }
            if b.draw != Some(draw.key) {
                return Err(FrameError::BindGroupForOtherDraw);
            }
            Ok(())
        },
    }
}

/// The error rendering an axis helper with `bind_group` raises, if any.
pub open spec fn spec_axis_command_error(
    frame_device: DeviceKey,
    axis: AxisValidation,
    bind_group: Option<BindGroupValidation>,
) -> Option<FrameError> {
    if axis.device != frame_device {
        Some(FrameError::AxisDeviceMismatch)
    } else {
        match bind_group {
            None => Some(FrameError::AxisRequiresBindGroup),
            Some(b) => if b.device != frame_device {
                Some(FrameError::BindGroupDeviceMismatch)
            } else if b.axis != Some(axis.key) {
                Some(FrameError::BindGroupForOtherAxis)
            } else {
                None
            },
        }
    }
}

/// Checks that an axis helper and its bind group belong to the frame's
/// device and to each other.
pub fn validate_axis_render_command(
    frame_device: DeviceKey,
    axis: AxisValidation,
    bind_group: Option<BindGroupValidation>,
) -> (checked: Result<(), FrameError>)
    ensures
        match spec_axis_command_error(frame_device, axis, bind_group) {
            Some(e) => checked == Err::<(), FrameError>(e),
            None => checked is Ok,
        },
{
    if axis.device != frame_device {
        return Err(FrameError::AxisDeviceMismatch);
    }
    let b = match bind_group {
        Some(b) => b,
        None => return Err(FrameError::AxisRequiresBindGroup),
    };
    if b.device != frame_device {
        return Err(FrameError::BindGroupDeviceMismatch);
    }
    if b.axis != Some(axis.key) {
        return Err(FrameError::BindGroupForOtherAxis);
    }
    Ok(())
}

/// The error dispatching `compute` with `bind_group` raises, if any.
pub open spec fn spec_dispatch_command_error(
    frame_device: DeviceKey,
    compute: ComputeValidation,
    bind_group: Option<BindGroupValidation>,
) -> Option<FrameError> {
    if compute.device != frame_device {
        Some(FrameError::ComputeDeviceMismatch)
    } else {
        match (compute.requires_bind_group, bind_group) {
            (true, None) => Some(FrameError::ComputeRequiresBindGroup),
            (false, Some(_)) => Some(FrameError::ComputeRejectsBindGroup),
            (false, None) => None,
            (true, Some(b)) => if b.device != frame_device {
                Some(FrameError::BindGroupDeviceMismatch)
            } else if b.compute != Some(compute.key) {
                Some(FrameError::BindGroupForOtherCompute)
            } else {
                None
            },
        }
    }
}

/// Checks that a compute pipeline and its bind group belong to the frame's
/// device and to each other.
pub fn validate_dispatch_command(
    frame_device: DeviceKey,
    compute: ComputeValidation,
    bind_group: Option<BindGroupValidation>,
) -> (checked: Result<(), FrameError>)
    ensures
        match spec_dispatch_command_error(frame_device, compute, bind_group) {
            Some(e) => checked == Err::<(), FrameError>(e),
            None => checked is Ok,
        },
{
    if compute.device != frame_device {
        return Err(FrameError::ComputeDeviceMismatch);
    }
    match (compute.requires_bind_group, bind_group) {
        (true, None) => Err(FrameError::ComputeRequiresBindGroup),
        (false, Some(_)) => Err(FrameError::ComputeRejectsBindGroup),
        (false, None) => Ok(()),
        (true, Some(b)) => {
            if b.device != frame_device {
                return Err(FrameError::BindGroupDeviceMismatch);
            }
            if b.compute != Some(compute.key) {
                return Err(FrameError::BindGroupForOtherCompute);
            }
            Ok(())
        },
    }
}

/// Checks that a render target belongs to the frame's device and has the
/// frame's format.
pub fn validate_render_target(
    frame_device: DeviceKey,
    frame_format: TextureFormat,
    target: RenderTargetValidation,
) -> (checked: Result<(), FrameError>)
    ensures
        target.device != frame_device ==> checked == Err::<(), FrameError>(
            FrameError::RenderTargetDeviceMismatch,
        ),
        target.device == frame_device && target.format != frame_format ==> checked == Err::<
            (),
            FrameError,
        >(FrameError::RenderTargetFormatMismatch),
        target.device == frame_device && target.format == frame_format ==> checked is Ok,
{
    if target.device != frame_device {
        return Err(FrameError::RenderTargetDeviceMismatch);
    }
    if target.format != frame_format {
        return Err(FrameError::RenderTargetFormatMismatch);
    }
    Ok(())
}

} // verus!

verus! {

/// Whether a render pass clears its target or keeps what is there.
#[derive(Clone, Copy, Debug, PartialEq, Eq, Structural)]
pub enum PlannedLoadOp {
    Clear,
    Load,
}

/// What a render command draws.
#[derive(Clone, Copy, Debug, PartialEq, Eq, Structural)]
pub enum PlannedDrawable {
    Draw(DrawKey),
    Axis(AxisKey),
}

/// One draw within a render pass.
#[derive(Clone, Copy, Debug, PartialEq, Eq, Structural)]
pub struct PlannedRenderCommand {
    pub drawable: PlannedDrawable,
    pub bind_group: Option<BindGroupKey>,
}

/// A render pass of a frame: its target, how it loads the target, the
/// clear color and its draws in order.
#[derive(Clone, Debug, PartialEq)]
pub struct PlannedRenderPass<C> {
    pub target: TargetKey,
    pub load_op: PlannedLoadOp,
    pub clear_color: C,
    pub commands: Vec<PlannedRenderCommand>,
}

/// A step of a frame: a compute dispatch or a render pass.
#[derive(Clone, Debug, PartialEq)]
pub enum PlannedOp<C> {
    Compute { compute: ComputeKey, bind_group: Option<BindGroupKey>, workgroups: [u32; 3] },
    RenderPass(PlannedRenderPass<C>),
}

/// A command as a frame records it.
#[derive(Clone, Copy, Debug, PartialEq)]
pub enum RecordedCommand<C> {
    BindTarget { target: TargetKey, clear_color: C },
    Render { drawable: PlannedDrawable, bind_group: Option<BindGroupKey> },
    Dispatch { compute: ComputeKey, bind_group: Option<BindGroupKey>, workgroups: [u32; 3] },
}

/// A render pass as seen by contracts.
pub struct PassView<C> {
    pub target: TargetKey,
    pub load_op: PlannedLoadOp,
    pub clear_color: C,
    pub commands: Seq<PlannedRenderCommand>,
}

/// A step of a frame as seen by contracts.
pub enum OpView<C> {
    Compute { compute: ComputeKey, bind_group: Option<BindGroupKey>, workgroups: [u32; 3] },
    RenderPass(PassView<C>),
}

impl<C> PlannedRenderPass<C> {
    /// The pass as seen by contracts.
    pub open spec fn view(&self) -> PassView<C> {
        PassView {
            target: self.target,
            load_op: self.load_op,
            clear_color: self.clear_color,
            commands: self.commands@,
        }
    }
}

impl<C> PlannedOp<C> {
    /// The step as seen by contracts.
    pub open spec fn view(&self) -> OpView<C> {
        match self {
            PlannedOp::Compute { compute, bind_group, workgroups } => OpView::Compute {
                compute: *compute,
                bind_group: *bind_group,
                workgroups: *workgroups,
            },
            PlannedOp::RenderPass(pass) => OpView::RenderPass(pass.view()),
        }
    }
}

/// The steps of a frame as seen by contracts.
pub open spec fn spec_ops_view<C>(ops: Seq<PlannedOp<C>>) -> Seq<OpView<C>> {
    ops.map_values(|op: PlannedOp<C>| op.view())
}

/// Where planning a frame stands: the steps so far, the open render pass,
/// the bound target with its clear color, and the load operation recorded
/// for each target (the last entry for a target counts).
pub struct PlanState<C> {
    pub ops: Seq<OpView<C>>,
    pub current: Option<PassView<C>>,
    pub bound: Option<(TargetKey, C)>,
    pub next_load: Seq<(TargetKey, PlannedLoadOp)>,
}

/// How the next pass on `target` loads it: as last recorded, else cleared.
pub open spec fn spec_load_for(next_load: Seq<(TargetKey, PlannedLoadOp)>, target: TargetKey) -> PlannedLoadOp
    decreases next_load.len(),
{
    if next_load.len() == 0 {
        PlannedLoadOp::Clear
    } else if next_load.last().0 == target {
        next_load.last().1
    } else {
        spec_load_for(next_load.drop_last(), target)
    }
}

/// Closes the open render pass: a pass with draws becomes a step, and the
/// next pass on its target loads what it drew.
pub open spec fn spec_flush<C>(state: PlanState<C>) -> PlanState<C> {
    match state.current {
        Some(pass) => if pass.commands.len() > 0 {
            PlanState {
                ops: state.ops.push(OpView::RenderPass(pass)),
                current: None,
                bound: state.bound,
                next_load: state.next_load.push((pass.target, PlannedLoadOp::Load)),
            }
        } else {
            PlanState { current: None, ..state }
        },
        None => state,
    }
}

/// Plans one recorded command.
pub open spec fn spec_plan_step<C>(state: PlanState<C>, command: RecordedCommand<C>, default_clear_color: C) -> PlanState<C> {
    match command {
        RecordedCommand::BindTarget { target, clear_color } => {
            let flushed = spec_flush(state);
            PlanState {
                bound: Some((target, clear_color)),
                next_load: flushed.next_load.push((target, PlannedLoadOp::Clear)),
                ..flushed
            }
        },
        RecordedCommand::Render { drawable, bind_group } => {
            let (target, clear_color) = match state.bound {
                Some(b) => b,
                None => (TargetKey::Canvas, default_clear_color),
            };
            let command = PlannedRenderCommand { drawable, bind_group };
            match state.current {
                Some(pass) => if pass.target == target {
                    PlanState {
                        current: Some(PassView { commands: pass.commands.push(command), ..pass }),
                        bound: Some((target, clear_color)),
                        ..state
                    }
                } else {
                    let flushed = spec_flush(state);
                    PlanState {
                        current: Some(
                            PassView {
                                target,
                                load_op: spec_load_for(flushed.next_load, target),
                                clear_color,
                                commands: seq![command],
                            },
                        ),
                        bound: Some((target, clear_color)),
                        ..flushed
                    }
                },
                None => PlanState {
                    current: Some(
                        PassView {
                            target,
                            load_op: spec_load_for(state.next_load, target),
                            clear_color,
                            commands: seq![command],
                        },
                    ),
                    bound: Some((target, clear_color)),
                    ..state
                },
            }
        },
        RecordedCommand::Dispatch { compute, bind_group, workgroups } => {
            let flushed = spec_flush(state);
            PlanState {
                ops: flushed.ops.push(OpView::Compute { compute, bind_group, workgroups }),
                ..flushed
            }
        },
    }
}

/// The plan after the first `n` recorded commands.
pub open spec fn spec_plan<C>(commands: Seq<RecordedCommand<C>>, n: int, default_clear_color: C) -> PlanState<C>
    decreases n,
{
    if n <= 0 {
        PlanState { ops: Seq::empty(), current: None, bound: None, next_load: Seq::empty() }
    } else {
        spec_plan_step(spec_plan(commands, n - 1, default_clear_color), commands[n - 1], default_clear_color)
    }
}

/// The steps of a frame: the plan of all its commands with the last render
/// pass closed.
pub open spec fn spec_frame_ops<C>(commands: Seq<RecordedCommand<C>>, default_clear_color: C) -> Seq<OpView<C>> {
    spec_flush(spec_plan(commands, commands.len() as int, default_clear_color)).ops
}

/// A frame being recorded: the commands in the order they were given.
pub struct FramePlan<C> {
    commands: Vec<RecordedCommand<C>>,
}

impl<C: Copy> FramePlan<C> {
    /// The recorded commands.
    pub closed spec fn spec_commands(&self) -> Seq<RecordedCommand<C>> {
        self.commands@
    }

    /// An empty frame.
    pub fn new() -> (plan: FramePlan<C>)
        ensures
            plan.spec_commands() == Seq::<RecordedCommand<C>>::empty(),
    {
        FramePlan { commands: Vec::new() }
    }

    /// Records that later draws go to `target`, cleared to `clear_color`.
    pub fn bind_target(&mut self, target: TargetKey, clear_color: C)
        ensures
            final(self).spec_commands() == old(self).spec_commands().push(
                RecordedCommand::BindTarget { target, clear_color },
            ),
    {
        self.commands.push(RecordedCommand::BindTarget { target, clear_color });
    }

    /// Records a draw.
    pub fn render(&mut self, draw: DrawKey, bind_group: Option<BindGroupKey>) -> (recorded: Result<(), FrameError>)
        ensures
            recorded is Ok,
            final(self).spec_commands() == old(self).spec_commands().push(
                RecordedCommand::Render { drawable: PlannedDrawable::Draw(draw), bind_group },
            ),
    {
        self.commands.push(RecordedCommand::Render { drawable: PlannedDrawable::Draw(draw), bind_group });
        Ok(())
    }

    /// Records an axis helper draw.
    pub fn render_axis(&mut self, axis: AxisKey, bind_group: BindGroupKey) -> (recorded: Result<(), FrameError>)
        ensures
            recorded is Ok,
            final(self).spec_commands() == old(self).spec_commands().push(
                RecordedCommand::Render {
                    drawable: PlannedDrawable::Axis(axis),
                    bind_group: Some(bind_group),
                },
            ),
    {
        self.commands.push(
            RecordedCommand::Render { drawable: PlannedDrawable::Axis(axis), bind_group: Some(bind_group) },
        );
        Ok(())
    }

    /// Records a compute dispatch.
    pub fn dispatch(
        &mut self,
        compute: ComputeKey,
        bind_group: Option<BindGroupKey>,
        workgroups: [u32; 3],
    ) -> (recorded: Result<(), FrameError>)
        ensures
            recorded is Ok,
            final(self).spec_commands() == old(self).spec_commands().push(
                RecordedCommand::Dispatch { compute, bind_group, workgroups },
            ),
    {
        self.commands.push(RecordedCommand::Dispatch { compute, bind_group, workgroups });
        Ok(())
    }
}

} // verus!

verus! {

/// An open render pass as seen by contracts.
pub open spec fn spec_current_view<C>(current: Option<PlannedRenderPass<C>>) -> Option<PassView<C>> {
    match current {
        Some(pass) => Some(pass.view()),
        None => None,
    }
}

fn load_for(next_load: &Vec<(TargetKey, PlannedLoadOp)>, target: TargetKey) -> (load_op: PlannedLoadOp)
    ensures
        load_op == spec_load_for(next_load@, target),
{
    let mut i: usize = next_load.len();
    proof {
        assert(next_load@.take(i as int) =~= next_load@);
    }
    while i > 0
        invariant
            i <= next_load@.len(),
            spec_load_for(next_load@, target) == spec_load_for(next_load@.take(i as int), target),
        decreases i,
    {
        let ghost prefix = next_load@.take(i as int);
        proof {
            assert(prefix.drop_last() =~= next_load@.take(i as int - 1));
            assert(prefix.last() == next_load@[i as int - 1]);
        }
        if next_load[i - 1].0 == target {
            return next_load[i - 1].1;
        }
        i = i - 1;
    }
    proof {
        assert(next_load@.take(0) =~= Seq::<(TargetKey, PlannedLoadOp)>::empty());
    }
    PlannedLoadOp::Clear
}

fn flush_pass<C: Copy>(
    current: Option<PlannedRenderPass<C>>,
    ops: &mut Vec<PlannedOp<C>>,
    next_load: &mut Vec<(TargetKey, PlannedLoadOp)>,
)
    ensures
        ({
            let flushed = spec_flush(
                PlanState {
                    ops: spec_ops_view(old(ops)@),
                    current: spec_current_view(current),
                    bound: None,
                    next_load: old(next_load)@,
                },
            );
            &&& spec_ops_view(final(ops)@) == flushed.ops
            &&& final(next_load)@ == flushed.next_load
        }),
{
    if let Some(pass) = current {
        if pass.commands.len() > 0 {
            let ghost before = ops@;
            next_load.push((pass.target, PlannedLoadOp::Load));
            ops.push(PlannedOp::RenderPass(pass));
            proof {
                assert(spec_ops_view(ops@) =~= spec_ops_view(before).push(OpView::RenderPass(pass.view())));
            }
        }
    }
}

impl<C: Copy> FramePlan<C> {
    /// Turns the recorded commands into the frame's steps: draws on the
    /// same target gather into one render pass, a dispatch or a new target
    /// closes the open pass, draws before any bound target go to the canvas
    /// with `default_clear_color`, and a pass loads what an earlier pass
    /// drew on its target since that target was last bound. A frame
    /// without steps is refused.
    pub fn finish(self, default_clear_color: C) -> (ops: Result<Vec<PlannedOp<C>>, FrameError>)
        ensures
            spec_frame_ops(self.spec_commands(), default_clear_color).len() == 0 ==> ops == Err::<
                Vec<PlannedOp<C>>,
                FrameError,
            >(FrameError::EmptyFrame),
            spec_frame_ops(self.spec_commands(), default_clear_color).len() > 0 ==> (ops matches Ok(v)
                && spec_ops_view(v@) == spec_frame_ops(self.spec_commands(), default_clear_color)),
    {
        let ghost commands = self.commands@;
        let mut ops: Vec<PlannedOp<C>> = Vec::new();
        let mut current: Option<PlannedRenderPass<C>> = None;
        let mut bound: Option<(TargetKey, C)> = None;
        let mut next_load: Vec<(TargetKey, PlannedLoadOp)> = Vec::new();
        proof {
            assert(spec_ops_view(ops@) =~= Seq::<OpView<C>>::empty());
        }
        let mut i: usize = 0;
        while i < self.commands.len()
            invariant
                i <= commands.len(),
                commands == self.commands@,
                spec_plan(commands, i as int, default_clear_color) == (PlanState {
                    ops: spec_ops_view(ops@),
                    current: spec_current_view(current),
                    bound,
                    next_load: next_load@,
                }),
            decreases commands.len() - i,
        {
            let command = self.commands[i];
            let ghost state = spec_plan(commands, i as int, default_clear_color);
            match command {
                RecordedCommand::BindTarget { target, clear_color } => {
                    flush_pass(current, &mut ops, &mut next_load);
                    current = None;
                    bound = Some((target, clear_color));
                    next_load.push((target, PlannedLoadOp::Clear));
                },
                RecordedCommand::Render { drawable, bind_group } => {
                    let (target, clear_color) = match bound {
                        Some(b) => b,
                        None => (TargetKey::Canvas, default_clear_color),
                    };
                    bound = Some((target, clear_color));
                    let planned = PlannedRenderCommand { drawable, bind_group };
                    let same_target = match &current {
                        Some(pass) => pass.target == target,
                        None => false,
                    };
                    if same_target {
                        let mut pass = current.unwrap();
                        pass.commands.push(planned);
                        current = Some(pass);
                    } else {
                        flush_pass(current, &mut ops, &mut next_load);
                        let load_op = load_for(&next_load, target);
                        let mut pass_commands: Vec<PlannedRenderCommand> = Vec::new();
                        pass_commands.push(planned);
                        proof {
                            assert(pass_commands@ =~= seq![planned]);
                        }
                        current = Some(
                            PlannedRenderPass { target, load_op, clear_color, commands: pass_commands },
                        );
                    }
                },
                RecordedCommand::Dispatch { compute, bind_group, workgroups } => {
                    flush_pass(current, &mut ops, &mut next_load);
                    current = None;
                    let ghost before = ops@;
                    ops.push(PlannedOp::Compute { compute, bind_group, workgroups });
                    proof {
                        assert(spec_ops_view(ops@) =~= spec_ops_view(before).push(
                            OpView::Compute { compute, bind_group, workgroups },
                        ));
                    }
                },
            }
            proof {
                assert(spec_plan(commands, i as int + 1, default_clear_color) == spec_plan_step(
                    state,
                    commands[i as int],
                    default_clear_color,
                ));
            }
            i = i + 1;
        }
        flush_pass(current, &mut ops, &mut next_load);
        if ops.len() == 0 {
            return Err(FrameError::EmptyFrame);
        }
        Ok(ops)
    }
}

} // verus!

verus! {

/// Whether recorded command `i` draws or dispatches.
pub open spec fn spec_is_work<C>(commands: Seq<RecordedCommand<C>>, i: int) -> bool {
    commands[i] is Render || commands[i] is Dispatch
}

/// Every planned render pass holds a draw, and the open pass too.
pub open spec fn spec_passes_hold_draws<C>(state: PlanState<C>) -> bool {
    &&& forall|k: int|
        0 <= k < state.ops.len() && (#[trigger] state.ops[k]) is RenderPass
            ==> state.ops[k]->RenderPass_0.commands.len() > 0
    &&& state.current matches Some(p) ==> p.commands.len() > 0
}

proof fn lemma_plan_invariant<C>(commands: Seq<RecordedCommand<C>>, n: int, default_clear_color: C)
    requires
        0 <= n <= commands.len(),
    ensures
        spec_passes_hold_draws(spec_plan(commands, n, default_clear_color)),
        (spec_plan(commands, n, default_clear_color).ops.len() > 0 || spec_plan(
            commands,
            n,
            default_clear_color,
        ).current is Some) <==> exists|i: int| 0 <= i < n && spec_is_work(commands, i),
        spec_plan(commands, n, default_clear_color).ops.len() > 0 ==> exists|i: int|
            0 <= i < n && spec_is_work(commands, i),
    decreases n,
{
    if n > 0 {
        lemma_plan_invariant(commands, n - 1, default_clear_color);
        let before = spec_plan(commands, n - 1, default_clear_color);
        let after = spec_plan(commands, n, default_clear_color);
        let flushed = spec_flush(before);
        assert(spec_passes_hold_draws(flushed));
        assert(flushed.ops.len() > 0 || flushed.current is Some <==> before.ops.len() > 0
            || before.current is Some);
        if spec_is_work(commands, n - 1) {
            assert(after.ops.len() > 0 || after.current is Some);
        } else {
            assert(forall|i: int| 0 <= i < n && spec_is_work(commands, i) ==> i < n - 1);
        }
    }
}

/// A frame's steps hold no render pass without draws, and a frame has steps
/// exactly when it recorded a draw or a dispatch.
pub proof fn law_frame_steps<C>(commands: Seq<RecordedCommand<C>>, default_clear_color: C)
    ensures
        forall|k: int|
            0 <= k < spec_frame_ops(commands, default_clear_color).len() && (
            #[trigger] spec_frame_ops(commands, default_clear_color)[k]) is RenderPass
                ==> spec_frame_ops(commands, default_clear_color)[k]->RenderPass_0.commands.len()
                > 0,
        spec_frame_ops(commands, default_clear_color).len() > 0 <==> exists|i: int|
            0 <= i < commands.len() && spec_is_work(commands, i),
{
    lemma_plan_invariant(commands, commands.len() as int, default_clear_color);
    let state = spec_plan(commands, commands.len() as int, default_clear_color);
    assert(spec_passes_hold_draws(spec_flush(state)));
}


/// The message a user is shown for a refused frame command.
pub open spec fn spec_frame_message(error: FrameError) -> Seq<char> {
    match error {
        FrameError::DrawDeviceMismatch => "draw was created by a different device"@,
        FrameError::DrawRequiresBindGroup => "draw requires a bind group"@,
        FrameError::DrawRejectsBindGroup => "draw does not accept a bind group"@,
        FrameError::BindGroupDeviceMismatch => "bind group was created by a different device"@,
        FrameError::BindGroupForOtherDraw => "bind group was created for a different draw"@,
        FrameError::AxisDeviceMismatch => "axis helper was created by a different device"@,
        FrameError::AxisRequiresBindGroup => "axis helper requires a bind group"@,
        FrameError::BindGroupForOtherAxis => "bind group was created for a different axis helper"@,
        FrameError::ComputeDeviceMismatch => "compute was created by a different device"@,
        FrameError::ComputeRequiresBindGroup => "compute requires a bind group"@,
        FrameError::ComputeRejectsBindGroup => "compute does not accept a bind group"@,
        FrameError::BindGroupForOtherCompute => "bind group was created for a different compute"@,
        FrameError::RenderTargetDeviceMismatch => "render target was created by a different device"@,
        FrameError::RenderTargetFormatMismatch => "render target format does not match frame format"@,
        FrameError::EmptyFrame => "frame contains no commands"@,
    }
}

impl FrameError {
    /// The message a user is shown for this error.
    pub fn message(&self) -> (text: String)
        ensures
            text@ == spec_frame_message(*self),
    {
        match self {
            FrameError::DrawDeviceMismatch => String::from_str("draw was created by a different device"),
            FrameError::DrawRequiresBindGroup => String::from_str("draw requires a bind group"),
            FrameError::DrawRejectsBindGroup => String::from_str("draw does not accept a bind group"),
            FrameError::BindGroupDeviceMismatch => String::from_str("bind group was created by a different device"),
            FrameError::BindGroupForOtherDraw => String::from_str("bind group was created for a different draw"),
            FrameError::AxisDeviceMismatch => String::from_str("axis helper was created by a different device"),
            FrameError::AxisRequiresBindGroup => String::from_str("axis helper requires a bind group"),
            FrameError::BindGroupForOtherAxis => String::from_str("bind group was created for a different axis helper"),
            FrameError::ComputeDeviceMismatch => String::from_str("compute was created by a different device"),
            FrameError::ComputeRequiresBindGroup => String::from_str("compute requires a bind group"),
            FrameError::ComputeRejectsBindGroup => String::from_str("compute does not accept a bind group"),
            FrameError::BindGroupForOtherCompute => String::from_str("bind group was created for a different compute"),
            FrameError::RenderTargetDeviceMismatch => String::from_str("render target was created by a different device"),
            FrameError::RenderTargetFormatMismatch => String::from_str("render target format does not match frame format"),
            FrameError::EmptyFrame => String::from_str("frame contains no commands"),
        }
    }
}


/// How a target is loaded is what was last recorded for it: recording a
/// load operation for a target makes the next pass on that target use it,
/// and recording one for another target leaves the target as it was.
pub proof fn law_load_for_follows_last_record(
    next_load: Seq<(TargetKey, PlannedLoadOp)>,
    recorded: TargetKey,
    op: PlannedLoadOp,
    target: TargetKey,
)
    ensures
        spec_load_for(next_load.push((recorded, op)), recorded) == op,
        recorded != target ==> spec_load_for(next_load.push((recorded, op)), target) == spec_load_for(
            next_load,
            target,
        ),
        spec_load_for(Seq::empty(), target) == PlannedLoadOp::Clear,
{
    assert(next_load.push((recorded, op)).drop_last() =~= next_load);
}

/// A render pass that drew on a target and is closed by a dispatch is
/// continued, by the next draw on that target, in a new pass that loads
/// what was drawn (it does not clear it), whatever the target is; the
/// dispatch comes between the two passes.
pub proof fn law_pass_reopened_after_dispatch_loads<C>(
    state: PlanState<C>,
    compute: ComputeKey,
    dispatch_bind_group: Option<BindGroupKey>,
    workgroups: [u32; 3],
    drawable: PlannedDrawable,
    bind_group: Option<BindGroupKey>,
    clear_color: C,
    default_clear_color: C,
)
    requires
        state.current matches Some(pass) && pass.commands.len() > 0,
        state.bound == Some((state.current.unwrap().target, clear_color)),
    ensures
        ({
            let pass = state.current.unwrap();
            let dispatched = spec_plan_step(
                state,
                RecordedCommand::Dispatch { compute, bind_group: dispatch_bind_group, workgroups },
                default_clear_color,
            );
            let reopened = spec_plan_step(
                dispatched,
                RecordedCommand::Render { drawable, bind_group },
                default_clear_color,
            );
            &&& dispatched.ops == state.ops.push(OpView::RenderPass(pass)).push(
                OpView::Compute { compute, bind_group: dispatch_bind_group, workgroups },
            )
            &&& reopened.current matches Some(next) && next.target == pass.target && next.load_op
                == PlannedLoadOp::Load && next.clear_color == clear_color && next.commands == seq![
                PlannedRenderCommand { drawable, bind_group },
            ]
        }),
{
    let pass = state.current.unwrap();
    law_load_for_follows_last_record(state.next_load, pass.target, PlannedLoadOp::Load, pass.target);
}
} // verus!
