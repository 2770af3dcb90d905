use vstd::prelude::*;
use vstd::string::StringExecFns;

use crate::text::{decimal_text, spec_decimal};

verus! {

/// Why the canvas surface could not be used.
#[derive(Clone, Debug)]
pub enum SurfaceError {
    /// A frame holds the canvas surface.
    SurfaceInUse,
    /// The device renders without a canvas.
    HeadlessDevice,
    /// The surface dimensions exceed the device's 2D texture limit.
    SizeExceedsLimit { width: u32, height: u32, limit: u32 },
    /// The surface reported a validation failure; the GPU error recorded
    /// first, if any, says why.
    Validation(Option<GpuError>),
    /// A GPU error was recorded since the last call.
    Gpu(GpuError),
}

/// A GPU error reported outside any call.
#[derive(Clone, Debug)]
pub enum GpuError {
    OutOfMemory,
    Validation(String),
    Internal(String),
    DeviceLost { reason: String, message: String },
}

/// Whether a frame holds the canvas surface.
#[derive(Clone, Copy, Debug, Default)]
pub struct SurfaceLease {
    active: bool,
}

/// A frame's hold on the canvas surface. Only `SurfaceLease::acquire` makes
/// one, and it cannot be copied, so one release ends the hold for good.
#[derive(Debug)]
pub struct SurfaceLeaseGuard {
    held: bool,
}

impl SurfaceLeaseGuard {
    /// Whether the guard still holds the surface.
    pub closed spec fn spec_held(&self) -> bool {
        self.held
    }

    /// Whether the guard still holds the surface.
    pub fn held(&self) -> (held: bool)
        ensures
            held == self.spec_held(),
    {
        self.held
    }
}

impl SurfaceLease {
    /// A lease that no frame holds.
    pub fn new() -> (lease: SurfaceLease)
        ensures
            !lease.spec_active(),
    {
        SurfaceLease { active: false }
    }

    /// Whether a frame holds the surface.
    pub closed spec fn spec_active(&self) -> bool {
        self.active
    }

    /// Whether a frame holds the surface.
    pub fn is_active(&self) -> (active: bool)
        ensures
            active == self.spec_active(),
    {
        self.active
    }

    /// Checks that no frame holds the surface.
    pub fn ensure_available(&self) -> (checked: Result<(), SurfaceError>)
        ensures
            self.spec_active() ==> checked matches Err(SurfaceError::SurfaceInUse),
            !self.spec_active() ==> checked is Ok,
    {
        if self.active {
            Err(SurfaceError::SurfaceInUse)
        } else {
            Ok(())
        }
    }

    /// Takes the surface for a frame, unless a frame holds it.
    pub fn acquire(&mut self) -> (guard: Result<SurfaceLeaseGuard, SurfaceError>)
        ensures
            old(self).spec_active() ==> (guard matches Err(SurfaceError::SurfaceInUse) && final(self).spec_active()),
            !old(self).spec_active() ==> (guard matches Ok(g) && g.spec_held() && final(self).spec_active()),
    {
        if self.active {
            return Err(SurfaceError::SurfaceInUse);
        }
        self.active = true;
        Ok(SurfaceLeaseGuard { held: true })
    }

    /// Gives the surface back if the guard still holds it; a second release
    /// does nothing.
    pub fn release(&mut self, guard: &mut SurfaceLeaseGuard)
        ensures
            old(guard).spec_held() ==> !final(self).spec_active(),
            !old(guard).spec_held() ==> final(self).spec_active() == old(self).spec_active(),
            !final(guard).spec_held(),
    {
        if guard.held {
            self.active = false;
            guard.held = false;
        }
    }
}

/// The first GPU error reported since it was last taken.
#[derive(Clone, Debug, Default)]
pub struct PendingGpuErrors {
    message: Option<GpuError>,
}

impl PendingGpuErrors {
    /// The recorded error, if any.
    pub closed spec fn spec_pending(&self) -> Option<GpuError> {
        self.message
    }

    /// No error recorded.
    pub fn new() -> (pending: PendingGpuErrors)
        ensures
            pending.spec_pending() is None,
    {
        PendingGpuErrors { message: None }
    }

    /// Records an error unless one is already waiting: the first one wins.
    pub fn record(&mut self, error: GpuError)
        ensures
            old(self).spec_pending() is Some ==> final(self).spec_pending() == old(self).spec_pending(),
            old(self).spec_pending() is None ==> final(self).spec_pending() == Some(error),
    {
        if self.message.is_none() {
            self.message = Some(error);
        }
    }

    /// Hands out the waiting error and forgets it.
    pub fn take(&mut self) -> (error: Option<GpuError>)
        ensures
            error == old(self).spec_pending(),
            final(self).spec_pending() is None,
    {
        let error = self.message.take();
        error
    }
}

/// What acquiring the surface texture reported.
#[derive(Clone, Copy, Debug, PartialEq, Eq, Structural)]
pub enum SurfaceStatus {
    Success,
    Suboptimal,
    Timeout,
    Occluded,
    Outdated,
    Lost,
    Validation,
}

/// What a frame start does with the surface texture it was given.
#[derive(Clone, Debug)]
pub enum SurfaceAction {
    /// Render into it, and reconfigure the surface after presenting when
    /// asked.
    Render { reconfigure_after_present: bool },
    /// Skip the frame.
    Skip,
    /// Reconfigure the surface and skip the frame.
    ReconfigureAndSkip,
    /// Recreate the surface and skip the frame.
    RecreateAndSkip,
    /// Fail with the error.
    Fail(SurfaceError),
}

/// Decides what a frame start does with the surface status; a lost surface
/// reports a waiting GPU error before it is recreated, and a validation
/// failure carries the waiting GPU error.
pub fn surface_action(status: SurfaceStatus, pending: &mut PendingGpuErrors) -> (action: SurfaceAction)
    ensures
        status == SurfaceStatus::Success ==> action matches SurfaceAction::Render {
            reconfigure_after_present: false,
        },
        status == SurfaceStatus::Suboptimal ==> action matches SurfaceAction::Render {
            reconfigure_after_present: true,
        },
        status == SurfaceStatus::Timeout || status == SurfaceStatus::Occluded ==> action is Skip,
        status == SurfaceStatus::Outdated ==> action is ReconfigureAndSkip,
        status == SurfaceStatus::Lost ==> match old(pending).spec_pending() {
            Some(e) => action matches SurfaceAction::Fail(SurfaceError::Gpu(x)) && x == e,
            None => action is RecreateAndSkip,
        },
        status == SurfaceStatus::Validation ==> (action matches SurfaceAction::Fail(
            SurfaceError::Validation(x),
        ) && x == old(pending).spec_pending()),
        status == SurfaceStatus::Lost || status == SurfaceStatus::Validation
            ==> final(pending).spec_pending() is None,
        !(status == SurfaceStatus::Lost || status == SurfaceStatus::Validation)
            ==> final(pending).spec_pending() == old(pending).spec_pending(),
{
    match status {
        SurfaceStatus::Success => SurfaceAction::Render { reconfigure_after_present: false },
        SurfaceStatus::Suboptimal => SurfaceAction::Render { reconfigure_after_present: true },
        SurfaceStatus::Timeout | SurfaceStatus::Occluded => SurfaceAction::Skip,
        SurfaceStatus::Outdated => SurfaceAction::ReconfigureAndSkip,
        SurfaceStatus::Lost => match pending.take() {
            Some(error) => SurfaceAction::Fail(SurfaceError::Gpu(error)),
            None => SurfaceAction::RecreateAndSkip,
        },
        SurfaceStatus::Validation => SurfaceAction::Fail(SurfaceError::Validation(pending.take())),
    }
}

/// Checks a surface size against the device's 2D texture limit; no size
/// passes.
pub fn check_surface_size_limit(size: Option<(u32, u32)>, max_texture_dimension_2d: u32) -> (checked:
    Result<Option<(u32, u32)>, SurfaceError>)
    ensures
        match size {
            Some((w, h)) => if w > max_texture_dimension_2d || h > max_texture_dimension_2d {
                checked matches Err(SurfaceError::SizeExceedsLimit { width, height, limit })
                    && width == w && height == h && limit == max_texture_dimension_2d
            } else {
                checked == Ok::<Option<(u32, u32)>, SurfaceError>(size)
            },
            None => checked == Ok::<Option<(u32, u32)>, SurfaceError>(None),
        },
{
    if let Some((width, height)) = size {
        if width > max_texture_dimension_2d || height > max_texture_dimension_2d {
            return Err(
                SurfaceError::SizeExceedsLimit { width, height, limit: max_texture_dimension_2d },
            );
        }
    }
    Ok(size)
}

/// Whether the canvas or the surface configuration differ from the new size.
pub fn surface_dimensions_changed(
    canvas_width: u32,
    canvas_height: u32,
    config_width: u32,
    config_height: u32,
    width: u32,
    height: u32,
) -> (changed: bool)
    ensures
        changed == (canvas_width != width || canvas_height != height || config_width != width
            || config_height != height),
{
    canvas_width != width || canvas_height != height || config_width != width || config_height
        != height
}

/// Whether a configured surface has an empty dimension and cannot render.
pub fn surface_is_empty(config_width: u32, config_height: u32) -> (empty: bool)
    ensures
        empty == (config_width == 0 || config_height == 0),
{
    config_width == 0 || config_height == 0
}


/// The message a user is shown for a captured GPU error.
pub open spec fn spec_gpu_message(error: GpuError) -> Seq<char> {
    match error {
        GpuError::OutOfMemory => "WebGPU device ran out of memory"@,
        GpuError::Validation(description) => "WebGPU validation error: "@ + description@,
        GpuError::Internal(description) => "WebGPU internal error: "@ + description@,
        GpuError::DeviceLost { reason, message } => "WebGPU device lost ("@ + reason@ + "): "@ + message@,
    }
}

impl GpuError {
    /// The message a user is shown for this error.
    pub fn message(&self) -> (text: String)
        ensures
            text@ == spec_gpu_message(*self),
    {
        match self {
            GpuError::OutOfMemory => String::from_str("WebGPU device ran out of memory"),
            GpuError::Validation(description) => {
                let mut text = String::from_str("WebGPU validation error: ");
                text.append(description.as_str());
                text
            },
            GpuError::Internal(description) => {
                let mut text = String::from_str("WebGPU internal error: ");
                text.append(description.as_str());
                text
            },
            GpuError::DeviceLost { reason, message } => {
                let mut text = String::from_str("WebGPU device lost (");
                text.append(reason.as_str());
                text.append("): ");
                text.append(message.as_str());
                text
            },
        }
    }
}

/// The message a user is shown for a surface error.
pub open spec fn spec_surface_message(error: SurfaceError) -> Seq<char> {
    match error {
        SurfaceError::SurfaceInUse => "canvas surface is owned by an active frame"@,
        SurfaceError::HeadlessDevice => "cannot render with a headless device"@,
        SurfaceError::SizeExceedsLimit { width, height, limit } => "surface dimensions "@ + spec_decimal(
            width as nat,
        ) + "x"@ + spec_decimal(height as nat) + " exceed limit "@ + spec_decimal(limit as nat),
        SurfaceError::Validation(Some(gpu)) => spec_gpu_message(gpu),
        SurfaceError::Validation(None) => "canvas surface validation failed"@,
        SurfaceError::Gpu(gpu) => spec_gpu_message(gpu),
    }
}

impl SurfaceError {
    /// The message a user is shown for this error.
    pub fn message(&self) -> (text: String)
        ensures
            text@ == spec_surface_message(*self),
    {
        match self {
            SurfaceError::SurfaceInUse => String::from_str("canvas surface is owned by an active frame"),
            SurfaceError::HeadlessDevice => String::from_str("cannot render with a headless device"),
            SurfaceError::SizeExceedsLimit { width, height, limit } => {
                let mut text = String::from_str("surface dimensions ");
                text.append(decimal_text(*width as u64).as_str());
                text.append("x");
                text.append(decimal_text(*height as u64).as_str());
                text.append(" exceed limit ");
                text.append(decimal_text(*limit as u64).as_str());
                text
            },
            SurfaceError::Validation(Some(gpu)) => gpu.message(),
            SurfaceError::Validation(None) => String::from_str("canvas surface validation failed"),
            SurfaceError::Gpu(gpu) => gpu.message(),
        }
    }
}
} // verus!
