use vstd::prelude::*;

use crate::gpu::Device;
use crate::texture::{
    TextureFormat, TEXTURE_USAGE_RENDER_ATTACHMENT, TEXTURE_USAGE_TEXTURE_BINDING,
};

verus! {

/// How a render target is created.
#[derive(Clone, Debug)]
pub struct RenderTargetOptions {
    pub width: u32,
    pub height: u32,
    pub label: String,
    pub format: Option<TextureFormat>,
    pub sample_count: u32,
    pub with_depth: bool,
    pub depth_format: TextureFormat,
    pub depth_texture_usage: u32,
}

impl Default for RenderTargetOptions {
    /// A 1x1 single-sampled target in the device's format, without depth.
    fn default() -> (options: RenderTargetOptions)
        ensures
            options.width == 1,
            options.height == 1,
            options.label@ == "RenderTarget"@,
            options.format is None,
            options.sample_count == 1,
            !options.with_depth,
            options.depth_format == TextureFormat::Depth24Plus,
            options.depth_texture_usage == TEXTURE_USAGE_RENDER_ATTACHMENT,
    {
        RenderTargetOptions {
            width: 1,
            height: 1,
            label: "RenderTarget".to_owned(),
            format: None,
            sample_count: 1,
            with_depth: false,
            depth_format: TextureFormat::Depth24Plus,
            depth_texture_usage: TEXTURE_USAGE_RENDER_ATTACHMENT,
        }
    }
}

/// A dimension of at least one.
pub open spec fn spec_at_least_one(value: u32) -> u32 {
    if value == 0 {
        1
    } else {
        value
    }
}

impl RenderTargetOptions {
    /// The width, at least one.
    pub fn resolved_width(&self) -> (width: u32)
        ensures
            width == spec_at_least_one(self.width),
    {
        if self.width == 0 {
            1
        } else {
            self.width
        }
    }

    /// The height, at least one.
    pub fn resolved_height(&self) -> (height: u32)
        ensures
            height == spec_at_least_one(self.height),
    {
        if self.height == 0 {
            1
        } else {
            self.height
        }
    }

    /// The sample count, at least one.
    pub fn resolved_sample_count(&self) -> (count: u32)
        ensures
            count == spec_at_least_one(self.sample_count),
    {
        if self.sample_count == 0 {
            1
        } else {
            self.sample_count
        }
    }
}

/// A texture a render target creates.
#[derive(Clone, Copy, Debug, PartialEq, Eq, Structural)]
pub struct TexturePlan {
    pub width: u32,
    pub height: u32,
    pub sample_count: u32,
    pub format: TextureFormat,
    pub usage: u32,
}

/// The textures of a render target: the color texture it resolves to and
/// samples from, a multisampled color texture when it multisamples, and a
/// depth texture when it has depth.
#[derive(Clone, Copy, Debug, PartialEq, Eq, Structural)]
pub struct RenderTargetTexturePlan {
    pub color: TexturePlan,
    pub multisampled_color: Option<TexturePlan>,
    pub depth: Option<TexturePlan>,
}

/// Where a render pass on the target draws: into the multisampled texture
/// resolving to the color texture, or into the color texture; with the depth
/// texture when there is one.
#[derive(Clone, Copy, Debug, PartialEq, Eq, Structural)]
pub struct AttachmentPlan {
    pub draw_to_multisampled: bool,
    pub resolve_to_color: bool,
    pub with_depth: bool,
}

/// An offscreen render target as validation sees it.
#[derive(Clone, Debug)]
pub struct RenderTarget {
    device: Device,
    label: String,
    format: TextureFormat,
    sample_count: u32,
    with_depth: bool,
    depth_format: Option<TextureFormat>,
    depth_texture_usage: u32,
    width: u32,
    height: u32,
}

/// A render target as seen by contracts.
pub struct RenderTargetView {
    pub device: Device,
    pub label: Seq<char>,
    pub format: TextureFormat,
    pub sample_count: u32,
    pub depth_format: Option<TextureFormat>,
    pub depth_texture_usage: u32,
    pub width: u32,
    pub height: u32,
}

impl View for RenderTarget {
    type V = RenderTargetView;

    closed spec fn view(&self) -> RenderTargetView {
        RenderTargetView {
            device: self.device,
            label: self.label@,
            format: self.format,
            sample_count: self.sample_count,
            depth_format: self.depth_format,
            depth_texture_usage: self.depth_texture_usage,
            width: self.width,
            height: self.height,
        }
    }
}

/// The textures a render target of this shape creates.
pub open spec fn spec_texture_plan(target: RenderTargetView) -> RenderTargetTexturePlan {
    RenderTargetTexturePlan {
        color: TexturePlan {
            width: target.width,
            height: target.height,
            sample_count: 1,
            format: target.format,
            usage: TEXTURE_USAGE_RENDER_ATTACHMENT | TEXTURE_USAGE_TEXTURE_BINDING,
        },
        multisampled_color: if target.sample_count > 1 {
            Some(
                TexturePlan {
                    width: target.width,
                    height: target.height,
                    sample_count: target.sample_count,
                    format: target.format,
                    usage: TEXTURE_USAGE_RENDER_ATTACHMENT,
                },
            )
        } else {
            None
        },
        depth: match target.depth_format {
            Some(depth_format) => Some(
                TexturePlan {
                    width: target.width,
                    height: target.height,
                    sample_count: target.sample_count,
                    format: depth_format,
                    usage: target.depth_texture_usage,
                },
            ),
            None => None,
        },
    }
}

impl RenderTarget {
    /// A render target on `device`: dimensions and sample count of at least
    /// one, the device's format unless one is given, and a depth format only
    /// with depth.
    pub fn create(device: &Device, options: RenderTargetOptions) -> (target: RenderTarget)
        ensures
            target@.device == *device,
            target@.label == options.label@,
            target@.width == spec_at_least_one(options.width),
            target@.height == spec_at_least_one(options.height),
            target@.sample_count == spec_at_least_one(options.sample_count),
            target@.format == (match options.format {
                Some(f) => f,
                None => device.format,
            }),
            target@.depth_format == (if options.with_depth {
                Some(options.depth_format)
            } else {
                None
            }),
            target@.depth_texture_usage == options.depth_texture_usage,
    {
        let width = options.resolved_width();
        let height = options.resolved_height();
        let sample_count = options.resolved_sample_count();
        let format = match options.format {
            Some(f) => f,
            None => device.format(),
        };
        let depth_format = if options.with_depth {
            Some(options.depth_format)
        } else {
            None
        };
        RenderTarget {
            device: *device,
            label: options.label,
            format,
            sample_count,
            with_depth: options.with_depth,
            depth_format,
            depth_texture_usage: options.depth_texture_usage,
            width,
            height,
        }
    }

    /// Width in texels.
    pub fn width(&self) -> (width: u32)
        ensures
            width == self@.width,
    {
        self.width
    }

    /// Height in texels.
    pub fn height(&self) -> (height: u32)
        ensures
            height == self@.height,
    {
        self.height
    }

    /// The device that created the target.
    pub fn device(&self) -> (device: &Device)
        ensures
            *device == self@.device,
    {
        &self.device
    }

    /// Color format.
    pub fn format(&self) -> (format: TextureFormat)
        ensures
            format == self@.format,
    {
        self.format
    }

    /// Depth format, when the target has depth.
    pub fn depth_format(&self) -> (format: Option<TextureFormat>)
        ensures
            format == self@.depth_format,
    {
        self.depth_format
    }

    /// Samples per texel.
    pub fn sample_count(&self) -> (count: u32)
        ensures
            count == self@.sample_count,
    {
        self.sample_count
    }

    /// The label textures are named after.
    pub fn label(&self) -> (label: &str)
        ensures
            label@ == self@.label,
    {
        self.label.as_str()
    }

    /// The textures the target needs at its current size.
    pub fn texture_plan(&self) -> (plan: RenderTargetTexturePlan)
        ensures
            plan == spec_texture_plan(self@),
    {
        let color = TexturePlan {
            width: self.width,
            height: self.height,
            sample_count: 1,
            format: self.format,
            usage: TEXTURE_USAGE_RENDER_ATTACHMENT | TEXTURE_USAGE_TEXTURE_BINDING,
        };
        let multisampled_color = if self.sample_count > 1 {
            Some(
                TexturePlan {
                    width: self.width,
                    height: self.height,
                    sample_count: self.sample_count,
                    format: self.format,
                    usage: TEXTURE_USAGE_RENDER_ATTACHMENT,
                },
            )
        } else {
            None
        };
        let depth = match self.depth_format {
            Some(depth_format) => Some(
                TexturePlan {
                    width: self.width,
                    height: self.height,
                    sample_count: self.sample_count,
                    format: depth_format,
                    usage: self.depth_texture_usage,
                },
            ),
            None => None,
        };
        RenderTargetTexturePlan { color, multisampled_color, depth }
    }

    /// Where a render pass on the target draws.
    pub fn attachment_plan(&self) -> (plan: AttachmentPlan)
        ensures
            plan.draw_to_multisampled == (self@.sample_count > 1),
            plan.resolve_to_color == (self@.sample_count > 1),
            plan.with_depth == (self@.depth_format is Some),
    {
        AttachmentPlan {
            draw_to_multisampled: self.sample_count > 1,
            resolve_to_color: self.sample_count > 1,
            with_depth: self.depth_format.is_some(),
        }
    }

    /// Resizes the target to at least one texel each way and says whether
    /// its textures must be created again.
    pub fn resize(&mut self, width: u32, height: u32) -> (recreate: bool)
        ensures
            final(self)@.width == spec_at_least_one(width),
            final(self)@.height == spec_at_least_one(height),
            recreate == (old(self)@.width != spec_at_least_one(width) || old(self)@.height
                != spec_at_least_one(height)),
            final(self)@.device == old(self)@.device,
            final(self)@.label == old(self)@.label,
            final(self)@.format == old(self)@.format,
            final(self)@.sample_count == old(self)@.sample_count,
            final(self)@.depth_format == old(self)@.depth_format,
            final(self)@.depth_texture_usage == old(self)@.depth_texture_usage,
    {
        let width = if width == 0 {
            1
        } else {
            width
        };
        let height = if height == 0 {
            1
        } else {
            height
        };
        if self.width == width && self.height == height {
            return false;
        }
        self.width = width;
        self.height = height;
        true
    }
}

/// Why render target dimensions from a caller were refused.
#[derive(Clone, Copy, Debug, PartialEq, Eq, Structural)]
pub enum RenderTargetError {
    ZeroDimension,
    ExceedsLimit { width: u32, height: u32, limit: u32 },
}

/// Checks that render target dimensions are positive and within the
/// device's 2D limit.
pub fn validate_render_target_dimensions(width: u32, height: u32, max_texture_dimension_2d: u32) -> (checked:
    Result<(), RenderTargetError>)
    ensures
        width == 0 || height == 0 ==> checked == Err::<(), RenderTargetError>(
            RenderTargetError::ZeroDimension,
        ),
        width > 0 && height > 0 && (width > max_texture_dimension_2d || height
            > max_texture_dimension_2d) ==> checked == Err::<(), RenderTargetError>(
            RenderTargetError::ExceedsLimit { width, height, limit: max_texture_dimension_2d },
        ),
        width > 0 && height > 0 && width <= max_texture_dimension_2d && height
            <= max_texture_dimension_2d ==> checked is Ok,
{
    if width == 0 || height == 0 {
        return Err(RenderTargetError::ZeroDimension);
    }
    if width > max_texture_dimension_2d || height > max_texture_dimension_2d {
        return Err(
            RenderTargetError::ExceedsLimit { width, height, limit: max_texture_dimension_2d },
        );
    }
    Ok(())
}

/// Whether a resize changes the target's dimensions.
pub fn render_target_size_changed(current_width: u32, current_height: u32, width: u32, height: u32) -> (changed:
    bool)
    ensures
        changed == (current_width != width || current_height != height),
{
    current_width != width || current_height != height
}

} // verus!
