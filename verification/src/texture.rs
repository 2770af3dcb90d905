use vstd::prelude::*;

use crate::error::BelfastError;
use crate::gpu::Device;
use crate::text::str_equals;

verus! {

/// Texture formats Belfast creates or presents to; any other format is
/// told apart by a number of the caller's choosing and says whether it
/// stores sRGB-encoded color.
#[derive(Clone, Copy, Debug, PartialEq, Eq, Hash, Structural)]
pub enum TextureFormat {
    Rgba8Unorm,
    Rgba8UnormSrgb,
    Bgra8Unorm,
    Bgra8UnormSrgb,
    Rgba16Float,
    Depth24Plus,
    Depth32Float,
    Other { code: u32, srgb: bool },
}

/// Whether a format stores sRGB-encoded color.
pub open spec fn spec_is_srgb(format: TextureFormat) -> bool {
    match format {
        TextureFormat::Rgba8UnormSrgb | TextureFormat::Bgra8UnormSrgb => true,
        TextureFormat::Other { srgb, .. } => srgb,
        _ => false,
    }
}

impl TextureFormat {
    /// Whether the format stores sRGB-encoded color.
    pub fn is_srgb(&self) -> (srgb: bool)
        ensures
            srgb == spec_is_srgb(*self),
    {
        match self {
            TextureFormat::Rgba8UnormSrgb | TextureFormat::Bgra8UnormSrgb => true,
            TextureFormat::Other { srgb, .. } => *srgb,
            _ => false,
        }
    }
}

/// How a sampler filters between texels.
#[derive(Clone, Copy, Debug, PartialEq, Eq, Structural)]
pub enum FilterMode {
    Nearest,
    Linear,
}

/// Usage bit: the texture can be the source of a copy.
pub const TEXTURE_USAGE_COPY_SRC: u32 = 1;
/// Usage bit: the texture can be the destination of a copy or a queue write.
pub const TEXTURE_USAGE_COPY_DST: u32 = 2;
/// Usage bit: the texture can be bound for sampling.
pub const TEXTURE_USAGE_TEXTURE_BINDING: u32 = 4;
/// Usage bit: the texture can be bound as a storage texture.
pub const TEXTURE_USAGE_STORAGE_BINDING: u32 = 8;
/// Usage bit: the texture can be a render pass attachment.
pub const TEXTURE_USAGE_RENDER_ATTACHMENT: u32 = 16;

/// How a texture is created.
#[derive(Clone, Debug)]
pub struct TextureOptions {
    pub label: String,
    pub format: TextureFormat,
    pub usage: u32,
    pub mag_filter: FilterMode,
    pub min_filter: FilterMode,
}

impl Default for TextureOptions {
    /// A sampled sRGB texture that queue writes fill, filtered linearly.
    fn default() -> (options: TextureOptions)
        ensures
            options.label@ == "Texture"@,
            options.format == TextureFormat::Rgba8UnormSrgb,
            options.usage == TEXTURE_USAGE_TEXTURE_BINDING | TEXTURE_USAGE_COPY_DST,
            options.mag_filter == FilterMode::Linear,
            options.min_filter == FilterMode::Linear,
    {
        TextureOptions {
            label: "Texture".to_owned(),
            format: TextureFormat::Rgba8UnormSrgb,
            usage: TEXTURE_USAGE_TEXTURE_BINDING | TEXTURE_USAGE_COPY_DST,
            mag_filter: FilterMode::Linear,
            min_filter: FilterMode::Linear,
        }
    }
}

/// The error texture dimensions raise against the device limit, if any.
pub open spec fn spec_dimensions_error(width: u32, height: u32, limit: u32) -> Option<BelfastError> {
    if width == 0 || height == 0 {
        Some(BelfastError::InvalidTextureDimensions { width, height })
    } else if width > limit || height > limit {
        Some(BelfastError::TextureDimensionsExceedLimit { width, height, limit })
    } else {
        None
    }
}

/// Checks that both dimensions are positive and within the device limit.
pub fn validate_dimensions(width: u32, height: u32, limit: u32) -> (checked: Result<(), BelfastError>)
    ensures
        match spec_dimensions_error(width, height, limit) {
            Some(e) => checked matches Err(x) && x == e,
            None => checked is Ok,
        },
{
    if width == 0 || height == 0 {
        return Err(BelfastError::InvalidTextureDimensions { width, height });
    }
    if width > limit || height > limit {
        return Err(BelfastError::TextureDimensionsExceedLimit { width, height, limit });
    }
    Ok(())
}

/// A 2D texture as validation sees it: its device, size and format.
#[derive(Clone, Copy, Debug)]
pub struct Texture {
    device: Device,
    width: u32,
    height: u32,
    format: TextureFormat,
}

impl Texture {
    /// The device that created the texture.
    pub closed spec fn spec_device(&self) -> Device {
        self.device
    }

    /// Width in texels.
    pub closed spec fn spec_width(&self) -> u32 {
        self.width
    }

    /// Height in texels.
    pub closed spec fn spec_height(&self) -> u32 {
        self.height
    }

    /// Texel format.
    pub closed spec fn spec_format(&self) -> TextureFormat {
        self.format
    }

    /// A texture of the given size on `device`, once its dimensions pass the
    /// device's 2D limit.
    pub fn create_2d(device: &Device, width: u32, height: u32, options: TextureOptions) -> (texture:
        Result<Texture, BelfastError>)
        ensures
            match spec_dimensions_error(width, height, device.limits.max_texture_dimension_2d) {
                Some(e) => texture matches Err(x) && x == e,
                None => texture matches Ok(t) && t.spec_device() == *device && t.spec_width()
                    == width && t.spec_height() == height && t.spec_format() == options.format,
            },
    {
        match validate_dimensions(width, height, device.limits.max_texture_dimension_2d) {
            Ok(()) => {},
            Err(e) => return Err(e),
        }
        Ok(Texture { device: *device, width, height, format: options.format })
    }

    /// A texture filled from tightly packed RGBA8 rows, once its dimensions
    /// pass the device's 2D limit and `data` holds four bytes per texel.
    pub fn from_rgba8(
        device: &Device,
        width: u32,
        height: u32,
        data: &[u8],
        options: TextureOptions,
    ) -> (texture: Result<Texture, BelfastError>)
        requires
            spec_dimensions_error(width, height, device.limits.max_texture_dimension_2d) is None
                ==> width * height * 4 <= usize::MAX,
        ensures
            match spec_dimensions_error(width, height, device.limits.max_texture_dimension_2d) {
                Some(e) => texture matches Err(x) && x == e,
                None => if data@.len() != width * height * 4 {
                    texture matches Err(x) && x == (BelfastError::InvalidTextureDataLength {
                        expected: (width * height * 4) as usize,
                        actual: data@.len() as usize,
                    })
                } else {
                    texture matches Ok(t) && t.spec_device() == *device && t.spec_width() == width
                        && t.spec_height() == height && t.spec_format() == options.format
                },
            },
    {
        match validate_dimensions(width, height, device.limits.max_texture_dimension_2d) {
            Ok(()) => {},
            Err(e) => return Err(e),
        }
        proof {
            assert(width * height <= width * height * 4) by (nonlinear_arith);
            assert(width * height * 4 == (width * height) * 4);
        }
        let pixels = width as usize * height as usize;
        let expected = pixels * 4;
        if data.len() != expected {
            return Err(BelfastError::InvalidTextureDataLength { expected, actual: data.len() });
        }
        Texture::create_2d(device, width, height, options)
    }

    /// The device that created the texture.
    pub fn device(&self) -> (device: &Device)
        ensures
            *device == self.spec_device(),
    {
        &self.device
    }

    /// Width in texels.
    pub fn width(&self) -> (width: u32)
        ensures
            width == self.spec_width(),
    {
        self.width
    }

    /// Height in texels.
    pub fn height(&self) -> (height: u32)
        ensures
            height == self.spec_height(),
    {
        self.height
    }

    /// Texel format.
    pub fn format(&self) -> (format: TextureFormat)
        ensures
            format == self.spec_format(),
    {
        self.format
    }
}

/// Why texture options from a caller were refused.
#[derive(Clone, Debug)]
pub enum TextureOptionsError {
    UnsupportedFormat(String),
    UnsupportedFilter { name: String, value: String },
}

/// The format a format name selects: "rgba8unorm", or "rgba8unorm-srgb"
/// which is also the default.
pub open spec fn spec_format_named(value: Seq<char>) -> Option<TextureFormat> {
    if value == "rgba8unorm"@ {
        Some(TextureFormat::Rgba8Unorm)
    } else if value == "rgba8unorm-srgb"@ {
        Some(TextureFormat::Rgba8UnormSrgb)
    } else {
        None
    }
}

/// The filter a filter name selects: "nearest", or "linear" which is also
/// the default.
pub open spec fn spec_filter_named(value: Seq<char>) -> Option<FilterMode> {
    if value == "nearest"@ {
        Some(FilterMode::Nearest)
    } else if value == "linear"@ {
        Some(FilterMode::Linear)
    } else {
        None
    }
}

/// Reads a texture format name; none selects sRGB RGBA8.
pub fn resolve_format(value: Option<&str>) -> (format: Result<TextureFormat, TextureOptionsError>)
    ensures
        value is None ==> format == Ok::<TextureFormat, TextureOptionsError>(
            TextureFormat::Rgba8UnormSrgb,
        ),
        value matches Some(v) ==> match spec_format_named(v@) {
            Some(f) => format == Ok::<TextureFormat, TextureOptionsError>(f),
            None => format matches Err(TextureOptionsError::UnsupportedFormat(s)) && s@ == v@,
        },
{
    match value {
        None => Ok(TextureFormat::Rgba8UnormSrgb),
        Some(v) => {
            if str_equals(v, "rgba8unorm") {
                Ok(TextureFormat::Rgba8Unorm)
            } else if str_equals(v, "rgba8unorm-srgb") {
                Ok(TextureFormat::Rgba8UnormSrgb)
            } else {
                Err(TextureOptionsError::UnsupportedFormat(v.to_owned()))
            }
        },
    }
}

/// Reads a filter name for the option `name`; none selects linear filtering.
pub fn resolve_filter(name: &str, value: Option<&str>) -> (filter: Result<FilterMode, TextureOptionsError>)
    ensures
        value is None ==> filter == Ok::<FilterMode, TextureOptionsError>(FilterMode::Linear),
        value matches Some(v) ==> match spec_filter_named(v@) {
            Some(f) => filter == Ok::<FilterMode, TextureOptionsError>(f),
            None => filter matches Err(TextureOptionsError::UnsupportedFilter { name: n, value: s })
                && n@ == name@ && s@ == v@,
        },
{
    match value {
        None => Ok(FilterMode::Linear),
        Some(v) => {
            if str_equals(v, "nearest") {
                Ok(FilterMode::Nearest)
            } else if str_equals(v, "linear") {
                Ok(FilterMode::Linear)
            } else {
                Err(TextureOptionsError::UnsupportedFilter { name: name.to_owned(), value: v.to_owned() })
            }
        },
    }
}

/// Texture options as a caller gives them.
#[derive(Clone, Debug, Default)]
pub struct TextureOptionsInput {
    pub label: Option<String>,
    pub flip_y: Option<bool>,
    pub format: Option<String>,
    pub mag_filter: Option<String>,
    pub min_filter: Option<String>,
}

/// Texture options with their defaults filled in.
#[derive(Clone, Debug)]
pub struct ResolvedTextureOptions {
    pub label: String,
    pub flip_y: bool,
    pub format: TextureFormat,
    pub mag_filter: FilterMode,
    pub min_filter: FilterMode,
}

fn as_str_option(value: &Option<String>) -> (s: Option<&str>)
    ensures
        value is None ==> s is None,
        value matches Some(v) ==> s matches Some(x) && x@ == v@,
{
    match value {
        Some(v) => Some(v.as_str()),
        None => None,
    }
}

/// A format name that selects no format.
pub open spec fn spec_bad_format(format: Option<String>) -> bool {
    format matches Some(f) && spec_format_named(f@) is None
}

/// A filter name that selects no filter.
pub open spec fn spec_bad_filter(filter: Option<String>) -> bool {
    filter matches Some(f) && spec_filter_named(f@) is None
}

impl TextureOptionsInput {
    /// Fills in the label "Texture", flipping rows, sRGB RGBA8 and linear
    /// filtering where the caller gave none; refuses unknown names.
    pub fn resolve(self) -> (options: Result<ResolvedTextureOptions, TextureOptionsError>)
        ensures
            match options {
                Ok(o) => {
                    &&& o.label@ == (match self.label {
                        Some(l) => l@,
                        None => "Texture"@,
                    })
                    &&& o.flip_y == (match self.flip_y {
                        Some(f) => f,
                        None => true,
                    })
                    &&& o.format == (match self.format {
                        Some(f) => spec_format_named(f@).unwrap(),
                        None => TextureFormat::Rgba8UnormSrgb,
                    })
                    &&& o.mag_filter == (match self.mag_filter {
                        Some(f) => spec_filter_named(f@).unwrap(),
                        None => FilterMode::Linear,
                    })
                    &&& o.min_filter == (match self.min_filter {
                        Some(f) => spec_filter_named(f@).unwrap(),
                        None => FilterMode::Linear,
                    })
                },
                Err(_) => spec_bad_format(self.format) || spec_bad_filter(self.mag_filter)
                    || spec_bad_filter(self.min_filter),
            },
            spec_bad_format(self.format) ==> (options matches Err(
                TextureOptionsError::UnsupportedFormat(s),
            ) && s@ == self.format.unwrap()@),
            !spec_bad_format(self.format) && spec_bad_filter(self.mag_filter) ==> (options matches Err(
                TextureOptionsError::UnsupportedFilter { name, value },
            ) && name@ == "magFilter"@ && value@ == self.mag_filter.unwrap()@),
            !spec_bad_format(self.format) && !spec_bad_filter(self.mag_filter) && spec_bad_filter(
                self.min_filter,
            ) ==> (options matches Err(TextureOptionsError::UnsupportedFilter { name, value })
                && name@ == "minFilter"@ && value@ == self.min_filter.unwrap()@),
    {
        let format = match resolve_format(as_str_option(&self.format)) {
            Ok(f) => f,
            Err(e) => return Err(e),
        };
        let mag_filter = match resolve_filter("magFilter", as_str_option(&self.mag_filter)) {
            Ok(f) => f,
            Err(e) => return Err(e),
        };
        let min_filter = match resolve_filter("minFilter", as_str_option(&self.min_filter)) {
            Ok(f) => f,
            Err(e) => return Err(e),
        };
        let label = match self.label {
            Some(l) => l,
            None => "Texture".to_owned(),
        };
        let flip_y = match self.flip_y {
            Some(f) => f,
            None => true,
        };
        Ok(ResolvedTextureOptions { label, flip_y, format, mag_filter, min_filter })
    }
}

} // verus!
