use vstd::prelude::*;

use crate::texture::{spec_is_srgb, TextureFormat};

verus! {

/// The color space a surface presents in.
#[derive(Clone, Copy, Debug, PartialEq, Eq, Structural)]
pub enum SurfaceColorSpace {
    Auto,
    Srgb,
    ExtendedSrgbLinear,
    DisplayP3,
    Bt2100Pq,
    Bt2100Hlg,
    ExtendedSrgb,
    ExtendedDisplayP3,
}

/// Color space flag: sRGB.
pub const COLOR_SPACE_SRGB: u32 = 1;
/// Color space flag: linear extended-range sRGB.
pub const COLOR_SPACE_EXTENDED_SRGB_LINEAR: u32 = 2;
/// Color space flag: Display P3.
pub const COLOR_SPACE_DISPLAY_P3: u32 = 4;
/// Color space flag: BT.2100 PQ.
pub const COLOR_SPACE_BT2100_PQ: u32 = 8;
/// Color space flag: BT.2100 HLG.
pub const COLOR_SPACE_BT2100_HLG: u32 = 16;
/// Color space flag: encoded extended-range sRGB.
pub const COLOR_SPACE_EXTENDED_SRGB: u32 = 32;
/// Color space flag: encoded extended-range Display P3.
pub const COLOR_SPACE_EXTENDED_DISPLAY_P3: u32 = 64;

/// The color spaces a surface supports for one format, as flags.
#[derive(Clone, Copy, Debug, PartialEq, Eq, Structural)]
pub struct SurfaceFormatCapabilities {
    pub format: TextureFormat,
    pub color_spaces: u32,
}

/// What a surface can present: its formats in preference order and the
/// color spaces of each format.
#[derive(Clone, Debug)]
pub struct SurfaceCapabilities {
    pub formats: Vec<TextureFormat>,
    pub format_capabilities: Vec<SurfaceFormatCapabilities>,
}

/// The color spaces the first `n` capability entries give `format`.
pub open spec fn spec_color_spaces(
    capabilities: Seq<SurfaceFormatCapabilities>,
    format: TextureFormat,
    n: int,
) -> u32
    decreases n,
{
    if n <= 0 {
        0
    } else {
        let before = spec_color_spaces(capabilities, format, n - 1);
        if capabilities[n - 1].format == format {
            before | capabilities[n - 1].color_spaces
        } else {
            before
        }
    }
}

impl SurfaceCapabilities {
    /// The color spaces supported for `format`: those of all its entries,
    /// none when it has no entry.
    pub fn color_spaces(&self, format: TextureFormat) -> (spaces: u32)
        ensures
            spaces == spec_color_spaces(
                self.format_capabilities@,
                format,
                self.format_capabilities@.len() as int,
            ),
    {
        let mut spaces: u32 = 0;
        let mut i: usize = 0;
        while i < self.format_capabilities.len()
            invariant
                i <= self.format_capabilities@.len(),
                spaces == spec_color_spaces(self.format_capabilities@, format, i as int),
            decreases self.format_capabilities@.len() - i,
        {
            if self.format_capabilities[i].format == format {
                spaces = spaces | self.format_capabilities[i].color_spaces;
            }
            i = i + 1;
        }
        spaces
    }
}

/// The format and color space a surface is configured with.
#[derive(Clone, Copy, Debug, PartialEq, Eq, Structural)]
pub struct SurfaceColorChoice {
    pub format: TextureFormat,
    pub color_space: SurfaceColorSpace,
    pub hdr: bool,
}

/// The first sRGB format of the list.
pub open spec fn spec_first_srgb(formats: Seq<TextureFormat>) -> Option<TextureFormat>
    decreases formats.len(),
{
    if formats.len() == 0 {
        None
    } else if spec_is_srgb(formats[0]) {
        Some(formats[0])
    } else {
        spec_first_srgb(formats.drop_first())
    }
}

/// The standard-range choice: the first sRGB format, else the first
/// format, else `Bgra8UnormSrgb`, presented in the automatic color space.
pub open spec fn spec_sdr_choice(formats: Seq<TextureFormat>) -> SurfaceColorChoice {
    SurfaceColorChoice {
        format: match spec_first_srgb(formats) {
            Some(f) => f,
            None => if formats.len() > 0 {
                formats[0]
            } else {
                TextureFormat::Bgra8UnormSrgb
            },
        },
        color_space: SurfaceColorSpace::Auto,
        hdr: false,
    }
}

/// Whether the flag set holds the flag.
pub open spec fn spec_has_flag(spaces: u32, flag: u32) -> bool {
    spaces & flag == flag
}

/// The surface choice: when HDR is wanted, `Rgba16Float` in linear then in
/// encoded extended-range sRGB if the surface supports it, else the
/// standard-range choice.
pub open spec fn spec_surface_color(
    capabilities: Seq<SurfaceFormatCapabilities>,
    formats: Seq<TextureFormat>,
    want_hdr: bool,
) -> SurfaceColorChoice {
    let spaces = spec_color_spaces(capabilities, TextureFormat::Rgba16Float, capabilities.len() as int);
    if want_hdr && spec_has_flag(spaces, COLOR_SPACE_EXTENDED_SRGB_LINEAR) {
        SurfaceColorChoice {
            format: TextureFormat::Rgba16Float,
            color_space: SurfaceColorSpace::ExtendedSrgbLinear,
            hdr: true,
        }
    } else if want_hdr && spec_has_flag(spaces, COLOR_SPACE_EXTENDED_SRGB) {
        SurfaceColorChoice {
            format: TextureFormat::Rgba16Float,
            color_space: SurfaceColorSpace::ExtendedSrgb,
            hdr: true,
        }
    } else {
        spec_sdr_choice(formats)
    }
}

/// The standard-range surface choice for the given formats.
pub fn sdr_choice(formats: &[TextureFormat]) -> (choice: SurfaceColorChoice)
    ensures
        choice == spec_sdr_choice(formats@),
{
    let mut i: usize = 0;
    proof {
        assert(formats@.subrange(0, formats@.len() as int) =~= formats@);
    }
    while i < formats.len()
        invariant
            i <= formats@.len(),
            spec_first_srgb(formats@) == spec_first_srgb(formats@.subrange(i as int, formats@.len() as int)),
        decreases formats@.len() - i,
    {
        let ghost rest = formats@.subrange(i as int, formats@.len() as int);
        proof {
            assert(rest.drop_first() =~= formats@.subrange(i as int + 1, formats@.len() as int));
        }
        if formats[i].is_srgb() {
            return SurfaceColorChoice { format: formats[i], color_space: SurfaceColorSpace::Auto, hdr: false };
        }
        i = i + 1;
    }
    let format = if formats.len() > 0 {
        formats[0]
    } else {
        TextureFormat::Bgra8UnormSrgb
    };
    SurfaceColorChoice { format, color_space: SurfaceColorSpace::Auto, hdr: false }
}

/// Picks the surface format and color space, preferring HDR when wanted and
/// supported.
pub fn pick_surface_color(capabilities: &SurfaceCapabilities, want_hdr: bool) -> (choice: SurfaceColorChoice)
    ensures
        choice == spec_surface_color(capabilities.format_capabilities@, capabilities.formats@, want_hdr),
{
    if want_hdr {
        let spaces = capabilities.color_spaces(TextureFormat::Rgba16Float);
        if spaces & COLOR_SPACE_EXTENDED_SRGB_LINEAR == COLOR_SPACE_EXTENDED_SRGB_LINEAR {
            return SurfaceColorChoice {
                format: TextureFormat::Rgba16Float,
                color_space: SurfaceColorSpace::ExtendedSrgbLinear,
                hdr: true,
            };
        }
        if spaces & COLOR_SPACE_EXTENDED_SRGB == COLOR_SPACE_EXTENDED_SRGB {
            return SurfaceColorChoice {
                format: TextureFormat::Rgba16Float,
                color_space: SurfaceColorSpace::ExtendedSrgb,
                hdr: true,
            };
        }
    }
    sdr_choice(capabilities.formats.as_slice())
}

} // verus!

verus! {

/// The surface presents in standard range unless HDR is wanted, and an HDR
/// choice is always `Rgba16Float` in an extended-range sRGB space.
pub proof fn law_hdr_only_when_wanted(
    capabilities: Seq<SurfaceFormatCapabilities>,
    formats: Seq<TextureFormat>,
    want_hdr: bool,
)
    ensures
        !want_hdr ==> spec_surface_color(capabilities, formats, want_hdr) == spec_sdr_choice(formats),
        spec_surface_color(capabilities, formats, want_hdr).hdr ==> {
            &&& want_hdr
            &&& spec_surface_color(capabilities, formats, want_hdr).format == TextureFormat::Rgba16Float
            &&& (spec_surface_color(capabilities, formats, want_hdr).color_space
                == SurfaceColorSpace::ExtendedSrgbLinear || spec_surface_color(
                capabilities,
                formats,
                want_hdr,
            ).color_space == SurfaceColorSpace::ExtendedSrgb)
        },
{
}

} // verus!
