//! The public enumerations of the VP9 frame descriptor and the
//! codec-private metadata, with their total conversions from raw
//! bitstream values.

use vstd::prelude::*;

verus! {

/// The VP9 profiles.
#[derive(Clone, Copy, Debug, PartialEq, Eq, Structural)]
pub enum Profile {
    /// Unknown.
    Unknown,
    /// Color depth: 8 bit/sample, chroma subsampling: 4:2:0
    Profile0,
    /// Color depth: 8 bit, chroma subsampling: 4:2:2, 4:4:0, 4:4:4
    Profile1,
    /// Color depth: 10-12 bit, chroma subsampling: 4:2:0
    Profile2,
    /// Color depth: 10-12 bit, chroma subsampling: 4:2:2, 4:4:0, 4:4:4
    Profile3,
}

/// The profile encoded by a raw value: 0 to 3, anything else is unknown.
pub open spec fn spec_profile_from(i: u8) -> Profile {
    if i == 0 {
        Profile::Profile0
    } else if i == 1 {
        Profile::Profile1
    } else if i == 2 {
        Profile::Profile2
    } else if i == 3 {
        Profile::Profile3
    } else {
        Profile::Unknown
    }
}

impl Profile {
    /// Maps a raw value to the profile it encodes.
    pub fn from_u8(i: u8) -> (r: Profile)
        ensures
            r == spec_profile_from(i),
    {
        match i {
            0 => Profile::Profile0,
            1 => Profile::Profile1,
            2 => Profile::Profile2,
            3 => Profile::Profile3,
            _ => Profile::Unknown,
        }
    }
}

/// Chroma subsampling.
#[derive(Clone, Copy, Debug, PartialEq, Eq, Structural)]
pub enum Subsampling {
    /// 4:4:4 - No chroma subsampling.
    Yuv444,
    /// 4:4:0 - Subsampling along the y axis.
    Yuv440,
    /// 4:2:2 - Subsampling along the x axis.
    Yuv422,
    /// 4:2:0 - Subsampling along both x and y axis.
    Yuv420,
}

/// Chroma subsampling as defined in the codec-private metadata.
#[derive(Clone, Copy, Debug, PartialEq, Eq, Structural)]
pub enum MetadataSubsampling {
    /// Unknown.
    Unknown,
    /// 4:2:0 - Subsampling along both x and y axis.
    Yuv420,
    /// 4:2:0 - Chroma subsampling colocated with (0,0) luma.
    Yuv420Colocated,
    /// 4:2:2 - Subsampling along the x axis.
    Yuv422,
    /// 4:4:4 - No chroma subsampling.
    Yuv444,
}

/// The metadata subsampling encoded by a raw value.
pub open spec fn spec_metadata_subsampling_from(d: u8) -> MetadataSubsampling {
    if d == 0 {
        MetadataSubsampling::Yuv420
    } else if d == 1 {
        MetadataSubsampling::Yuv420Colocated
    } else if d == 2 {
        MetadataSubsampling::Yuv422
    } else if d == 3 {
        MetadataSubsampling::Yuv444
    } else {
        MetadataSubsampling::Unknown
    }
}

impl MetadataSubsampling {
    /// Maps a raw value to the subsampling it encodes.
    pub fn from_u8(d: u8) -> (r: MetadataSubsampling)
        ensures
            r == spec_metadata_subsampling_from(d),
    {
        match d {
            0 => MetadataSubsampling::Yuv420,
            1 => MetadataSubsampling::Yuv420Colocated,
            2 => MetadataSubsampling::Yuv422,
            3 => MetadataSubsampling::Yuv444,
            _ => MetadataSubsampling::Unknown,
        }
    }
}

/// Color space.
#[derive(Clone, Copy, Debug, PartialEq, Eq, Structural)]
pub enum ColorSpace {
    /// Unknown (the color space must then be signaled outside the VP9
    /// bitstream).
    Unknown,
    /// Rec. ITU-R BT.601-7
    Bt601,
    /// Rec. ITU-R BT.709-6
    Bt709,
    /// SMPTE-170
    Smpte170,
    /// SMPTE-240
    Smpte240,
    /// Rec. ITU-R BT.2020-2
    Bt2020,
    /// Reserved
    Reserved,
    /// sRGB (IEC 61966-2-1)
    Rgb,
}

/// The color space encoded by a raw 3-bit value.
pub open spec fn spec_color_space_from(i: u8) -> ColorSpace {
    if i == 1 {
        ColorSpace::Bt601
    } else if i == 2 {
        ColorSpace::Bt709
    } else if i == 3 {
        ColorSpace::Smpte170
    } else if i == 4 {
        ColorSpace::Smpte240
    } else if i == 5 {
        ColorSpace::Bt2020
    } else if i == 6 {
        ColorSpace::Reserved
    } else if i == 7 {
        ColorSpace::Rgb
    } else {
        ColorSpace::Unknown
    }
}

impl ColorSpace {
    /// Maps a raw value to the color space it encodes.
    pub fn from_u8(i: u8) -> (r: ColorSpace)
        ensures
            r == spec_color_space_from(i),
    {
        match i {
            1 => ColorSpace::Bt601,
            2 => ColorSpace::Bt709,
            3 => ColorSpace::Smpte170,
            4 => ColorSpace::Smpte240,
            5 => ColorSpace::Bt2020,
            6 => ColorSpace::Reserved,
            7 => ColorSpace::Rgb,
            _ => ColorSpace::Unknown,
        }
    }
}

/// Color depth.
#[derive(Clone, Copy, Debug, PartialEq, Eq, Structural)]
pub enum ColorDepth {
    /// Unknown.
    Unknown,
    /// 8 bit depth.
    Depth8,
    /// 10 bit depth.
    Depth10,
    /// 12 bit depth.
    Depth12,
}

/// The color depth encoded by a raw value: 8, 10 or 12 bits per sample.
pub open spec fn spec_color_depth_from(d: u8) -> ColorDepth {
    if d == 8 {
        ColorDepth::Depth8
    } else if d == 10 {
        ColorDepth::Depth10
    } else if d == 12 {
        ColorDepth::Depth12
    } else {
        ColorDepth::Unknown
    }
}

impl ColorDepth {
    /// Maps a raw value to the color depth it encodes.
    pub fn from_u8(d: u8) -> (r: ColorDepth)
        ensures
            r == spec_color_depth_from(d),
    {
        match d {
            8 => ColorDepth::Depth8,
            10 => ColorDepth::Depth10,
            12 => ColorDepth::Depth12,
            _ => ColorDepth::Unknown,
        }
    }
}

/// The black level and range of the luma and chroma signals as specified
/// in Rec. ITU-R BT.709-6 and Rec. ITU-R BT.2020-2.
#[derive(Clone, Copy, Debug, PartialEq, Eq, Structural)]
pub enum ColorRange {
    /// Put restriction on Y, U, V values.
    StudioSwing,
    /// No restriction on Y, U, V values.
    FullSwing,
}

/// The color range encoded by one bit.
pub open spec fn spec_color_range_from(b: bool) -> ColorRange {
    if b {
        ColorRange::FullSwing
    } else {
        ColorRange::StudioSwing
    }
}

impl ColorRange {
    /// Maps one bit to the color range it encodes.
    pub fn from_bool(b: bool) -> (r: ColorRange)
        ensures
            r == spec_color_range_from(b),
    {
        if b {
            ColorRange::FullSwing
        } else {
            ColorRange::StudioSwing
        }
    }
}

/// Type of the interpolation filter.
#[derive(Clone, Copy, Debug, PartialEq, Eq, Structural)]
pub enum InterpolationFilter {
    /// Unknown.
    Unknown,
    /// EIGHTTAP.
    Eighttap,
    /// EIGHTTAP_SMOOTH.
    EighttapSmooth,
    /// EIGHTTAP_SHARP.
    EighttapSharp,
    /// BILINEAR.
    Bilinear,
    /// SWITCHABLE.
    Switchable,
}

/// The interpolation filter encoded by a raw 2-bit value.
pub open spec fn spec_interpolation_filter_from(i: u8) -> InterpolationFilter {
    if i == 0 {
        InterpolationFilter::EighttapSmooth
    } else if i == 1 {
        InterpolationFilter::Eighttap
    } else if i == 2 {
        InterpolationFilter::EighttapSharp
    } else if i == 3 {
        InterpolationFilter::Bilinear
    } else {
        InterpolationFilter::Unknown
    }
}

impl InterpolationFilter {
    /// Maps a raw 2-bit value to the filter it encodes.
    pub fn from_u8(i: u8) -> (r: InterpolationFilter)
        ensures
            r == spec_interpolation_filter_from(i),
    {
        match i {
            0 => InterpolationFilter::EighttapSmooth,
            1 => InterpolationFilter::Eighttap,
            2 => InterpolationFilter::EighttapSharp,
            3 => InterpolationFilter::Bilinear,
            _ => InterpolationFilter::Unknown,
        }
    }
}

/// The type of a frame.
#[derive(Clone, Copy, Debug, PartialEq, Eq, Structural)]
pub enum FrameType {
    /// Frame is a key frame.
    KeyFrame,
    /// Frame is not a key frame.
    NonKeyFrame,
}

/// The frame type encoded by one bit: a clear bit means a key frame.
pub open spec fn spec_frame_type_from(b: bool) -> FrameType {
    if b {
        FrameType::NonKeyFrame
    } else {
        FrameType::KeyFrame
    }
}

impl FrameType {
    /// Maps one bit to the frame type it encodes.
    pub fn from_bool(b: bool) -> (r: FrameType)
        ensures
            r == spec_frame_type_from(b),
    {
        if b {
            FrameType::NonKeyFrame
        } else {
            FrameType::KeyFrame
        }
    }
}

/// Defines if the frame context should be reset.
#[derive(Clone, Copy, Debug, PartialEq, Eq, Structural)]
pub enum ResetFrameContext {
    /// Unknown.
    Unknown,
    /// Do not reset any frame context.
    No0,
    /// Do not reset any frame context.
    No1,
    /// Resets just the context specified in the frame header.
    SingleReset,
    /// Resets all contexts.
    FullReset,
}

/// The reset behaviour encoded by a raw 2-bit value; every 2-bit value is
/// meaningful.
pub open spec fn spec_reset_frame_context_from(i: u8) -> ResetFrameContext {
    if i == 0 {
        ResetFrameContext::No0
    } else if i == 1 {
        ResetFrameContext::No1
    } else if i == 2 {
        ResetFrameContext::SingleReset
    } else if i == 3 {
        ResetFrameContext::FullReset
    } else {
        ResetFrameContext::Unknown
    }
}

impl ResetFrameContext {
    /// Maps a raw 2-bit value to the reset behaviour it encodes.
    pub fn from_u8(i: u8) -> (r: ResetFrameContext)
        ensures
            r == spec_reset_frame_context_from(i),
    {
        match i {
            0 => ResetFrameContext::No0,
            1 => ResetFrameContext::No1,
            2 => ResetFrameContext::SingleReset,
            3 => ResetFrameContext::FullReset,
            _ => ResetFrameContext::Unknown,
        }
    }
}

/// The codec level.
#[derive(Clone, Copy, Debug, PartialEq, Eq, Structural)]
pub enum Level {
    /// Unknown.
    Unknown,
    /// Level 1: 0.20 MBit/s
    Level1,
    /// Level 1.1: 0.80 MBit/s
    Level1_1,
    /// Level 2: 1.8 MBit/s
    Level2,
    /// Level 2.1: 3.6 MBit/s
    Level2_1,
    /// Level 3: 7.2 MBit/s
    Level3,
    /// Level 3.1: 12 MBit/s
    Level3_1,
    /// Level 4: 18 MBit/s
    Level4,
    /// Level 4.1: 30 MBit/s
    Level4_1,
    /// Level 5: 60 MBit/s
    Level5,
    /// Level 5.1: 120 MBit/s
    Level5_1,
    /// Level 5.2: 180 MBit/s
    Level5_2,
    /// Level 6: 180 MBit/s
    Level6,
    /// Level 6.1: 240 MBit/s
    Level6_1,
    /// Level 6.2: 480 MBit/s
    Level6_2,
}

/// The level encoded by a raw value as 10 x tens + tenths.
pub open spec fn spec_level_from(d: u8) -> Level {
    if d == 10 {
        Level::Level1
    } else if d == 11 {
        Level::Level1_1
    } else if d == 20 {
        Level::Level2
    } else if d == 21 {
        Level::Level2_1
    } else if d == 30 {
        Level::Level3
    } else if d == 31 {
        Level::Level3_1
    } else if d == 40 {
        Level::Level4
    } else if d == 41 {
        Level::Level4_1
    } else if d == 50 {
        Level::Level5
    } else if d == 51 {
        Level::Level5_1
    } else if d == 52 {
        Level::Level5_2
    } else if d == 60 {
        Level::Level6
    } else if d == 61 {
        Level::Level6_1
    } else if d == 62 {
        Level::Level6_2
    } else {
        Level::Unknown
    }
}

impl Level {
    /// Maps a raw value to the level it encodes.
    pub fn from_u8(d: u8) -> (r: Level)
        ensures
            r == spec_level_from(d),
    {
        match d {
            10 => Level::Level1,
            11 => Level::Level1_1,
            20 => Level::Level2,
            21 => Level::Level2_1,
            30 => Level::Level3,
            31 => Level::Level3_1,
            40 => Level::Level4,
            41 => Level::Level4_1,
            50 => Level::Level5,
            51 => Level::Level5_1,
            52 => Level::Level5_2,
            60 => Level::Level6,
            61 => Level::Level6_1,
            62 => Level::Level6_2,
            _ => Level::Unknown,
        }
    }
}

/// The width and height stored in one of the eight reference frame slots.
#[derive(Clone, Copy, Debug, PartialEq, Eq, Structural)]
pub struct RefSize {
    /// Stored frame width in pixels.
    pub width: u16,
    /// Stored frame height in pixels.
    pub height: u16,
}

} // verus!
