//! The bit-level meaning of the VP9 uncompressed frame header.
//!
//! Everything here is specification: a functional description of the
//! header syntax over a byte sequence and a bit position, phrased with
//! `bits_value` and friends from the bit reader.  The executable parser
//! is proved to return exactly what `spec_parse_frame` describes.

use vstd::prelude::*;

use crate::bits::bit_at;
use crate::bits::bits_value;
use crate::bits::signed_value;
use crate::error::ParserError;
use crate::types::ColorDepth;
use crate::types::ColorRange;
use crate::types::ColorSpace;
use crate::types::FrameType;
use crate::types::InterpolationFilter;
use crate::types::Profile;
use crate::types::RefSize;
use crate::types::ResetFrameContext;
use crate::types::spec_color_range_from;
use crate::types::spec_color_space_from;
use crate::types::spec_frame_type_from;
use crate::types::spec_interpolation_filter_from;
use crate::types::spec_profile_from;
use crate::types::spec_reset_frame_context_from;

verus! {

/// The cross-frame parser state: last frame type, the sizes stored in the
/// eight reference slots, and the persistent loop filter deltas.
#[verifier::ext_equal]
pub struct StateModel {
    /// Type of the previous non-show-existing frame.
    pub last_frame_type: FrameType,
    /// Width and height stored in each of the 8 reference slots.
    pub ref_frame_sizes: Seq<RefSize>,
    /// Persistent loop filter reference deltas (4 entries).
    pub loop_filter_ref_deltas: Seq<i8>,
    /// Persistent loop filter mode deltas (2 entries).
    pub loop_filter_mode_deltas: Seq<i8>,
}

/// The state a freshly constructed parser holds.
pub open spec fn initial_state() -> StateModel {
    StateModel {
        last_frame_type: FrameType::NonKeyFrame,
        ref_frame_sizes: Seq::new(8, |i: int| RefSize { width: 0u16, height: 0u16 }),
        loop_filter_ref_deltas: seq![1i8, 0i8, -1i8, -1i8],
        loop_filter_mode_deltas: seq![0i8, 0i8],
    }
}

/// The mathematical content of a frame descriptor.
#[verifier::ext_equal]
pub struct FrameModel {
    /// The frame payload bytes the descriptor owns.
    pub data: Seq<u8>,
    /// The profile the frame is using.
    pub profile: Profile,
    /// The frame shows a previously decoded frame and carries no other
    /// header syntax.
    pub show_existing_frame: bool,
    /// The reference slot to show, present only with
    /// `show_existing_frame`.
    pub frame_to_show_map_idx: Option<u8>,
    /// Type of the previous non-show-existing frame.
    pub last_frame_type: FrameType,
    /// Type of this frame.
    pub frame_type: FrameType,
    /// Whether to output this frame.
    pub show_frame: bool,
    /// Error resilient mode is enabled.
    pub error_resilient_mode: bool,
    /// The frame is an intra-only frame.
    pub intra_only: bool,
    /// Whether the frame context should be reset.
    pub reset_frame_context: ResetFrameContext,
    /// The 3 reference slot indices: LAST, GOLDEN, ALTREF.
    pub ref_frame_indices: Seq<u8>,
    /// Sign bias per reference kind: INTRA, LAST, GOLDEN, ALTREF.
    pub ref_frame_sign_bias: Seq<bool>,
    /// Motion vector precision.
    pub allow_high_precision_mv: bool,
    /// The probabilities of this frame are stored for future frames.
    pub refresh_frame_context: bool,
    /// Bitmap of reference slots overwritten by this frame.
    pub refresh_frame_flags: u8,
    /// Parallel decoding mode.
    pub frame_parallel_decoding_mode: bool,
    /// Which frame context to use, 2 bits.
    pub frame_context_idx: u8,
    /// Byte count of the uncompressed header from the start of the
    /// payload.
    pub uncompressed_header_size: nat,
    /// Byte count of the compressed header, as carried in the
    /// uncompressed header.
    pub compressed_header_size: nat,
    /// Byte count of the tile data: the rest of the payload.
    pub tile_size: nat,
    /// The color depth.
    pub color_depth: ColorDepth,
    /// The color space.
    pub color_space: ColorSpace,
    /// The color range.
    pub color_range: ColorRange,
    /// Chroma subsampling along the x axis.
    pub subsampling_x: bool,
    /// Chroma subsampling along the y axis.
    pub subsampling_y: bool,
    /// Frame width in pixels.
    pub width: u16,
    /// Frame height in pixels.
    pub height: u16,
    /// Desired render width.
    pub render_width: u16,
    /// Desired render height.
    pub render_height: u16,
    /// Frame width in 8x8 blocks: (width + 7) >> 3.
    pub mi_cols: u16,
    /// Frame height in 8x8 blocks: (height + 7) >> 3.
    pub mi_rows: u16,
    /// Base 2 logarithm of the number of tile rows.
    pub tile_rows_log2: u8,
    /// Base 2 logarithm of the number of tile columns.
    pub tile_cols_log2: u8,
    /// The interpolation filter.
    pub interpolation_filter: InterpolationFilter,
    /// Loop filter strength, 6 bits.
    pub loop_filter_level: u8,
    /// Loop filter sharpness, 3 bits.
    pub loop_filter_sharpness: u8,
    /// The filter level depends on mode and reference frame.
    pub loop_filter_delta_enabled: bool,
    /// Kept for completeness and always false: delta updates are folded
    /// directly into loop_filter_ref_deltas.
    pub update_ref_delta: bool,
    /// Loop filter reference deltas after this frame.
    pub loop_filter_ref_deltas: Seq<i8>,
    /// Kept for completeness and always false: delta updates are folded
    /// directly into loop_filter_mode_deltas.
    pub update_mode_delta: bool,
    /// Loop filter mode deltas after this frame.
    pub loop_filter_mode_deltas: Seq<i8>,
    /// The base frame qindex, 0..255.
    pub base_q_idx: i32,
    /// The Y DC quantizer delta, -15..15.
    pub delta_q_y_dc: i32,
    /// The UV DC quantizer delta, -15..15.
    pub delta_q_uv_dc: i32,
    /// The UV AC quantizer delta, -15..15.
    pub delta_q_uv_ac: i32,
    /// All four quantizer values are zero.
    pub lossless: bool,
    /// Segmentation is in use.
    pub segmentation_enabled: bool,
    /// The segmentation map is updated by this frame.
    pub segmentation_update_map: bool,
    /// Probabilities for decoding segment_id (7 entries).
    pub segment_tree_probs: Seq<u8>,
    /// Probabilities for decoding seg_id_predicted (3 entries).
    pub segment_pred_probs: Seq<u8>,
    /// Segmentation map updates are coded relative to the existing map.
    pub segmentation_temporal_update: bool,
    /// New parameters are specified for each segment.
    pub segmentation_update_data: bool,
    /// Segmentation values are absolute rather than deltas.
    pub segmentation_abs_or_delta_update: bool,
    /// Per segment, which of the 4 features is active (8 x 4).
    pub segment_feature_active: Seq<Seq<bool>>,
    /// Per segment, the value of each of the 4 features (8 x 4).
    pub segment_feature_data: Seq<Seq<i16>>,
}

/// A frame descriptor whose every field holds its default value, before
/// any syntax is applied to it.
#[verifier::opaque]
pub open spec fn base_frame_model(data: Seq<u8>) -> FrameModel {
    FrameModel {
        data: data,
        profile: Profile::Profile0,
        show_existing_frame: false,
        frame_to_show_map_idx: None,
        last_frame_type: FrameType::NonKeyFrame,
        frame_type: FrameType::NonKeyFrame,
        show_frame: false,
        error_resilient_mode: false,
        intra_only: false,
        reset_frame_context: ResetFrameContext::No0,
        ref_frame_indices: seq![0u8, 0u8, 0u8],
        ref_frame_sign_bias: seq![false, false, false, false],
        allow_high_precision_mv: false,
        refresh_frame_context: false,
        refresh_frame_flags: 0u8,
        frame_parallel_decoding_mode: true,
        frame_context_idx: 0u8,
        uncompressed_header_size: 0,
        compressed_header_size: 0,
        tile_size: 0,
        color_depth: ColorDepth::Depth8,
        color_space: ColorSpace::Unknown,
        color_range: ColorRange::StudioSwing,
        subsampling_x: true,
        subsampling_y: true,
        width: 0u16,
        height: 0u16,
        render_width: 0u16,
        render_height: 0u16,
        mi_cols: 0u16,
        mi_rows: 0u16,
        tile_rows_log2: 0u8,
        tile_cols_log2: 0u8,
        interpolation_filter: InterpolationFilter::Eighttap,
        loop_filter_level: 0u8,
        loop_filter_sharpness: 0u8,
        loop_filter_delta_enabled: false,
        update_ref_delta: false,
        loop_filter_ref_deltas: seq![1i8, 0i8, -1i8, -1i8],
        update_mode_delta: false,
        loop_filter_mode_deltas: seq![0i8, 0i8],
        base_q_idx: 0i32,
        delta_q_y_dc: 0i32,
        delta_q_uv_dc: 0i32,
        delta_q_uv_ac: 0i32,
        lossless: false,
        segmentation_enabled: false,
        segmentation_update_map: false,
        segment_tree_probs: seq![0u8, 0u8, 0u8, 0u8, 0u8, 0u8, 0u8],
        segment_pred_probs: seq![0u8, 0u8, 0u8],
        segmentation_temporal_update: false,
        segmentation_update_data: false,
        segmentation_abs_or_delta_update: false,
        segment_feature_active: Seq::new(8, |i: int| seq![false, false, false, false]),
        segment_feature_data: Seq::new(8, |i: int| seq![0i16, 0i16, 0i16, 0i16]),
    }
}

/// The descriptor of a show-existing frame: the parsed profile, the slot
/// index to show, and every other field at its default.
#[verifier::opaque]
pub open spec fn show_existing_frame_model(profile: Profile, idx: u8) -> FrameModel {
    FrameModel {
        profile: profile,
        show_existing_frame: true,
        frame_to_show_map_idx: Some(idx),
        ..base_frame_model(Seq::empty())
    }
}

/// Reading `n` bits at position `p` of `d`: the value and the new
/// position, or nothing when the buffer is exhausted.
pub open spec fn take_bits(d: Seq<u8>, p: nat, n: nat) -> Option<(nat, nat)> {
    if p + n <= 8 * d.len() {
        Some((bits_value(d, p, n), (p + n) as nat))
    } else {
        None
    }
}

/// Reading one bit at position `p` of `d` as a boolean.
pub open spec fn take_bit(d: Seq<u8>, p: nat) -> Option<(bool, nat)> {
    if p + 1 <= 8 * d.len() {
        Some((bit_at(d, p), (p + 1) as nat))
    } else {
        None
    }
}

/// Reading an `n`-bit magnitude plus one sign bit at position `p` of `d`.
pub open spec fn take_signed(d: Seq<u8>, p: nat, n: nat) -> Option<(int, nat)> {
    if p + n + 1 <= 8 * d.len() {
        Some((signed_value(d, p, n), (p + n + 1) as nat))
    } else {
        None
    }
}

/// The profile field: two bits, low bit first, plus one reserved bit
/// after profile 3.
#[verifier::opaque]
pub open spec fn spec_profile(d: Seq<u8>, p: nat) -> Result<(Profile, nat), ParserError> {
    match take_bit(d, p) {
        None => Err(ParserError::BitRead),
        Some((lo, p1)) => match take_bit(d, p1) {
            None => Err(ParserError::BitRead),
            Some((hi, p2)) => {
                let profile = spec_profile_from(
                    (((if hi {
                        2int
                    } else {
                        0int
                    }) + (if lo {
                        1int
                    } else {
                        0int
                    })) as u8),
                );
                if profile == Profile::Profile3 {
                    match take_bit(d, p2) {
                        None => Err(ParserError::BitRead),
                        Some((reserved, p3)) => Ok((profile, p3)),
                    }
                } else {
                    Ok((profile, p2))
                }
            },
        },
    }
}

/// The frame sync code: three bytes expected to be 0x49 0x83 0x42.  The
/// error is raised only when all three differ from their expected
/// values, matching the observed behaviour this parser preserves.
#[verifier::opaque]
pub open spec fn spec_sync_code(d: Seq<u8>, p: nat) -> Result<nat, ParserError> {
    match take_bits(d, p, 8) {
        None => Err(ParserError::BitRead),
        Some((b0, p1)) => match take_bits(d, p1, 8) {
            None => Err(ParserError::BitRead),
            Some((b1, p2)) => match take_bits(d, p2, 8) {
                None => Err(ParserError::BitRead),
                Some((b2, p3)) => {
                    if b0 != 0x49 && b1 != 0x83 && b2 != 0x42 {
                        Err(ParserError::InvalidSyncByte)
                    } else {
                        Ok(p3)
                    }
                },
            },
        },
    }
}

/// The color configuration read by key frames and intra-only frames of a
/// profile above 0.
#[derive(Clone, Copy, Debug, PartialEq, Eq, Structural)]
pub struct ColorInfo {
    /// The color depth.
    pub color_depth: ColorDepth,
    /// The color space.
    pub color_space: ColorSpace,
    /// The color range.
    pub color_range: ColorRange,
    /// Chroma subsampling along the x axis.
    pub subsampling_x: bool,
    /// Chroma subsampling along the y axis.
    pub subsampling_y: bool,
}

/// The color configuration a frame carries when it reads none.
pub open spec fn default_color_info() -> ColorInfo {
    ColorInfo {
        color_depth: ColorDepth::Depth8,
        color_space: ColorSpace::Unknown,
        color_range: ColorRange::StudioSwing,
        subsampling_x: true,
        subsampling_y: true,
    }
}

/// The forced color configuration of an intra-only frame of profile 0.
pub open spec fn forced_color_info() -> ColorInfo {
    ColorInfo {
        color_depth: ColorDepth::Depth8,
        color_space: ColorSpace::Bt601,
        color_range: ColorRange::StudioSwing,
        subsampling_x: true,
        subsampling_y: true,
    }
}

/// The color_config syntax: a depth bit for profiles 2 and 3, a 3-bit
/// color space, then range and subsampling depending on space and
/// profile.
#[verifier::opaque]
pub open spec fn spec_color_config(profile: Profile, d: Seq<u8>, p: nat) -> Result<
    (ColorInfo, nat),
    ParserError,
> {
    let depth_step: Result<(ColorDepth, nat), ParserError> = if profile == Profile::Profile2
        || profile == Profile::Profile3 {
        match take_bit(d, p) {
            None => Err(ParserError::BitRead),
            Some((twelve, p1)) => Ok(
                (
                    if twelve {
                        ColorDepth::Depth12
                    } else {
                        ColorDepth::Depth10
                    },
                    p1,
                ),
            ),
        }
    } else {
        Ok((ColorDepth::Depth8, p))
    };
    match depth_step {
        Err(e) => Err(e),
        Ok((depth, p1)) => match take_bits(d, p1, 3) {
            None => Err(ParserError::BitRead),
            Some((cs, p2)) => {
                let space = spec_color_space_from(cs as u8);
                let sub_profile = profile == Profile::Profile1 || profile == Profile::Profile3;
                if space == ColorSpace::Rgb {
                    if sub_profile {
                        match take_bit(d, p2) {
                            None => Err(ParserError::BitRead),
                            Some((reserved, p3)) => Ok(
                                (
                                    ColorInfo {
                                        color_depth: depth,
                                        color_space: space,
                                        color_range: ColorRange::FullSwing,
                                        subsampling_x: false,
                                        subsampling_y: false,
                                    },
                                    p3,
                                ),
                            ),
                        }
                    } else {
                        Ok(
                            (
                                ColorInfo {
                                    color_depth: depth,
                                    color_space: space,
                                    color_range: ColorRange::FullSwing,
                                    subsampling_x: true,
                                    subsampling_y: true,
                                },
                                p2,
                            ),
                        )
                    }
                } else {
                    match take_bit(d, p2) {
                        None => Err(ParserError::BitRead),
                        Some((range, p3)) => {
                            if sub_profile {
                                match take_bit(d, p3) {
                                    None => Err(ParserError::BitRead),
                                    Some((sx, p4)) => match take_bit(d, p4) {
                                        None => Err(ParserError::BitRead),
                                        Some((sy, p5)) => match take_bit(d, p5) {
                                            None => Err(ParserError::BitRead),
                                            Some((reserved, p6)) => Ok(
                                                (
                                                    ColorInfo {
                                                        color_depth: depth,
                                                        color_space: space,
                                                        color_range: spec_color_range_from(range),
                                                        subsampling_x: sx,
                                                        subsampling_y: sy,
                                                    },
                                                    p6,
                                                ),
                                            ),
                                        },
                                    },
                                }
                            } else {
                                Ok(
                                    (
                                        ColorInfo {
                                            color_depth: depth,
                                            color_space: space,
                                            color_range: spec_color_range_from(range),
                                            subsampling_x: true,
                                            subsampling_y: true,
                                        },
                                        p3,
                                    ),
                                )
                            }
                        },
                    }
                }
            },
        },
    }
}

/// A frame resolution together with its size in 8x8 blocks.
#[derive(Clone, Copy, Debug, PartialEq, Eq, Structural)]
pub struct SizeInfo {
    /// Frame width in pixels.
    pub width: u16,
    /// Frame height in pixels.
    pub height: u16,
    /// Frame width in 8x8 blocks.
    pub mi_cols: u16,
    /// Frame height in 8x8 blocks.
    pub mi_rows: u16,
}

/// A dimension in 8x8 blocks: (dim + 7) >> 3.
pub open spec fn mi_size(dim: u16) -> u16 {
    (((dim + 7) / 8) as u16)
}

/// The size of a frame from a width and a height in pixels.
pub open spec fn size_info_of(width: u16, height: u16) -> SizeInfo {
    SizeInfo { width, height, mi_cols: mi_size(width), mi_rows: mi_size(height) }
}

/// The frame_size syntax: 16-bit width-minus-1 and height-minus-1.  A
/// field of 0xFFFF would need a width of 65536, which does not fit the
/// 16-bit descriptor field and is surfaced as NumericRange rather than
/// silently truncated.
#[verifier::opaque]
pub open spec fn spec_frame_size(d: Seq<u8>, p: nat) -> Result<(SizeInfo, nat), ParserError> {
    match take_bits(d, p, 16) {
        None => Err(ParserError::BitRead),
        Some((wm1, p1)) => match take_bits(d, p1, 16) {
            None => Err(ParserError::BitRead),
            Some((hm1, p2)) => {
                if wm1 == 0xFFFF || hm1 == 0xFFFF {
                    Err(ParserError::NumericRange)
                } else {
                    Ok((size_info_of(((wm1 + 1) as u16), ((hm1 + 1) as u16)), p2))
                }
            },
        },
    }
}

/// The render_size syntax: either one clear bit, leaving the render size
/// equal to the frame size, or a set bit followed by explicit 16-bit
/// render width-minus-1 and height-minus-1.
#[verifier::opaque]
pub open spec fn spec_render_size(width: u16, height: u16, d: Seq<u8>, p: nat) -> Result<
    ((u16, u16), nat),
    ParserError,
> {
    match take_bit(d, p) {
        None => Err(ParserError::BitRead),
        Some((different, p1)) => {
            if different {
                match take_bits(d, p1, 16) {
                    None => Err(ParserError::BitRead),
                    Some((wm1, p2)) => match take_bits(d, p2, 16) {
                        None => Err(ParserError::BitRead),
                        Some((hm1, p3)) => {
                            if wm1 == 0xFFFF || hm1 == 0xFFFF {
                                Err(ParserError::NumericRange)
                            } else {
                                Ok(((((wm1 + 1) as u16), ((hm1 + 1) as u16)), p3))
                            }
                        },
                    },
                }
            } else {
                Ok(((width, height), p1))
            }
        },
    }
}

/// The frame_size_with_refs syntax: up to three bits; the first set bit
/// copies the size stored in the addressed reference slot, and when no
/// bit is set the size is read explicitly.
#[verifier::opaque]
pub open spec fn spec_size_with_refs(
    sizes: Seq<RefSize>,
    idxs: Seq<u8>,
    d: Seq<u8>,
    p: nat,
) -> Result<(SizeInfo, nat), ParserError> {
    match take_bit(d, p) {
        None => Err(ParserError::BitRead),
        Some((f0, p0)) => {
            if f0 {
                let slot = sizes[idxs[0] as int];
                Ok((size_info_of(slot.width, slot.height), p0))
            } else {
                match take_bit(d, p0) {
                    None => Err(ParserError::BitRead),
                    Some((f1, p1)) => {
                        if f1 {
                            let slot = sizes[idxs[1] as int];
                            Ok((size_info_of(slot.width, slot.height), p1))
                        } else {
                            match take_bit(d, p1) {
                                None => Err(ParserError::BitRead),
                                Some((f2, p2)) => {
                                    if f2 {
                                        let slot = sizes[idxs[2] as int];
                                        Ok((size_info_of(slot.width, slot.height), p2))
                                    } else {
                                        spec_frame_size(d, p2)
                                    }
                                },
                            }
                        }
                    },
                }
            }
        },
    }
}

/// The interpolation_filter syntax: one bit for switchable, else a 2-bit
/// filter code.
#[verifier::opaque]
pub open spec fn spec_interpolation_filter(d: Seq<u8>, p: nat) -> Result<
    (InterpolationFilter, nat),
    ParserError,
> {
    match take_bit(d, p) {
        None => Err(ParserError::BitRead),
        Some((switchable, p1)) => {
            if switchable {
                Ok((InterpolationFilter::Switchable, p1))
            } else {
                match take_bits(d, p1, 2) {
                    None => Err(ParserError::BitRead),
                    Some((raw, p2)) => Ok((spec_interpolation_filter_from(raw as u8), p2)),
                }
            }
        },
    }
}

/// One pass of loop filter delta updates over `cur`, starting at entry
/// `k`: each entry is preceded by one bit saying whether a 6-bit signed
/// update follows.
pub open spec fn spec_delta_updates(cur: Seq<i8>, k: nat, d: Seq<u8>, p: nat) -> Result<
    (Seq<i8>, nat),
    ParserError,
>
    decreases cur.len() - k,
{
    if k >= cur.len() {
        Ok((cur, p))
    } else {
        match take_bit(d, p) {
            None => Err(ParserError::BitRead),
            Some((update, p1)) => {
                if update {
                    match take_signed(d, p1, 6) {
                        None => Err(ParserError::BitRead),
                        Some((v, p2)) => spec_delta_updates(
                            cur.update(k as int, (v as i8)),
                            k + 1,
                            d,
                            p2,
                        ),
                    }
                } else {
                    spec_delta_updates(cur, k + 1, d, p1)
                }
            },
        }
    }
}

/// The loop filter level, sharpness and delta-enabled flag.
#[derive(Clone, Copy, Debug, PartialEq, Eq, Structural)]
pub struct LoopFilterInfo {
    /// Loop filter strength, 6 bits.
    pub level: u8,
    /// Loop filter sharpness, 3 bits.
    pub sharpness: u8,
    /// The filter level depends on mode and reference frame.
    pub delta_enabled: bool,
}

/// The loop_filter_params syntax, applied to the persistent deltas `rd`
/// and `md` after any reset: level, sharpness, the delta-enabled flag,
/// and, when deltas are enabled and the update flag is set, one update
/// pass over the reference deltas then over the mode deltas.
#[verifier::opaque]
pub open spec fn spec_loop_filter(rd: Seq<i8>, md: Seq<i8>, d: Seq<u8>, p: nat) -> Result<
    ((LoopFilterInfo, Seq<i8>, Seq<i8>), nat),
    ParserError,
> {
    match take_bits(d, p, 6) {
        None => Err(ParserError::BitRead),
        Some((level, p1)) => match take_bits(d, p1, 3) {
            None => Err(ParserError::BitRead),
            Some((sharpness, p2)) => match take_bit(d, p2) {
                None => Err(ParserError::BitRead),
                Some((delta_enabled, p3)) => {
                    let info = LoopFilterInfo {
                        level: (level as u8),
                        sharpness: (sharpness as u8),
                        delta_enabled: delta_enabled,
                    };
                    if delta_enabled {
                        match take_bit(d, p3) {
                            None => Err(ParserError::BitRead),
                            Some((update, p4)) => {
                                if update {
                                    match spec_delta_updates(rd, 0, d, p4) {
                                        Err(e) => Err(e),
                                        Ok((rd2, p5)) => match spec_delta_updates(md, 0, d, p5) {
                                            Err(e) => Err(e),
                                            Ok((md2, p6)) => Ok(((info, rd2, md2), p6)),
                                        },
                                    }
                                } else {
                                    Ok(((info, rd, md), p4))
                                }
                            },
                        }
                    } else {
                        Ok(((info, rd, md), p3))
                    }
                },
            },
        },
    }
}

/// The quantization parameters.
#[derive(Clone, Copy, Debug, PartialEq, Eq, Structural)]
pub struct QuantInfo {
    /// The base frame qindex, 0..255.
    pub base_q_idx: i32,
    /// The Y DC quantizer delta.
    pub delta_q_y_dc: i32,
    /// The UV DC quantizer delta.
    pub delta_q_uv_dc: i32,
    /// The UV AC quantizer delta.
    pub delta_q_uv_ac: i32,
    /// All four values are zero.
    pub lossless: bool,
}

/// One delta_q field: a flag, then a 4-bit signed value when set, else 0.
#[verifier::opaque]
pub open spec fn spec_delta_q(d: Seq<u8>, p: nat) -> Result<(int, nat), ParserError> {
    match take_bit(d, p) {
        None => Err(ParserError::BitRead),
        Some((coded, p1)) => {
            if coded {
                match take_signed(d, p1, 4) {
                    None => Err(ParserError::BitRead),
                    Some((v, p2)) => Ok((v, p2)),
                }
            } else {
                Ok((0, p1))
            }
        },
    }
}

/// The quantization_params syntax: an 8-bit base index and three delta_q
/// fields; lossless when all four are zero.
#[verifier::opaque]
pub open spec fn spec_quant(d: Seq<u8>, p: nat) -> Result<(QuantInfo, nat), ParserError> {
    match take_bits(d, p, 8) {
        None => Err(ParserError::BitRead),
        Some((base, p1)) => match spec_delta_q(d, p1) {
            Err(e) => Err(e),
            Ok((y_dc, p2)) => match spec_delta_q(d, p2) {
                Err(e) => Err(e),
                Ok((uv_dc, p3)) => match spec_delta_q(d, p3) {
                    Err(e) => Err(e),
                    Ok((uv_ac, p4)) => Ok(
                        (
                            QuantInfo {
                                base_q_idx: (base as i32),
                                delta_q_y_dc: (y_dc as i32),
                                delta_q_uv_dc: (uv_dc as i32),
                                delta_q_uv_ac: (uv_ac as i32),
                                lossless: base == 0 && y_dc == 0 && uv_dc == 0 && uv_ac == 0,
                            },
                            p4,
                        ),
                    ),
                },
            },
        },
    }
}

/// One probability field: a flag, then an 8-bit value when set, else 255.
#[verifier::opaque]
pub open spec fn spec_read_prob(d: Seq<u8>, p: nat) -> Result<(u8, nat), ParserError> {
    match take_bit(d, p) {
        None => Err(ParserError::BitRead),
        Some((coded, p1)) => {
            if coded {
                match take_bits(d, p1, 8) {
                    None => Err(ParserError::BitRead),
                    Some((v, p2)) => Ok(((v as u8), p2)),
                }
            } else {
                Ok((255u8, p1))
            }
        },
    }
}

/// Fills entries `k` onward of `cur` with probability fields.
pub open spec fn spec_probs(cur: Seq<u8>, k: nat, d: Seq<u8>, p: nat) -> Result<
    (Seq<u8>, nat),
    ParserError,
>
    decreases cur.len() - k,
{
    if k >= cur.len() {
        Ok((cur, p))
    } else {
        match spec_read_prob(d, p) {
            Err(e) => Err(e),
            Ok((v, p1)) => spec_probs(cur.update(k as int, v), k + 1, d, p1),
        }
    }
}

/// The flags of the segmentation syntax.
#[derive(Clone, Copy, Debug, PartialEq, Eq, Structural)]
pub struct SegFlags {
    /// Segmentation is in use.
    pub enabled: bool,
    /// The segmentation map is updated by this frame.
    pub update_map: bool,
    /// Map updates are coded relative to the existing map.
    pub temporal_update: bool,
    /// New parameters are specified for each segment.
    pub update_data: bool,
    /// Values are absolute rather than deltas.
    pub abs_or_delta_update: bool,
}

/// One segment of feature data: the four features ALT_Q (8-bit signed),
/// ALT_L (6-bit signed), REF_FRAME (2-bit signed) and SKIP (no data),
/// each preceded by an active flag.
#[verifier::opaque]
pub open spec fn spec_one_segment(d: Seq<u8>, p: nat) -> Result<
    ((Seq<bool>, Seq<i16>), nat),
    ParserError,
> {
    match take_bit(d, p) {
        None => Err(ParserError::BitRead),
        Some((fq, p1)) => {
            let q_step: Result<(int, nat), ParserError> = if fq {
                match take_signed(d, p1, 8) {
                    None => Err(ParserError::BitRead),
                    Some((v, p2)) => Ok((v, p2)),
                }
            } else {
                Ok((0, p1))
            };
            match q_step {
                Err(e) => Err(e),
                Ok((vq, p2)) => match take_bit(d, p2) {
                    None => Err(ParserError::BitRead),
                    Some((fl, p3)) => {
                        let l_step: Result<(int, nat), ParserError> = if fl {
                            match take_signed(d, p3, 6) {
                                None => Err(ParserError::BitRead),
                                Some((v, p4)) => Ok((v, p4)),
                            }
                        } else {
                            Ok((0, p3))
                        };
                        match l_step {
                            Err(e) => Err(e),
                            Ok((vl, p4)) => match take_bit(d, p4) {
                                None => Err(ParserError::BitRead),
                                Some((fr, p5)) => {
                                    let r_step: Result<(int, nat), ParserError> = if fr {
                                        match take_signed(d, p5, 2) {
                                            None => Err(ParserError::BitRead),
                                            Some((v, p6)) => Ok((v, p6)),
                                        }
                                    } else {
                                        Ok((0, p5))
                                    };
                                    match r_step {
                                        Err(e) => Err(e),
                                        Ok((vr, p6)) => match take_bit(d, p6) {
                                            None => Err(ParserError::BitRead),
                                            Some((fs, p7)) => Ok(
                                                (
                                                    (
                                                        seq![fq, fl, fr, fs],
                                                        seq![
                                                            (vq as i16),
                                                            (vl as i16),
                                                            (vr as i16),
                                                            0i16,
                                                        ],
                                                    ),
                                                    p7,
                                                ),
                                            ),
                                        },
                                    }
                                },
                            },
                        }
                    },
                },
            }
        },
    }
}

/// Fills rows `k` onward of the feature tables with segment data.
pub open spec fn spec_segments(
    act: Seq<Seq<bool>>,
    dat: Seq<Seq<i16>>,
    k: nat,
    d: Seq<u8>,
    p: nat,
) -> Result<((Seq<Seq<bool>>, Seq<Seq<i16>>), nat), ParserError>
    decreases 8 - k,
{
    if k >= 8 {
        Ok(((act, dat), p))
    } else {
        match spec_one_segment(d, p) {
            Err(e) => Err(e),
            Ok(((ra, rd), p1)) => spec_segments(
                act.update(k as int, ra),
                dat.update(k as int, rd),
                k + 1,
                d,
                p1,
            ),
        }
    }
}

/// The rows of a segment feature table, each row seen as a sequence.
pub open spec fn active_rows(t: Seq<[bool; 4]>) -> Seq<Seq<bool>> {
    t.map_values(|row: [bool; 4]| row@)
}

/// The rows of a segment feature data table, each row seen as a
/// sequence.
pub open spec fn data_rows(t: Seq<[i16; 4]>) -> Seq<Seq<i16>> {
    t.map_values(|row: [i16; 4]| row@)
}

/// The result of the segmentation syntax.
#[verifier::ext_equal]
pub struct SegModel {
    /// The segmentation flags.
    pub flags: SegFlags,
    /// Probabilities for decoding segment_id (7 entries).
    pub tree_probs: Seq<u8>,
    /// Probabilities for decoding seg_id_predicted (3 entries).
    pub pred_probs: Seq<u8>,
    /// Per segment, which features are active (8 x 4).
    pub feature_active: Seq<Seq<bool>>,
    /// Per segment, the feature values (8 x 4).
    pub feature_data: Seq<Seq<i16>>,
}

/// The segmentation fields a frame carries when segmentation is not
/// enabled or a sub-syntax is skipped.
pub open spec fn default_seg_model() -> SegModel {
    SegModel {
        flags: SegFlags {
            enabled: false,
            update_map: false,
            temporal_update: false,
            update_data: false,
            abs_or_delta_update: false,
        },
        tree_probs: seq![0u8, 0u8, 0u8, 0u8, 0u8, 0u8, 0u8],
        pred_probs: seq![0u8, 0u8, 0u8],
        feature_active: Seq::new(8, |i: int| seq![false, false, false, false]),
        feature_data: Seq::new(8, |i: int| seq![0i16, 0i16, 0i16, 0i16]),
    }
}

/// The segmentation_params syntax.
#[verifier::opaque]
pub open spec fn spec_segmentation(d: Seq<u8>, p: nat) -> Result<(SegModel, nat), ParserError> {
    match take_bit(d, p) {
        None => Err(ParserError::BitRead),
        Some((enabled, p1)) => {
            if !enabled {
                Ok((default_seg_model(), p1))
            } else {
                match take_bit(d, p1) {
                    None => Err(ParserError::BitRead),
                    Some((update_map, p2)) => {
                        let base = default_seg_model();
                        let map_step: Result<((Seq<u8>, Seq<u8>, bool), nat), ParserError> =
                            if update_map {
                            match spec_probs(base.tree_probs, 0, d, p2) {
                                Err(e) => Err(e),
                                Ok((tree, p3)) => match take_bit(d, p3) {
                                    None => Err(ParserError::BitRead),
                                    Some((temporal, p4)) => {
                                        if temporal {
                                            match spec_probs(base.pred_probs, 0, d, p4) {
                                                Err(e) => Err(e),
                                                Ok((pred, p5)) => Ok(((tree, pred, temporal), p5)),
                                            }
                                        } else {
                                            Ok(((tree, seq![255u8, 255u8, 255u8], temporal), p4))
                                        }
                                    },
                                },
                            }
                        } else {
                            Ok(((base.tree_probs, base.pred_probs, false), p2))
                        };
                        match map_step {
                            Err(e) => Err(e),
                            Ok(((tree, pred, temporal), p3)) => match take_bit(d, p3) {
                                None => Err(ParserError::BitRead),
                                Some((update_data, p4)) => {
                                    if update_data {
                                        match take_bit(d, p4) {
                                            None => Err(ParserError::BitRead),
                                            Some((abs_update, p5)) => match spec_segments(
                                                base.feature_active,
                                                base.feature_data,
                                                0,
                                                d,
                                                p5,
                                            ) {
                                                Err(e) => Err(e),
                                                Ok(((act, dat), p6)) => Ok(
                                                    (
                                                        SegModel {
                                                            flags: SegFlags {
                                                                enabled: true,
                                                                update_map: update_map,
                                                                temporal_update: temporal,
                                                                update_data: true,
                                                                abs_or_delta_update: abs_update,
                                                            },
                                                            tree_probs: tree,
                                                            pred_probs: pred,
                                                            feature_active: act,
                                                            feature_data: dat,
                                                        },
                                                        p6,
                                                    ),
                                                ),
                                            },
                                        }
                                    } else {
                                        Ok(
                                            (
                                                SegModel {
                                                    flags: SegFlags {
                                                        enabled: true,
                                                        update_map: update_map,
                                                        temporal_update: temporal,
                                                        update_data: false,
                                                        abs_or_delta_update: false,
                                                    },
                                                    tree_probs: tree,
                                                    pred_probs: pred,
                                                    feature_active: base.feature_active,
                                                    feature_data: base.feature_data,
                                                },
                                                p4,
                                            ),
                                        )
                                    }
                                },
                            },
                        }
                    },
                }
            }
        },
    }
}

/// The frame width in 64x64 super blocks: (mi_cols + 7) >> 3.
pub open spec fn sb64_cols_of(mi_cols: u16) -> int {
    (mi_cols + 7) / 8
}

/// The smallest m with (64 << m) at least `sb64`, for `sb64` up to 255:
/// tiles are at most MAX_TILE_WIDTH_B64 = 64 super blocks wide.
pub open spec fn min_tile_cols_log2(sb64: u8) -> u8 {
    if sb64 <= 64 {
        0u8
    } else if sb64 <= 128 {
        1u8
    } else {
        2u8
    }
}

/// One less than the largest m with (sb64 >> m) at least
/// MIN_TILE_WIDTH_B64 = 4, and 0 when there is no such m above 1: tiles
/// are at least 4 super blocks wide.
pub open spec fn max_tile_cols_log2(sb64: u8) -> u8 {
    if sb64 >= 128 {
        5u8
    } else if sb64 >= 64 {
        4u8
    } else if sb64 >= 32 {
        3u8
    } else if sb64 >= 16 {
        2u8
    } else if sb64 >= 8 {
        1u8
    } else {
        0u8
    }
}

/// The increment bits of tile_cols_log2: starting from `cur`, one bit
/// per step while below `maxl`; a clear bit stops.
pub open spec fn spec_tile_cols(cur: u8, maxl: u8, d: Seq<u8>, p: nat) -> Result<
    (u8, nat),
    ParserError,
>
    decreases maxl - cur,
{
    if cur >= maxl {
        Ok((cur, p))
    } else {
        match take_bit(d, p) {
            None => Err(ParserError::BitRead),
            Some((increment, p1)) => {
                if increment {
                    spec_tile_cols((cur + 1) as u8, maxl, d, p1)
                } else {
                    Ok((cur, p1))
                }
            },
        }
    }
}

/// The tile_info syntax: tile_cols_log2 from its increment bits, then
/// tile_rows_log2 from one bit plus a conditional second bit.  A super
/// block count above 255 does not fit the 8-bit working type and is
/// surfaced as NumericRange.
#[verifier::opaque]
pub open spec fn spec_tile_info(mi_cols: u16, d: Seq<u8>, p: nat) -> Result<
    ((u8, u8), nat),
    ParserError,
> {
    let sb64 = sb64_cols_of(mi_cols);
    if sb64 > 255 {
        Err(ParserError::NumericRange)
    } else {
        match spec_tile_cols(min_tile_cols_log2(sb64 as u8), max_tile_cols_log2(sb64 as u8), d, p) {
            Err(e) => Err(e),
            Ok((cols, p1)) => match take_bits(d, p1, 1) {
                None => Err(ParserError::BitRead),
                Some((rows0, p2)) => {
                    if rows0 == 1 {
                        match take_bits(d, p2, 1) {
                            None => Err(ParserError::BitRead),
                            Some((inc, p3)) => Ok(((cols, ((rows0 + inc) as u8)), p3)),
                        }
                    } else {
                        Ok(((cols, (rows0 as u8)), p2))
                    }
                },
            },
        }
    }
}

/// The trailing bits after the header: zero bits up to the next byte
/// boundary; any set bit among them is invalid padding.  A header that
/// ends on a byte boundary needs no padding at all.
#[verifier::opaque]
pub open spec fn spec_trailing(d: Seq<u8>, p: nat) -> Result<nat, ParserError>
    recommends
        p <= 8 * d.len(),
{
    let k = (8 - p % 8) % 8;
    if exists|j: nat| j < k && #[trigger] bit_at(d, (p + j) as nat) {
        Err(ParserError::InvalidPadding)
    } else {
        Ok((p + k) as nat)
    }
}

/// The fields settled between the frame type and the common tail of the
/// header.
#[verifier::ext_equal]
pub struct HeaderMid {
    /// The frame is an intra-only frame.
    pub intra_only: bool,
    /// Whether the frame context should be reset.
    pub reset_frame_context: ResetFrameContext,
    /// Bitmap of reference slots overwritten by this frame.
    pub refresh_frame_flags: u8,
    /// The 3 reference slot indices.
    pub ref_frame_indices: Seq<u8>,
    /// Sign bias per reference kind.
    pub ref_frame_sign_bias: Seq<bool>,
    /// Motion vector precision.
    pub allow_high_precision_mv: bool,
    /// The interpolation filter.
    pub interpolation_filter: InterpolationFilter,
    /// The color configuration.
    pub color: ColorInfo,
    /// The frame resolution.
    pub size: SizeInfo,
    /// Desired render width.
    pub render_width: u16,
    /// Desired render height.
    pub render_height: u16,
}

/// The key frame path: sync code, color config, explicit frame and
/// render size; a key frame refreshes all eight reference slots.
#[verifier::opaque]
pub open spec fn spec_key_part(profile: Profile, d: Seq<u8>, p: nat) -> Result<
    (HeaderMid, nat),
    ParserError,
> {
    match spec_sync_code(d, p) {
        Err(e) => Err(e),
        Ok(p1) => match spec_color_config(profile, d, p1) {
            Err(e) => Err(e),
            Ok((color, p2)) => match spec_frame_size(d, p2) {
                Err(e) => Err(e),
                Ok((size, p3)) => match spec_render_size(size.width, size.height, d, p3) {
                    Err(e) => Err(e),
                    Ok(((rw, rh), p4)) => Ok(
                        (
                            HeaderMid {
                                intra_only: false,
                                reset_frame_context: ResetFrameContext::No0,
                                refresh_frame_flags: 0xFFu8,
                                ref_frame_indices: seq![0u8, 0u8, 0u8],
                                ref_frame_sign_bias: seq![false, false, false, false],
                                allow_high_precision_mv: false,
                                interpolation_filter: InterpolationFilter::Eighttap,
                                color: color,
                                size: size,
                                render_width: rw,
                                render_height: rh,
                            },
                            p4,
                        ),
                    ),
                },
            },
        },
    }
}

/// The non-key frame path: the intra-only and reset fields, then either
/// the intra-only sub-syntax or the inter sub-syntax with reference
/// indices, sign bias, sizes from references, motion vector precision
/// and the interpolation filter.
#[verifier::opaque]
pub open spec fn spec_nonkey_part(
    sizes: Seq<RefSize>,
    profile: Profile,
    show_frame: bool,
    error_resilient: bool,
    d: Seq<u8>,
    p: nat,
) -> Result<(HeaderMid, nat), ParserError> {
    let intra_step: Result<(bool, nat), ParserError> = if show_frame {
        Ok((false, p))
    } else {
        match take_bit(d, p) {
            None => Err(ParserError::BitRead),
            Some((io, p1)) => Ok((io, p1)),
        }
    };
    match intra_step {
        Err(e) => Err(e),
        Ok((intra_only, p1)) => {
            let reset_step: Result<(ResetFrameContext, nat), ParserError> = if error_resilient {
                Ok((ResetFrameContext::No0, p1))
            } else {
                match take_bits(d, p1, 2) {
                    None => Err(ParserError::BitRead),
                    Some((rc, p2)) => Ok((spec_reset_frame_context_from(rc as u8), p2)),
                }
            };
            match reset_step {
                Err(e) => Err(e),
                Ok((reset, p2)) => {
                    if intra_only {
                        spec_intra_part(profile, reset, d, p2)
                    } else {
                        spec_inter_part(sizes, reset, d, p2)
                    }
                },
            }
        },
    }
}

/// The intra-only sub-syntax: sync code, color config for profiles above
/// 0 (profile 0 is forced to 8-bit BT.601 4:2:0), refresh flags, then
/// explicit frame and render size.
#[verifier::opaque]
pub open spec fn spec_intra_part(
    profile: Profile,
    reset: ResetFrameContext,
    d: Seq<u8>,
    p: nat,
) -> Result<(HeaderMid, nat), ParserError> {
    match spec_sync_code(d, p) {
        Err(e) => Err(e),
        Ok(p1) => {
            let color_step: Result<(ColorInfo, nat), ParserError> = if profile
                != Profile::Profile0 {
                spec_color_config(profile, d, p1)
            } else {
                Ok((forced_color_info(), p1))
            };
            match color_step {
                Err(e) => Err(e),
                Ok((color, p2)) => match take_bits(d, p2, 8) {
                    None => Err(ParserError::BitRead),
                    Some((flags, p3)) => match spec_frame_size(d, p3) {
                        Err(e) => Err(e),
                        Ok((size, p4)) => match spec_render_size(size.width, size.height, d, p4) {
                            Err(e) => Err(e),
                            Ok(((rw, rh), p5)) => Ok(
                                (
                                    HeaderMid {
                                        intra_only: true,
                                        reset_frame_context: reset,
                                        refresh_frame_flags: (flags as u8),
                                        ref_frame_indices: seq![0u8, 0u8, 0u8],
                                        ref_frame_sign_bias: seq![false, false, false, false],
                                        allow_high_precision_mv: false,
                                        interpolation_filter: InterpolationFilter::Eighttap,
                                        color: color,
                                        size: size,
                                        render_width: rw,
                                        render_height: rh,
                                    },
                                    p5,
                                ),
                            ),
                        },
                    },
                },
            }
        },
    }
}

/// The inter sub-syntax: refresh flags, three (slot index, sign bias)
/// pairs, the size from references, render size, motion vector precision
/// and the interpolation filter.
#[verifier::opaque]
pub open spec fn spec_inter_part(
    sizes: Seq<RefSize>,
    reset: ResetFrameContext,
    d: Seq<u8>,
    p: nat,
) -> Result<(HeaderMid, nat), ParserError> {
    match take_bits(d, p, 8) {
        None => Err(ParserError::BitRead),
        Some((flags, p1)) => match take_bits(d, p1, 3) {
            None => Err(ParserError::BitRead),
            Some((i0, p2)) => match take_bit(d, p2) {
                None => Err(ParserError::BitRead),
                Some((b0, p3)) => match take_bits(d, p3, 3) {
                    None => Err(ParserError::BitRead),
                    Some((i1, p4)) => match take_bit(d, p4) {
                        None => Err(ParserError::BitRead),
                        Some((b1, p5)) => match take_bits(d, p5, 3) {
                            None => Err(ParserError::BitRead),
                            Some((i2, p6)) => match take_bit(d, p6) {
                                None => Err(ParserError::BitRead),
                                Some((b2, p7)) => {
                                    let idxs = seq![(i0 as u8), (i1 as u8), (i2 as u8)];
                                    match spec_size_with_refs(sizes, idxs, d, p7) {
                                        Err(e) => Err(e),
                                        Ok((size, p8)) => match spec_render_size(
                                            size.width,
                                            size.height,
                                            d,
                                            p8,
                                        ) {
                                            Err(e) => Err(e),
                                            Ok(((rw, rh), p9)) => match take_bit(d, p9) {
                                                None => Err(ParserError::BitRead),
                                                Some((ahpmv, p10)) => {
                                                    match spec_interpolation_filter(d, p10) {
                                                        Err(e) => Err(e),
                                                        Ok((filter, p11)) => Ok(
                                                            (
                                                                HeaderMid {
                                                                    intra_only: false,
                                                                    reset_frame_context: reset,
                                                                    refresh_frame_flags: (
                                                                    flags as u8),
                                                                    ref_frame_indices: idxs,
                                                                    ref_frame_sign_bias: seq![
                                                                        false,
                                                                        b0,
                                                                        b1,
                                                                        b2,
                                                                    ],
                                                                    allow_high_precision_mv: ahpmv,
                                                                    interpolation_filter: filter,
                                                                    color: default_color_info(),
                                                                    size: size,
                                                                    render_width: rw,
                                                                    render_height: rh,
                                                                },
                                                                p11,
                                                            ),
                                                        ),
                                                    }
                                                },
                                            },
                                        },
                                    }
                                },
                            },
                        },
                    },
                },
            },
        },
    }
}

/// The reference slot sizes after a frame: every slot whose bit is set
/// in `flags` now stores this frame's width and height.
pub open spec fn refreshed_sizes(sizes: Seq<RefSize>, flags: u8, width: u16, height: u16) -> Seq<
    RefSize,
> {
    Seq::new(
        8,
        |i: int|
            if (flags >> (i as u8)) & 1 == 1 {
                RefSize { width, height }
            } else {
                sizes[i]
            },
    )
}

/// The frame descriptor assembled from everything the header settled:
/// the values before the tail in `mid`, the tail values, and the size
/// accounting.
#[verifier::opaque]
pub open spec fn tail_frame_model(
    s: StateModel,
    profile: Profile,
    frame_type: FrameType,
    show_frame: bool,
    error_resilient: bool,
    mid: HeaderMid,
    refresh_ctx: bool,
    parallel: bool,
    ctx_idx: u8,
    lf: LoopFilterInfo,
    rd: Seq<i8>,
    md: Seq<i8>,
    quant: QuantInfo,
    seg: SegModel,
    cols_log2: u8,
    rows_log2: u8,
    chs: nat,
    uhs: nat,
    tile: nat,
    d: Seq<u8>,
) -> FrameModel {
    FrameModel {
        data: d,
        profile: profile,
        show_existing_frame: false,
        frame_to_show_map_idx: None,
        last_frame_type: s.last_frame_type,
        frame_type: frame_type,
        show_frame: show_frame,
        error_resilient_mode: error_resilient,
        intra_only: mid.intra_only,
        reset_frame_context: mid.reset_frame_context,
        ref_frame_indices: mid.ref_frame_indices,
        ref_frame_sign_bias: mid.ref_frame_sign_bias,
        allow_high_precision_mv: mid.allow_high_precision_mv,
        refresh_frame_context: refresh_ctx,
        refresh_frame_flags: mid.refresh_frame_flags,
        frame_parallel_decoding_mode: parallel,
        frame_context_idx: ctx_idx,
        uncompressed_header_size: uhs,
        compressed_header_size: chs,
        tile_size: tile,
        color_depth: mid.color.color_depth,
        color_space: mid.color.color_space,
        color_range: mid.color.color_range,
        subsampling_x: mid.color.subsampling_x,
        subsampling_y: mid.color.subsampling_y,
        width: mid.size.width,
        height: mid.size.height,
        render_width: mid.render_width,
        render_height: mid.render_height,
        mi_cols: mid.size.mi_cols,
        mi_rows: mid.size.mi_rows,
        tile_rows_log2: rows_log2,
        tile_cols_log2: cols_log2,
        interpolation_filter: mid.interpolation_filter,
        loop_filter_level: lf.level,
        loop_filter_sharpness: lf.sharpness,
        loop_filter_delta_enabled: lf.delta_enabled,
        update_ref_delta: false,
        loop_filter_ref_deltas: rd,
        update_mode_delta: false,
        loop_filter_mode_deltas: md,
        base_q_idx: quant.base_q_idx,
        delta_q_y_dc: quant.delta_q_y_dc,
        delta_q_uv_dc: quant.delta_q_uv_dc,
        delta_q_uv_ac: quant.delta_q_uv_ac,
        lossless: quant.lossless,
        segmentation_enabled: seg.flags.enabled,
        segmentation_update_map: seg.flags.update_map,
        segment_tree_probs: seg.tree_probs,
        segment_pred_probs: seg.pred_probs,
        segmentation_temporal_update: seg.flags.temporal_update,
        segmentation_update_data: seg.flags.update_data,
        segmentation_abs_or_delta_update: seg.flags.abs_or_delta_update,
        segment_feature_active: seg.feature_active,
        segment_feature_data: seg.feature_data,
    }
}

/// The parser state after a non-show-existing frame.
#[verifier::opaque]
pub open spec fn tail_state_model(
    s: StateModel,
    frame_type: FrameType,
    mid: HeaderMid,
    rd: Seq<i8>,
    md: Seq<i8>,
) -> StateModel {
    StateModel {
        last_frame_type: frame_type,
        ref_frame_sizes: refreshed_sizes(
            s.ref_frame_sizes,
            mid.refresh_frame_flags,
            mid.size.width,
            mid.size.height,
        ),
        loop_filter_ref_deltas: rd,
        loop_filter_mode_deltas: md,
    }
}

/// The common tail of the header: context refresh flags, the frame
/// context index, the loop filter reset and parameters, quantization,
/// segmentation, tile geometry, the 16-bit compressed header size and
/// the trailing bits, ending with the size accounting and the state
/// update.
#[verifier::opaque]
pub open spec fn spec_parse_tail(
    s: StateModel,
    profile: Profile,
    frame_type: FrameType,
    show_frame: bool,
    error_resilient: bool,
    mid: HeaderMid,
    d: Seq<u8>,
    p: nat,
) -> Result<(FrameModel, StateModel), ParserError> {
    let ctx_step: Result<((bool, bool), nat), ParserError> = if !error_resilient {
        match take_bit(d, p) {
            None => Err(ParserError::BitRead),
            Some((rfc, p1)) => match take_bit(d, p1) {
                None => Err(ParserError::BitRead),
                Some((fpdm, p2)) => Ok(((rfc, fpdm), p2)),
            },
        }
    } else {
        Ok(((false, false), p))
    };
    match ctx_step {
        Err(e) => Err(e),
        Ok(((refresh_ctx, parallel), p1)) => match take_bits(d, p1, 2) {
            None => Err(ParserError::BitRead),
            Some((ctx_idx_raw, p2)) => {
                let ctx_idx: u8 = if mid.intra_only || error_resilient {
                    0u8
                } else {
                    (ctx_idx_raw as u8)
                };
                let reset_deltas = frame_type == FrameType::KeyFrame || error_resilient
                    || mid.intra_only;
                let rd0 = if reset_deltas {
                    seq![1i8, 0i8, -1i8, -1i8]
                } else {
                    s.loop_filter_ref_deltas
                };
                let md0 = if reset_deltas {
                    seq![0i8, 0i8]
                } else {
                    s.loop_filter_mode_deltas
                };
                match spec_loop_filter(rd0, md0, d, p2) {
                    Err(e) => Err(e),
                    Ok(((lf, rd, md), p3)) => match spec_quant(d, p3) {
                        Err(e) => Err(e),
                        Ok((quant, p4)) => match spec_segmentation(d, p4) {
                            Err(e) => Err(e),
                            Ok((seg, p5)) => match spec_tile_info(mid.size.mi_cols, d, p5) {
                                Err(e) => Err(e),
                                Ok(((cols_log2, rows_log2), p6)) => match take_bits(d, p6, 16) {
                                    None => Err(ParserError::BitRead),
                                    Some((chs, p7)) => match spec_trailing(d, p7) {
                                        Err(e) => Err(e),
                                        Ok(p8) => {
                                            let uhs = p8 / 8;
                                            let tile: nat = if uhs + chs <= d.len() {
                                                (d.len() - uhs - chs) as nat
                                            } else {
                                                0
                                            };
                                            Ok(
                                                (
                                                    tail_frame_model(
                                                        s,
                                                        profile,
                                                        frame_type,
                                                        show_frame,
                                                        error_resilient,
                                                        mid,
                                                        refresh_ctx,
                                                        parallel,
                                                        ctx_idx,
                                                        lf,
                                                        rd,
                                                        md,
                                                        quant,
                                                        seg,
                                                        cols_log2,
                                                        rows_log2,
                                                        chs,
                                                        uhs,
                                                        tile,
                                                        d,
                                                    ),
                                                    tail_state_model(s, frame_type, mid, rd, md),
                                                ),
                                            )
                                        },
                                    },
                                },
                            },
                        },
                    },
                }
            },
        },
    }
}

/// The header after the show-existing test: frame type, show and error
/// resilient flags, the type-specific part, then the common tail.
#[verifier::opaque]
pub open spec fn spec_parse_rest(
    s: StateModel,
    profile: Profile,
    d: Seq<u8>,
    p: nat,
) -> Result<(FrameModel, StateModel), ParserError> {
    match take_bit(d, p) {
        None => Err(ParserError::BitRead),
        Some((type_bit, p1)) => match take_bit(d, p1) {
            None => Err(ParserError::BitRead),
            Some((show_frame, p2)) => match take_bit(d, p2) {
                None => Err(ParserError::BitRead),
                Some((error_resilient, p3)) => {
                    let frame_type = spec_frame_type_from(type_bit);
                    let part: Result<(HeaderMid, nat), ParserError> = if frame_type
                        == FrameType::KeyFrame {
                        spec_key_part(profile, d, p3)
                    } else {
                        spec_nonkey_part(s.ref_frame_sizes, profile, show_frame, error_resilient, d, p3)
                    };
                    match part {
                        Err(e) => Err(e),
                        Ok((mid, p4)) => spec_parse_tail(
                            s,
                            profile,
                            frame_type,
                            show_frame,
                            error_resilient,
                            mid,
                            d,
                            p4,
                        ),
                    }
                },
            },
        },
    }
}

/// One frame payload against the current parser state: the frame
/// descriptor it yields and the state after it.  A show-existing frame
/// leaves the state untouched; an error leaves nothing decided.
#[verifier::opaque]
pub open spec fn spec_parse_frame(s: StateModel, d: Seq<u8>) -> Result<
    (FrameModel, StateModel),
    ParserError,
> {
    match take_bits(d, 0, 2) {
        None => Err(ParserError::BitRead),
        Some((marker, p0)) => {
            if marker != 2 {
                Err(ParserError::InvalidFrameMarker)
            } else {
                match spec_profile(d, p0) {
                    Err(e) => Err(e),
                    Ok((profile, p1)) => match take_bit(d, p1) {
                        None => Err(ParserError::BitRead),
                        Some((show_existing, p2)) => {
                            if show_existing {
                                match take_bits(d, p2, 3) {
                                    None => Err(ParserError::BitRead),
                                    Some((idx, p3)) => Ok(
                                        (show_existing_frame_model(profile, (idx as u8)), s),
                                    ),
                                }
                            } else {
                                spec_parse_rest(s, profile, d, p2)
                            }
                        },
                    },
                }
            }
        },
    }
}


/// For every parsed frame the three sizes account for the whole
/// payload, as long as the header sizes recorded in the stream fit
/// inside it; a malformed stream whose recorded sizes pass the end of
/// the payload gets a zero-length tile region instead.  A show-existing
/// frame owns no payload and has all three sizes zero.
pub proof fn lemma_frame_sizes_account(s: StateModel, d: Seq<u8>)
    ensures
        match spec_parse_frame(s, d) {
            Ok(fs) => {
                &&& fs.0.show_existing_frame ==> {
                    &&& fs.0.data.len() == 0
                    &&& fs.0.uncompressed_header_size == 0
                    &&& fs.0.compressed_header_size == 0
                    &&& fs.0.tile_size == 0
                }
                &&& !fs.0.show_existing_frame ==> fs.0.data == d
                &&& fs.0.uncompressed_header_size + fs.0.compressed_header_size <= fs.0.data.len()
                    ==> fs.0.uncompressed_header_size + fs.0.compressed_header_size + fs.0.tile_size
                    == fs.0.data.len()
            },
            Err(e) => true,
        },
{
    reveal(spec_parse_frame);
    reveal(spec_parse_rest);
    reveal(spec_parse_tail);
    reveal(tail_frame_model);
    reveal(show_existing_frame_model);
    reveal(base_frame_model);
}

/// Every key frame refreshes all eight reference slots, keeps the
/// intra sign bias clear, and carries 8-bit color below profile 2.
pub proof fn lemma_key_frame_invariants(s: StateModel, d: Seq<u8>)
    ensures
        match spec_parse_frame(s, d) {
            Ok(fs) => fs.0.frame_type == FrameType::KeyFrame ==> {
                &&& fs.0.refresh_frame_flags == 0xFF
                &&& fs.0.ref_frame_sign_bias[0] == false
                &&& (fs.0.profile == Profile::Profile0 || fs.0.profile == Profile::Profile1)
                    ==> fs.0.color_depth == ColorDepth::Depth8
            },
            Err(e) => true,
        },
{
    reveal(spec_parse_frame);
    reveal(spec_parse_rest);
    reveal(spec_parse_tail);
    reveal(tail_frame_model);
    reveal(show_existing_frame_model);
    reveal(base_frame_model);
    reveal(spec_key_part);
    reveal(spec_color_config);
}

/// A show-existing frame leaves the parser state untouched, names the
/// slot to show, and keeps every other field at its default value.
pub proof fn lemma_show_existing_defaults(s: StateModel, d: Seq<u8>)
    ensures
        match spec_parse_frame(s, d) {
            Ok(fs) => fs.0.show_existing_frame ==> {
                &&& fs.1 == s
                &&& fs.0.frame_to_show_map_idx is Some
                &&& fs.0 == (FrameModel {
                    profile: fs.0.profile,
                    show_existing_frame: true,
                    frame_to_show_map_idx: fs.0.frame_to_show_map_idx,
                    ..base_frame_model(Seq::empty())
                })
            },
            Err(e) => true,
        },
{
    reveal(spec_parse_frame);
    reveal(spec_parse_rest);
    reveal(spec_parse_tail);
    reveal(tail_frame_model);
    reveal(show_existing_frame_model);
}

/// Every frame carries its dimensions in 8x8 blocks: mi_cols and
/// mi_rows are the width and height, each plus 7, shifted right by 3.
pub proof fn lemma_block_counts(s: StateModel, d: Seq<u8>)
    ensures
        match spec_parse_frame(s, d) {
            Ok(fs) => {
                &&& fs.0.mi_cols == (fs.0.width + 7) / 8
                &&& fs.0.mi_rows == (fs.0.height + 7) / 8
            },
            Err(e) => true,
        },
{
    reveal(spec_parse_frame);
    reveal(spec_parse_rest);
    reveal(spec_parse_tail);
    reveal(tail_frame_model);
    reveal(show_existing_frame_model);
    reveal(base_frame_model);
    reveal(spec_key_part);
    reveal(spec_nonkey_part);
    reveal(spec_intra_part);
    reveal(spec_inter_part);
    reveal(spec_frame_size);
    reveal(spec_size_with_refs);
}

/// The frame context index is forced to zero whenever the frame is
/// intra-only or error resilient.
pub proof fn lemma_frame_context_forced(s: StateModel, d: Seq<u8>)
    ensures
        match spec_parse_frame(s, d) {
            Ok(fs) => (fs.0.intra_only || fs.0.error_resilient_mode) ==> fs.0.frame_context_idx
                == 0,
            Err(e) => true,
        },
{
    reveal(spec_parse_frame);
    reveal(spec_parse_rest);
    reveal(spec_parse_tail);
    reveal(tail_frame_model);
    reveal(show_existing_frame_model);
    reveal(base_frame_model);
}

/// After every non-show-existing frame, each reference slot whose bit
/// is set in refresh_frame_flags stores this frame's width and height,
/// and every other slot is untouched.
pub proof fn lemma_refresh_updates_slots(s: StateModel, d: Seq<u8>)
    ensures
        match spec_parse_frame(s, d) {
            Ok(fs) => !fs.0.show_existing_frame ==> {
                &&& fs.1.ref_frame_sizes.len() == 8
                &&& forall|i: int|
                    0 <= i < 8 ==> #[trigger] fs.1.ref_frame_sizes[i] == (if (
                    fs.0.refresh_frame_flags >> (i as u8)) & 1 == 1 {
                        RefSize { width: fs.0.width, height: fs.0.height }
                    } else {
                        s.ref_frame_sizes[i]
                    })
            },
            Err(e) => true,
        },
{
    reveal(spec_parse_frame);
    reveal(spec_parse_rest);
    reveal(spec_parse_tail);
    reveal(tail_frame_model);
    reveal(tail_state_model);
    reveal(show_existing_frame_model);
    reveal(base_frame_model);
}

/// A header that ends exactly on a byte boundary needs no padding:
/// the trailing bits consume nothing.
pub proof fn lemma_aligned_header_needs_no_padding(d: Seq<u8>, p: nat)
    requires
        p % 8 == 0,
    ensures
        spec_trailing(d, p) == Ok::<nat, ParserError>(p),
{
    reveal(spec_trailing);
}

} // verus!
