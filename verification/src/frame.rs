//! The VP9 frame descriptor: the owned payload bytes plus every field of
//! the uncompressed header, with byte-exact offsets for the compressed
//! header and the tile data.

use vstd::prelude::*;

use crate::header::FrameModel;
use crate::header::active_rows;
use crate::header::data_rows;
use crate::header::base_frame_model;
use crate::types::ColorDepth;
use crate::types::ColorRange;
use crate::types::ColorSpace;
use crate::types::FrameType;
use crate::types::InterpolationFilter;
use crate::types::Profile;
use crate::types::ResetFrameContext;
use crate::types::Subsampling;

verus! {

/// The mathematical content of a sequence of frames.
pub open spec fn frame_models(v: Seq<Frame>) -> Seq<FrameModel> {
    v.map_values(|f: Frame| f@)
}

/// A VP9 frame: the payload bytes it owns and the parsed uncompressed
/// header fields.
pub struct Frame {
    /// The payload bytes of the frame.
    pub data: Vec<u8>,
    /// The profile the frame is using.
    pub profile: Profile,
    /// The frame shows a previously decoded frame.
    pub show_existing_frame: bool,
    /// The reference slot to show, present only with
    /// `show_existing_frame`.
    pub frame_to_show_map_idx: Option<u8>,
    /// Type of the previous non-show-existing frame.
    pub last_frame_type: FrameType,
    /// Type of this frame.
    pub frame_type: FrameType,
    /// Whether to output this frame.
    pub show_frame: bool,
    /// Error resilient mode is enabled.
    pub error_resilient_mode: bool,
    /// The frame is an intra-only frame.
    pub intra_only: bool,
    /// Whether the frame context should be reset.
    pub reset_frame_context: ResetFrameContext,
    /// The 3 reference slot indices: LAST, GOLDEN, ALTREF.
    pub ref_frame_indices: [u8; 3],
    /// Sign bias per reference kind: INTRA, LAST, GOLDEN, ALTREF.
    pub ref_frame_sign_bias: [bool; 4],
    /// Motion vector precision.
    pub allow_high_precision_mv: bool,
    /// The probabilities of this frame are stored for future frames.
    pub refresh_frame_context: bool,
    /// Bitmap of reference slots overwritten by this frame.
    pub refresh_frame_flags: u8,
    /// Parallel decoding mode.
    pub frame_parallel_decoding_mode: bool,
    /// Which frame context to use.
    pub frame_context_idx: u8,
    /// Byte count of the uncompressed header.
    pub uncompressed_header_size: usize,
    /// Byte count of the compressed header.
    pub compressed_header_size: usize,
    /// Byte count of the tile data.
    pub tile_size: usize,
    /// The color depth.
    pub color_depth: ColorDepth,
    /// The color space.
    pub color_space: ColorSpace,
    /// The color range.
    pub color_range: ColorRange,
    /// Chroma subsampling along the x axis.
    pub subsampling_x: bool,
    /// Chroma subsampling along the y axis.
    pub subsampling_y: bool,
    /// Frame width in pixels.
    pub width: u16,
    /// Frame height in pixels.
    pub height: u16,
    /// Desired render width.
    pub render_width: u16,
    /// Desired render height.
    pub render_height: u16,
    /// Frame width in 8x8 blocks.
    pub mi_cols: u16,
    /// Frame height in 8x8 blocks.
    pub mi_rows: u16,
    /// Base 2 logarithm of the number of tile rows.
    pub tile_rows_log2: u8,
    /// Base 2 logarithm of the number of tile columns.
    pub tile_cols_log2: u8,
    /// The interpolation filter.
    pub interpolation_filter: InterpolationFilter,
    /// Loop filter strength.
    pub loop_filter_level: u8,
    /// Loop filter sharpness.
    pub loop_filter_sharpness: u8,
    /// The filter level depends on mode and reference frame.
    pub loop_filter_delta_enabled: bool,
    /// Kept for completeness and always false: delta updates are folded
    /// directly into loop_filter_ref_deltas.
    pub update_ref_delta: bool,
    /// Loop filter reference deltas after this frame.
    pub loop_filter_ref_deltas: [i8; 4],
    /// Kept for completeness and always false: delta updates are folded
    /// directly into loop_filter_mode_deltas.
    pub update_mode_delta: bool,
    /// Loop filter mode deltas after this frame.
    pub loop_filter_mode_deltas: [i8; 2],
    /// The base frame qindex.
    pub base_q_idx: i32,
    /// The Y DC quantizer delta.
    pub delta_q_y_dc: i32,
    /// The UV DC quantizer delta.
    pub delta_q_uv_dc: i32,
    /// The UV AC quantizer delta.
    pub delta_q_uv_ac: i32,
    /// All four quantizer values are zero.
    pub lossless: bool,
    /// Segmentation is in use.
    pub segmentation_enabled: bool,
    /// The segmentation map is updated by this frame.
    pub segmentation_update_map: bool,
    /// Probabilities for decoding segment_id.
    pub segment_tree_probs: [u8; 7],
    /// Probabilities for decoding seg_id_predicted.
    pub segment_pred_probs: [u8; 3],
    /// Map updates are coded relative to the existing map.
    pub segmentation_temporal_update: bool,
    /// New parameters are specified for each segment.
    pub segmentation_update_data: bool,
    /// Segmentation values are absolute rather than deltas.
    pub segmentation_abs_or_delta_update: bool,
    /// Per segment, which of the 4 features is active.
    pub segment_feature_active: [[bool; 4]; 8],
    /// Per segment, the value of each of the 4 features.
    pub segment_feature_data: [[i16; 4]; 8],
}

impl View for Frame {
    type V = FrameModel;

    open spec fn view(&self) -> FrameModel {
        FrameModel {
            data: self.data@,
            profile: self.profile,
            show_existing_frame: self.show_existing_frame,
            frame_to_show_map_idx: self.frame_to_show_map_idx,
            last_frame_type: self.last_frame_type,
            frame_type: self.frame_type,
            show_frame: self.show_frame,
            error_resilient_mode: self.error_resilient_mode,
            intra_only: self.intra_only,
            reset_frame_context: self.reset_frame_context,
            ref_frame_indices: self.ref_frame_indices@,
            ref_frame_sign_bias: self.ref_frame_sign_bias@,
            allow_high_precision_mv: self.allow_high_precision_mv,
            refresh_frame_context: self.refresh_frame_context,
            refresh_frame_flags: self.refresh_frame_flags,
            frame_parallel_decoding_mode: self.frame_parallel_decoding_mode,
            frame_context_idx: self.frame_context_idx,
            uncompressed_header_size: self.uncompressed_header_size as nat,
            compressed_header_size: self.compressed_header_size as nat,
            tile_size: self.tile_size as nat,
            color_depth: self.color_depth,
            color_space: self.color_space,
            color_range: self.color_range,
            subsampling_x: self.subsampling_x,
            subsampling_y: self.subsampling_y,
            width: self.width,
            height: self.height,
            render_width: self.render_width,
            render_height: self.render_height,
            mi_cols: self.mi_cols,
            mi_rows: self.mi_rows,
            tile_rows_log2: self.tile_rows_log2,
            tile_cols_log2: self.tile_cols_log2,
            interpolation_filter: self.interpolation_filter,
            loop_filter_level: self.loop_filter_level,
            loop_filter_sharpness: self.loop_filter_sharpness,
            loop_filter_delta_enabled: self.loop_filter_delta_enabled,
            update_ref_delta: self.update_ref_delta,
            loop_filter_ref_deltas: self.loop_filter_ref_deltas@,
            update_mode_delta: self.update_mode_delta,
            loop_filter_mode_deltas: self.loop_filter_mode_deltas@,
            base_q_idx: self.base_q_idx,
            delta_q_y_dc: self.delta_q_y_dc,
            delta_q_uv_dc: self.delta_q_uv_dc,
            delta_q_uv_ac: self.delta_q_uv_ac,
            lossless: self.lossless,
            segmentation_enabled: self.segmentation_enabled,
            segmentation_update_map: self.segmentation_update_map,
            segment_tree_probs: self.segment_tree_probs@,
            segment_pred_probs: self.segment_pred_probs@,
            segmentation_temporal_update: self.segmentation_temporal_update,
            segmentation_update_data: self.segmentation_update_data,
            segmentation_abs_or_delta_update: self.segmentation_abs_or_delta_update,
            segment_feature_active: active_rows(self.segment_feature_active@),
            segment_feature_data: data_rows(self.segment_feature_data@),
        }
    }
}

impl Frame {
    /// Creates a frame that owns `data`, with every header field at its
    /// default value.
    pub(crate) fn new(data: Vec<u8>) -> (f: Frame)
        ensures
            f@ == base_frame_model(data@),
    {
        let f = Frame {
            data,
            profile: Profile::Profile0,
            show_existing_frame: false,
            frame_to_show_map_idx: None,
            last_frame_type: FrameType::NonKeyFrame,
            frame_type: FrameType::NonKeyFrame,
            show_frame: false,
            error_resilient_mode: false,
            intra_only: false,
            reset_frame_context: ResetFrameContext::No0,
            ref_frame_indices: [0u8, 0u8, 0u8],
            ref_frame_sign_bias: [false, false, false, false],
            allow_high_precision_mv: false,
            refresh_frame_context: false,
            refresh_frame_flags: 0u8,
            frame_parallel_decoding_mode: true,
            frame_context_idx: 0u8,
            uncompressed_header_size: 0usize,
            compressed_header_size: 0usize,
            tile_size: 0usize,
            color_depth: ColorDepth::Depth8,
            color_space: ColorSpace::Unknown,
            color_range: ColorRange::StudioSwing,
            subsampling_x: true,
            subsampling_y: true,
            width: 0u16,
            height: 0u16,
            render_width: 0u16,
            render_height: 0u16,
            mi_cols: 0u16,
            mi_rows: 0u16,
            tile_rows_log2: 0u8,
            tile_cols_log2: 0u8,
            interpolation_filter: InterpolationFilter::Eighttap,
            loop_filter_level: 0u8,
            loop_filter_sharpness: 0u8,
            loop_filter_delta_enabled: false,
            update_ref_delta: false,
            loop_filter_ref_deltas: [1i8, 0i8, -1i8, -1i8],
            update_mode_delta: false,
            loop_filter_mode_deltas: [0i8, 0i8],
            base_q_idx: 0i32,
            delta_q_y_dc: 0i32,
            delta_q_uv_dc: 0i32,
            delta_q_uv_ac: 0i32,
            lossless: false,
            segmentation_enabled: false,
            segmentation_update_map: false,
            segment_tree_probs: [0u8, 0u8, 0u8, 0u8, 0u8, 0u8, 0u8],
            segment_pred_probs: [0u8, 0u8, 0u8],
            segmentation_temporal_update: false,
            segmentation_update_data: false,
            segmentation_abs_or_delta_update: false,
            segment_feature_active: [[false, false, false, false]; 8],
            segment_feature_data: [[0i16, 0i16, 0i16, 0i16]; 8],
        };
        proof {
            reveal(base_frame_model);
            assert(f@ =~~= base_frame_model(f.data@));
        }
        f
    }

    /// Where the compressed header starts inside the payload, clamped to
    /// the payload length.
    pub open spec fn spec_header_end(&self) -> int {
        if self.uncompressed_header_size as int <= self.data@.len() {
            self.uncompressed_header_size as int
        } else {
            self.data@.len() as int
        }
    }

    /// Where the tile data starts inside the payload, clamped to the
    /// payload length.
    pub open spec fn spec_tile_start(&self) -> int {
        if self.uncompressed_header_size + self.compressed_header_size <= self.data@.len() {
            self.uncompressed_header_size + self.compressed_header_size
        } else {
            self.data@.len() as int
        }
    }

    /// A slice of the compressed header bytes; on a malformed stream
    /// whose recorded sizes pass the end of the payload the slice is
    /// clamped and may be empty.
    pub fn compressed_header_data(&self) -> (r: &[u8])
        ensures
            r@ == self.data@.subrange(self.spec_header_end(), self.spec_tile_start()),
    {
        let len = self.data.len();
        let lo = if self.uncompressed_header_size <= len {
            self.uncompressed_header_size
        } else {
            len
        };
        let hi = if self.compressed_header_size <= len - lo {
            lo + self.compressed_header_size
        } else {
            len
        };
        proof {
            assert(lo as int == self.spec_header_end() || hi as int == self.data@.len());
        }
        vstd::slice::slice_subrange(self.data.as_slice(), lo, hi)
    }

    /// A slice of the compressed header and tile bytes together; on a
    /// malformed stream the slice is clamped and may be empty.
    pub fn compressed_header_and_tile_data(&self) -> (r: &[u8])
        ensures
            r@ == self.data@.subrange(self.spec_header_end(), self.data@.len() as int),
    {
        let len = self.data.len();
        let lo = if self.uncompressed_header_size <= len {
            self.uncompressed_header_size
        } else {
            len
        };
        vstd::slice::slice_subrange(self.data.as_slice(), lo, len)
    }

    /// A slice of the tile bytes; on a malformed stream the slice is
    /// clamped and may be empty.
    pub fn tile_data(&self) -> (r: &[u8])
        ensures
            r@ == self.data@.subrange(self.spec_tile_start(), self.data@.len() as int),
    {
        let len = self.data.len();
        let lo = if self.uncompressed_header_size <= len {
            self.uncompressed_header_size
        } else {
            len
        };
        let start = if self.compressed_header_size <= len - lo {
            lo + self.compressed_header_size
        } else {
            len
        };
        vstd::slice::slice_subrange(self.data.as_slice(), start, len)
    }

    /// The profile the frame is using.
    pub fn profile(&self) -> (r: Profile)
        ensures
            r == self.profile,
    {
        self.profile
    }

    /// Indicates that the frame indexed by `frame_to_show_map_idx` is to
    /// be displayed; the frame contains no actual frame data.
    pub fn show_existing_frame(&self) -> (r: bool)
        ensures
            r == self.show_existing_frame,
    {
        self.show_existing_frame
    }

    /// The frame to be displayed, available only when
    /// `show_existing_frame` is true.
    pub fn frame_to_show_map_idx(&self) -> (r: Option<u8>)
        ensures
            r == self.frame_to_show_map_idx,
    {
        self.frame_to_show_map_idx
    }

    /// The frame type of the previous frame.
    pub fn last_frame_type(&self) -> (r: FrameType)
        ensures
            r == self.last_frame_type,
    {
        self.last_frame_type
    }

    /// The frame type of this frame.
    pub fn frame_type(&self) -> (r: FrameType)
        ensures
            r == self.frame_type,
    {
        self.frame_type
    }

    /// Whether to output the current frame.
    pub fn show_frame(&self) -> (r: bool)
        ensures
            r == self.show_frame,
    {
        self.show_frame
    }

    /// Indicates that error resilient mode is enabled: the syntax of the
    /// frame can be decoded independently of previous frames.
    pub fn error_resilient_mode(&self) -> (r: bool)
        ensures
            r == self.error_resilient_mode,
    {
        self.error_resilient_mode
    }

    /// Indicates an intra-only frame: intra prediction only, without the
    /// full decoder reset a key frame performs.
    pub fn intra_only(&self) -> (r: bool)
        ensures
            r == self.intra_only,
    {
        self.intra_only
    }

    /// Whether the frame context should be reset to default values.
    pub fn reset_frame_context(&self) -> (r: ResetFrameContext)
        ensures
            r == self.reset_frame_context,
    {
        self.reset_frame_context
    }

    /// The indices of the used reference frames.
    pub fn ref_frame_indices(&self) -> (r: &[u8; 3])
        ensures
            r@ == self.ref_frame_indices@,
    {
        &self.ref_frame_indices
    }

    /// Last reference frame index.
    pub fn last_ref_frame_index(&self) -> (r: u8)
        ensures
            r == self.ref_frame_indices@[0],
    {
        self.ref_frame_indices[0]
    }

    /// Golden reference frame index.
    pub fn golden_ref_frame_index(&self) -> (r: u8)
        ensures
            r == self.ref_frame_indices@[1],
    {
        self.ref_frame_indices[1]
    }

    /// Alternate reference frame index.
    pub fn alt_ref_frame_index(&self) -> (r: u8)
        ensures
            r == self.ref_frame_indices@[2],
    {
        self.ref_frame_indices[2]
    }

    /// The intended direction of the motion vector in time for each
    /// reference frame.
    pub fn ref_frame_sign_bias(&self) -> (r: &[bool; 4])
        ensures
            r@ == self.ref_frame_sign_bias@,
    {
        &self.ref_frame_sign_bias
    }

    /// The precision of the motion vectors: quarter precision when
    /// false, eighth precision when true.
    pub fn allow_high_precision_mv(&self) -> (r: bool)
        ensures
            r == self.allow_high_precision_mv,
    {
        self.allow_high_precision_mv
    }

    /// Whether the probabilities computed for this frame should be
    /// stored for reference by future frames.
    pub fn refresh_frame_context(&self) -> (r: bool)
        ensures
            r == self.refresh_frame_context,
    {
        self.refresh_frame_context
    }

    /// A bitmask of the reference frame slots updated with the current
    /// frame after it is decoded.
    pub fn refresh_frame_flags(&self) -> (r: u8)
        ensures
            r == self.refresh_frame_flags,
    {
        self.refresh_frame_flags
    }

    /// Whether parallel decoding mode is activated.
    pub fn frame_parallel_decoding_mode(&self) -> (r: bool)
        ensures
            r == self.frame_parallel_decoding_mode,
    {
        self.frame_parallel_decoding_mode
    }

    /// Which frame context to use.
    pub fn frame_context_idx(&self) -> (r: u8)
        ensures
            r == self.frame_context_idx,
    {
        self.frame_context_idx
    }

    /// The size of the uncompressed header in bytes.
    pub fn uncompressed_header_size(&self) -> (r: usize)
        ensures
            r == self.uncompressed_header_size,
    {
        self.uncompressed_header_size
    }

    /// The size of the compressed header in bytes.
    pub fn compressed_header_size(&self) -> (r: usize)
        ensures
            r == self.compressed_header_size,
    {
        self.compressed_header_size
    }

    /// The size of the tile data in bytes.
    pub fn tile_size(&self) -> (r: usize)
        ensures
            r == self.tile_size,
    {
        self.tile_size
    }

    /// The color depth of the frame.
    pub fn color_depth(&self) -> (r: ColorDepth)
        ensures
            r == self.color_depth,
    {
        self.color_depth
    }

    /// The color space of the frame.
    pub fn color_space(&self) -> (r: ColorSpace)
        ensures
            r == self.color_space,
    {
        self.color_space
    }

    /// The color range of the frame.
    pub fn color_range(&self) -> (r: ColorRange)
        ensures
            r == self.color_range,
    {
        self.color_range
    }

    /// The subsampling the frame is using, derived from the two
    /// subsampling flags.
    pub fn subsampling(&self) -> (r: Subsampling)
        ensures
            r == (if !self.subsampling_x && !self.subsampling_y {
                Subsampling::Yuv444
            } else if !self.subsampling_x && self.subsampling_y {
                Subsampling::Yuv440
            } else if self.subsampling_x && !self.subsampling_y {
                Subsampling::Yuv422
            } else {
                Subsampling::Yuv420
            }),
    {
        if !self.subsampling_x && !self.subsampling_y {
            Subsampling::Yuv444
        } else if !self.subsampling_x && self.subsampling_y {
            Subsampling::Yuv440
        } else if self.subsampling_x && !self.subsampling_y {
            Subsampling::Yuv422
        } else {
            Subsampling::Yuv420
        }
    }

    /// Whether subsampling is used along the x axis.
    pub fn subsampling_x(&self) -> (r: bool)
        ensures
            r == self.subsampling_x,
    {
        self.subsampling_x
    }

    /// Whether subsampling is used along the y axis.
    pub fn subsampling_y(&self) -> (r: bool)
        ensures
            r == self.subsampling_y,
    {
        self.subsampling_y
    }

    /// The width of the frame.
    pub fn width(&self) -> (r: u16)
        ensures
            r == self.width,
    {
        self.width
    }

    /// The height of the frame.
    pub fn height(&self) -> (r: u16)
        ensures
            r == self.height,
    {
        self.height
    }

    /// A hint for the application for the desired width to render.
    pub fn render_width(&self) -> (r: u16)
        ensures
            r == self.render_width,
    {
        self.render_width
    }

    /// A hint for the application for the desired height to render.
    pub fn render_height(&self) -> (r: u16)
        ensures
            r == self.render_height,
    {
        self.render_height
    }

    /// The frame width in units of 8x8 blocks.
    pub fn mi_cols(&self) -> (r: u16)
        ensures
            r == self.mi_cols,
    {
        self.mi_cols
    }

    /// The frame height in units of 8x8 blocks.
    pub fn mi_rows(&self) -> (r: u16)
        ensures
            r == self.mi_rows,
    {
        self.mi_rows
    }

    /// The base 2 logarithm of the number of tile rows.
    pub fn tile_rows_log2(&self) -> (r: u8)
        ensures
            r == self.tile_rows_log2,
    {
        self.tile_rows_log2
    }

    /// The base 2 logarithm of the number of tile columns.
    pub fn tile_cols_log2(&self) -> (r: u8)
        ensures
            r == self.tile_cols_log2,
    {
        self.tile_cols_log2
    }

    /// The type of filter used in inter prediction.
    pub fn interpolation_filter(&self) -> (r: InterpolationFilter)
        ensures
            r == self.interpolation_filter,
    {
        self.interpolation_filter
    }

    /// The loop filter strength.
    pub fn loop_filter_level(&self) -> (r: u8)
        ensures
            r == self.loop_filter_level,
    {
        self.loop_filter_level
    }

    /// The loop filter sharpness.
    pub fn loop_filter_sharpness(&self) -> (r: u8)
        ensures
            r == self.loop_filter_sharpness,
    {
        self.loop_filter_sharpness
    }

    /// Indicates that the filter level depends on the mode and reference
    /// frame used to predict a block.
    pub fn loop_filter_delta_enabled(&self) -> (r: bool)
        ensures
            r == self.loop_filter_delta_enabled,
    {
        self.loop_filter_delta_enabled
    }

    /// Always false: delta updates are folded directly into
    /// loop_filter_ref_deltas.
    pub fn update_ref_delta(&self) -> (r: bool)
        ensures
            r == self.update_ref_delta,
    {
        self.update_ref_delta
    }

    /// The adjustment of the filter level based on the chosen reference
    /// frame.
    pub fn loop_filter_ref_deltas(&self) -> (r: &[i8; 4])
        ensures
            r@ == self.loop_filter_ref_deltas@,
    {
        &self.loop_filter_ref_deltas
    }

    /// Always false: delta updates are folded directly into
    /// loop_filter_mode_deltas.
    pub fn update_mode_delta(&self) -> (r: bool)
        ensures
            r == self.update_mode_delta,
    {
        self.update_mode_delta
    }

    /// The adjustment of the filter level based on the chosen mode.
    pub fn loop_filter_mode_deltas(&self) -> (r: &[i8; 2])
        ensures
            r@ == self.loop_filter_mode_deltas@,
    {
        &self.loop_filter_mode_deltas
    }

    /// The base frame qindex, used for Y AC coefficients and as the base
    /// value for the other quantizers.
    pub fn base_q_idx(&self) -> (r: i32)
        ensures
            r == self.base_q_idx,
    {
        self.base_q_idx
    }

    /// The Y DC quantizer relative to base_q_idx.
    pub fn delta_q_y_dc(&self) -> (r: i32)
        ensures
            r == self.delta_q_y_dc,
    {
        self.delta_q_y_dc
    }

    /// The UV DC quantizer relative to base_q_idx.
    pub fn delta_q_uv_dc(&self) -> (r: i32)
        ensures
            r == self.delta_q_uv_dc,
    {
        self.delta_q_uv_dc
    }

    /// The UV AC quantizer relative to base_q_idx.
    pub fn delta_q_uv_ac(&self) -> (r: i32)
        ensures
            r == self.delta_q_uv_ac,
    {
        self.delta_q_uv_ac
    }

    /// Indicates a frame coded with the special 4x4 transform for
    /// bit-identical reconstruction.
    pub fn lossless(&self) -> (r: bool)
        ensures
            r == self.lossless,
    {
        self.lossless
    }

    /// Whether this frame makes use of the segmentation tool.
    pub fn segmentation_enabled(&self) -> (r: bool)
        ensures
            r == self.segmentation_enabled,
    {
        self.segmentation_enabled
    }

    /// Whether the segmentation map is updated during the decoding of
    /// this frame.
    pub fn segmentation_update_map(&self) -> (r: bool)
        ensures
            r == self.segmentation_update_map,
    {
        self.segmentation_update_map
    }

    /// The probability values used when decoding segment_id.
    pub fn segment_tree_probs(&self) -> (r: &[u8; 7])
        ensures
            r@ == self.segment_tree_probs@,
    {
        &self.segment_tree_probs
    }

    /// The probability values used when decoding seg_id_predicted.
    pub fn segment_pred_probs(&self) -> (r: &[u8; 3])
        ensures
            r@ == self.segment_pred_probs@,
    {
        &self.segment_pred_probs
    }

    /// Whether updates to the segmentation map are coded relative to the
    /// existing segmentation map.
    pub fn segmentation_temporal_update(&self) -> (r: bool)
        ensures
            r == self.segmentation_temporal_update,
    {
        self.segmentation_temporal_update
    }

    /// Whether new parameters are specified for each segment.
    pub fn segmentation_update_data(&self) -> (r: bool)
        ensures
            r == self.segmentation_update_data,
    {
        self.segmentation_update_data
    }

    /// Whether the segmentation parameters are actual values rather than
    /// adjustments relative to the standard values.
    pub fn segmentation_abs_or_delta_update(&self) -> (r: bool)
        ensures
            r == self.segmentation_abs_or_delta_update,
    {
        self.segmentation_abs_or_delta_update
    }

    /// Which features are used in each segment.
    pub fn segment_feature_active(&self) -> (r: &[[bool; 4]; 8])
        ensures
            r@ == self.segment_feature_active@,
    {
        &self.segment_feature_active
    }

    /// The values of the active features of each segment.
    pub fn segment_feature_data(&self) -> (r: &[[i16; 4]; 8])
        ensures
            r@ == self.segment_feature_data@,
    {
        &self.segment_feature_data
    }
}

} // verus!
