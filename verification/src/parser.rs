//! The VP9 parser: the cross-frame state and the executable parsing of
//! packets and frames, proved against the header model.

use vstd::prelude::*;

use crate::bits::BitReader;
use crate::error::ParserError;
use crate::frame::Frame;
use crate::frame::frame_models;
use crate::header::ColorInfo;
use crate::header::FrameModel;
use crate::header::HeaderMid;
use crate::header::LoopFilterInfo;
use crate::header::QuantInfo;
use crate::header::SegFlags;
use crate::header::SegModel;
use crate::header::SizeInfo;
use crate::header::StateModel;
use crate::header::active_rows;
use crate::header::data_rows;
use crate::header::default_seg_model;
use crate::header::initial_state;
use crate::header::max_tile_cols_log2;
use crate::header::min_tile_cols_log2;
use crate::header::refreshed_sizes;
use crate::header::show_existing_frame_model;
use crate::header::size_info_of;
use crate::header::spec_color_config;
use crate::header::spec_delta_q;
use crate::header::spec_delta_updates;
use crate::header::spec_frame_size;
use crate::header::spec_interpolation_filter;
use crate::header::spec_key_part;
use crate::header::spec_loop_filter;
use crate::header::spec_nonkey_part;
use crate::header::spec_one_segment;
use crate::header::spec_parse_frame;
use crate::header::spec_probs;
use crate::header::spec_profile;
use crate::header::spec_quant;
use crate::header::spec_read_prob;
use crate::header::spec_render_size;
use crate::header::spec_segmentation;
use crate::header::spec_segments;
use crate::header::spec_size_with_refs;
use crate::header::spec_sync_code;
use crate::header::spec_tile_cols;
use crate::header::spec_tile_info;
use crate::header::spec_trailing;
use crate::superframe::bytes_per_framesize;
use crate::superframe::frame_count;
use crate::superframe::frame_size_entry;
use crate::superframe::has_superframe_index;
use crate::superframe::is_superframe_marker;
use crate::superframe::lemma_entry_is_frame_size;
use crate::superframe::lemma_marker_fields;
use crate::superframe::read_frame_size;
use crate::types::ColorDepth;
use crate::types::ColorRange;
use crate::types::ColorSpace;
use crate::types::FrameType;
use crate::types::InterpolationFilter;
use crate::types::Profile;
use crate::types::RefSize;
use crate::types::ResetFrameContext;

verus! {

/// Parses VP9 bitstreams.
///
/// The parser keeps only the state that survives between the frames of
/// one stream: the type of the last parsed frame, the sizes stored in
/// the eight reference slots, and the persistent loop filter deltas.
pub struct Vp9Parser {
    /// Type of the previous non-show-existing frame.
    pub last_frame_type: FrameType,
    /// Width and height stored in each of the 8 reference slots.
    pub ref_frame_sizes: [RefSize; 8],
    /// Persistent loop filter reference deltas.
    pub loop_filter_ref_deltas: [i8; 4],
    /// Persistent loop filter mode deltas.
    pub loop_filter_mode_deltas: [i8; 2],
}

impl View for Vp9Parser {
    type V = StateModel;

    open spec fn view(&self) -> StateModel {
        StateModel {
            last_frame_type: self.last_frame_type,
            ref_frame_sizes: self.ref_frame_sizes@,
            loop_filter_ref_deltas: self.loop_filter_ref_deltas@,
            loop_filter_mode_deltas: self.loop_filter_mode_deltas@,
        }
    }
}

impl Default for Vp9Parser {
    /// The state of a parser before any frame: no frame seen, empty
    /// reference slots, and the default loop filter deltas.
    fn default() -> (r: Self)
        ensures
            r@ == initial_state(),
    {
        let r = Vp9Parser {
            last_frame_type: FrameType::NonKeyFrame,
            ref_frame_sizes: [
                RefSize { width: 0u16, height: 0u16 },
                RefSize { width: 0u16, height: 0u16 },
                RefSize { width: 0u16, height: 0u16 },
                RefSize { width: 0u16, height: 0u16 },
                RefSize { width: 0u16, height: 0u16 },
                RefSize { width: 0u16, height: 0u16 },
                RefSize { width: 0u16, height: 0u16 },
                RefSize { width: 0u16, height: 0u16 },
            ],
            loop_filter_ref_deltas: [1i8, 0i8, -1i8, -1i8],
            loop_filter_mode_deltas: [0i8, 0i8],
        };
        proof {
            assert(forall|i: int|
                0 <= i < 8 ==> r.ref_frame_sizes@[i] == (RefSize { width: 0u16, height: 0u16 }));
            assert(r@ =~~= initial_state());
        }
        r
    }
}

impl Vp9Parser {
    /// Creates a new parser.
    pub fn new() -> (r: Self)
        ensures
            r@ == initial_state(),
    {
        Default::default()
    }

    /// Resets the state of the parser.  Used when switching the
    /// bitstream or seeking.
    pub fn reset(&mut self)
        ensures
            final(self)@ == initial_state(),
    {
        *self = Vp9Parser::default();
    }
}

/// Reads the frame sync code and checks it against 0x49 0x83 0x42.
fn frame_sync_code(br: &mut BitReader) -> (r: Result<(), ParserError>)
    requires
        old(br).wf(),
    ensures
        final(br).wf(),
        final(br).data == old(br).data,
        match r {
            Ok(u) => spec_sync_code(old(br).data@, old(br).pos()) == Ok::<nat, ParserError>(
                final(br).pos(),
            ),
            Err(e) => spec_sync_code(old(br).data@, old(br).pos()) == Err::<nat, ParserError>(e),
        },
{
    proof {
        reveal(crate::header::spec_sync_code);
    }
    let b0 = match br.read_u8(8) {
        Ok(v) => v,
        Err(e) => {
            return Err(e);
        },
    };
    let b1 = match br.read_u8(8) {
        Ok(v) => v,
        Err(e) => {
            return Err(e);
        },
    };
    let b2 = match br.read_u8(8) {
        Ok(v) => v,
        Err(e) => {
            return Err(e);
        },
    };
    if b0 != 0x49 && b1 != 0x83 && b2 != 0x42 {
        Err(ParserError::InvalidSyncByte)
    } else {
        Ok(())
    }
}

/// Reads the color_config syntax for `profile`.
fn color_config(br: &mut BitReader, profile: Profile) -> (r: Result<ColorInfo, ParserError>)
    requires
        old(br).wf(),
    ensures
        final(br).wf(),
        final(br).data == old(br).data,
        match r {
            Ok(c) => spec_color_config(profile, old(br).data@, old(br).pos()) == Ok::<
                (ColorInfo, nat),
                ParserError,
            >((c, final(br).pos())),
            Err(e) => spec_color_config(profile, old(br).data@, old(br).pos()) == Err::<
                (ColorInfo, nat),
                ParserError,
            >(e),
        },
{
    proof {
        reveal(crate::header::spec_color_config);
    }
    let color_depth = if matches!(profile, Profile::Profile2) || matches!(
        profile,
        Profile::Profile3,
    ) {
        let twelve = match br.read_bool() {
            Ok(v) => v,
            Err(e) => {
                return Err(e);
            },
        };
        if twelve {
            ColorDepth::Depth12
        } else {
            ColorDepth::Depth10
        }
    } else {
        ColorDepth::Depth8
    };
    let cs = match br.read_u8(3) {
        Ok(v) => v,
        Err(e) => {
            return Err(e);
        },
    };
    let color_space = ColorSpace::from_u8(cs);
    let sub_profile = matches!(profile, Profile::Profile1) || matches!(profile, Profile::Profile3);
    if matches!(color_space, ColorSpace::Rgb) {
        if sub_profile {
            match br.read_bool() {
                Ok(reserved) => Ok(
                    ColorInfo {
                        color_depth,
                        color_space,
                        color_range: ColorRange::FullSwing,
                        subsampling_x: false,
                        subsampling_y: false,
                    },
                ),
                Err(e) => Err(e),
            }
        } else {
            Ok(
                ColorInfo {
                    color_depth,
                    color_space,
                    color_range: ColorRange::FullSwing,
                    subsampling_x: true,
                    subsampling_y: true,
                },
            )
        }
    } else {
        let range_bit = match br.read_bool() {
            Ok(v) => v,
            Err(e) => {
                return Err(e);
            },
        };
        let color_range = ColorRange::from_bool(range_bit);
        if sub_profile {
            let sx = match br.read_bool() {
                Ok(v) => v,
                Err(e) => {
                    return Err(e);
                },
            };
            let sy = match br.read_bool() {
                Ok(v) => v,
                Err(e) => {
                    return Err(e);
                },
            };
            match br.read_bool() {
                Ok(reserved) => Ok(
                    ColorInfo {
                        color_depth,
                        color_space,
                        color_range,
                        subsampling_x: sx,
                        subsampling_y: sy,
                    },
                ),
                Err(e) => Err(e),
            }
        } else {
            Ok(
                ColorInfo {
                    color_depth,
                    color_space,
                    color_range,
                    subsampling_x: true,
                    subsampling_y: true,
                },
            )
        }
    }
}

/// Reads the explicit frame_size syntax: 16-bit width and height, each
/// minus one.
fn frame_size(br: &mut BitReader) -> (r: Result<SizeInfo, ParserError>)
    requires
        old(br).wf(),
    ensures
        final(br).wf(),
        final(br).data == old(br).data,
        match r {
            Ok(s) => spec_frame_size(old(br).data@, old(br).pos()) == Ok::<
                (SizeInfo, nat),
                ParserError,
            >((s, final(br).pos())),
            Err(e) => spec_frame_size(old(br).data@, old(br).pos()) == Err::<
                (SizeInfo, nat),
                ParserError,
            >(e),
        },
{
    proof {
        reveal(crate::header::spec_frame_size);
    }
    let wm1 = match br.read_u16(16) {
        Ok(v) => v,
        Err(e) => {
            return Err(e);
        },
    };
    let hm1 = match br.read_u16(16) {
        Ok(v) => v,
        Err(e) => {
            return Err(e);
        },
    };
    if wm1 == 0xFFFF || hm1 == 0xFFFF {
        return Err(ParserError::NumericRange);
    }
    Ok(make_size_info(wm1 + 1, hm1 + 1))
}

/// Computes the frame size record of a width and height, with the 8x8
/// block counts.
fn make_size_info(width: u16, height: u16) -> (r: SizeInfo)
    ensures
        r == size_info_of(width, height),
{
    let mi_cols = ((width as u32 + 7) >> 3) as u16;
    let mi_rows = ((height as u32 + 7) >> 3) as u16;
    proof {
        lemma_shr3_is_div8((width as u32 + 7) as u32);
        lemma_shr3_is_div8((height as u32 + 7) as u32);
    }
    SizeInfo { width, height, mi_cols, mi_rows }
}

/// Shifting right by 3 divides by 8.
proof fn lemma_shr3_is_div8(x: u32)
    by (bit_vector)
    ensures
        (x >> 3) == x / 8,
{
}

/// Reads the render_size syntax, given the frame size to fall back to.
fn render_size(br: &mut BitReader, width: u16, height: u16) -> (r: Result<
    (u16, u16),
    ParserError,
>)
    requires
        old(br).wf(),
    ensures
        final(br).wf(),
        final(br).data == old(br).data,
        match r {
            Ok(wh) => spec_render_size(width, height, old(br).data@, old(br).pos()) == Ok::<
                ((u16, u16), nat),
                ParserError,
            >((wh, final(br).pos())),
            Err(e) => spec_render_size(width, height, old(br).data@, old(br).pos()) == Err::<
                ((u16, u16), nat),
                ParserError,
            >(e),
        },
{
    proof {
        reveal(crate::header::spec_render_size);
    }
    let different = match br.read_bool() {
        Ok(v) => v,
        Err(e) => {
            return Err(e);
        },
    };
    if different {
        let wm1 = match br.read_u16(16) {
            Ok(v) => v,
            Err(e) => {
                return Err(e);
            },
        };
        let hm1 = match br.read_u16(16) {
            Ok(v) => v,
            Err(e) => {
                return Err(e);
            },
        };
        if wm1 == 0xFFFF || hm1 == 0xFFFF {
            return Err(ParserError::NumericRange);
        }
        Ok((wm1 + 1, hm1 + 1))
    } else {
        Ok((width, height))
    }
}

/// Reads the interpolation_filter syntax.
fn read_interpolation_filter(br: &mut BitReader) -> (r: Result<InterpolationFilter, ParserError>)
    requires
        old(br).wf(),
    ensures
        final(br).wf(),
        final(br).data == old(br).data,
        match r {
            Ok(f) => spec_interpolation_filter(old(br).data@, old(br).pos()) == Ok::<
                (InterpolationFilter, nat),
                ParserError,
            >((f, final(br).pos())),
            Err(e) => spec_interpolation_filter(old(br).data@, old(br).pos()) == Err::<
                (InterpolationFilter, nat),
                ParserError,
            >(e),
        },
{
    proof {
        reveal(crate::header::spec_interpolation_filter);
    }
    let switchable = match br.read_bool() {
        Ok(v) => v,
        Err(e) => {
            return Err(e);
        },
    };
    if switchable {
        Ok(InterpolationFilter::Switchable)
    } else {
        let raw = match br.read_u8(2) {
            Ok(v) => v,
            Err(e) => {
                return Err(e);
            },
        };
        Ok(InterpolationFilter::from_u8(raw))
    }
}

/// Reads one delta_q field: a flag, then a 4-bit signed value.
fn read_delta_q(br: &mut BitReader) -> (r: Result<i8, ParserError>)
    requires
        old(br).wf(),
    ensures
        final(br).wf(),
        final(br).data == old(br).data,
        match r {
            Ok(v) => spec_delta_q(old(br).data@, old(br).pos()) == Ok::<(int, nat), ParserError>(
                (v as int, final(br).pos()),
            ),
            Err(e) => spec_delta_q(old(br).data@, old(br).pos()) == Err::<(int, nat), ParserError>(
                e,
            ),
        },
{
    proof {
        reveal(crate::header::spec_delta_q);
    }
    let coded = match br.read_bool() {
        Ok(v) => v,
        Err(e) => {
            return Err(e);
        },
    };
    if coded {
        match br.read_inverse_i8(4) {
            Ok(v) => Ok(v),
            Err(e) => Err(e),
        }
    } else {
        Ok(0)
    }
}

/// Reads the quantization_params syntax.
fn quantization_params(br: &mut BitReader) -> (r: Result<QuantInfo, ParserError>)
    requires
        old(br).wf(),
    ensures
        final(br).wf(),
        final(br).data == old(br).data,
        match r {
            Ok(q) => spec_quant(old(br).data@, old(br).pos()) == Ok::<
                (QuantInfo, nat),
                ParserError,
            >((q, final(br).pos())),
            Err(e) => spec_quant(old(br).data@, old(br).pos()) == Err::<
                (QuantInfo, nat),
                ParserError,
            >(e),
        },
{
    proof {
        reveal(crate::header::spec_quant);
    }
    let base = match br.read_u8(8) {
        Ok(v) => v,
        Err(e) => {
            return Err(e);
        },
    };
    let y_dc = match read_delta_q(br) {
        Ok(v) => v,
        Err(e) => {
            return Err(e);
        },
    };
    let uv_dc = match read_delta_q(br) {
        Ok(v) => v,
        Err(e) => {
            return Err(e);
        },
    };
    let uv_ac = match read_delta_q(br) {
        Ok(v) => v,
        Err(e) => {
            return Err(e);
        },
    };
    Ok(
        QuantInfo {
            base_q_idx: base as i32,
            delta_q_y_dc: y_dc as i32,
            delta_q_uv_dc: uv_dc as i32,
            delta_q_uv_ac: uv_ac as i32,
            lossless: base == 0 && y_dc == 0 && uv_dc == 0 && uv_ac == 0,
        },
    )
}

/// Reads one probability field: a flag, then an 8-bit value, else 255.
fn read_prob(br: &mut BitReader) -> (r: Result<u8, ParserError>)
    requires
        old(br).wf(),
    ensures
        final(br).wf(),
        final(br).data == old(br).data,
        match r {
            Ok(v) => spec_read_prob(old(br).data@, old(br).pos()) == Ok::<(u8, nat), ParserError>(
                (v, final(br).pos()),
            ),
            Err(e) => spec_read_prob(old(br).data@, old(br).pos()) == Err::<(u8, nat), ParserError>(
                e,
            ),
        },
{
    proof {
        reveal(crate::header::spec_read_prob);
    }
    let coded = match br.read_bool() {
        Ok(v) => v,
        Err(e) => {
            return Err(e);
        },
    };
    if coded {
        match br.read_u8(8) {
            Ok(v) => Ok(v),
            Err(e) => Err(e),
        }
    } else {
        Ok(255)
    }
}

/// Consumes the zero padding bits up to the next byte boundary; a set
/// bit is invalid padding, and a header that already ends on a byte
/// boundary consumes nothing.
fn trailing_bits(br: &mut BitReader) -> (r: Result<(), ParserError>)
    requires
        old(br).wf(),
    ensures
        final(br).wf(),
        final(br).data == old(br).data,
        match r {
            Ok(u) => {
                &&& spec_trailing(old(br).data@, old(br).pos()) == Ok::<nat, ParserError>(
                    final(br).pos(),
                )
                &&& final(br).pos() % 8 == 0
            },
            Err(e) => spec_trailing(old(br).data@, old(br).pos()) == Err::<nat, ParserError>(e),
        },
{
    proof {
        reveal(crate::header::spec_trailing);
    }
    let ghost d = old(br).data@;
    let ghost p0 = old(br).pos();
    let ghost k = ((8 - p0 % 8) % 8) as nat;
    proof {
        assert((p0 + k) % 8 == 0);
        assert(p0 + k <= 8 * d.len());
    }
    loop
        invariant
            br.wf(),
            br.data == old(br).data,
            br.data@ == d,
            p0 == old(br).pos(),
            p0 <= br.pos() <= p0 + k,
            k == ((8 - p0 % 8) % 8),
            k < 8,
            p0 + k <= 8 * d.len(),
            (p0 + k) % 8 == 0,
            forall|j: nat| p0 <= j < br.pos() ==> !(#[trigger] crate::bits::bit_at(d, j)),
        ensures
            br.wf(),
            br.data == old(br).data,
            br.pos() == p0 + k,
            forall|j: nat| p0 <= j < br.pos() ==> !(#[trigger] crate::bits::bit_at(d, j)),
        decreases p0 + k - br.pos(),
    {
        if br.is_byte_aligned() {
            proof {
                assert(br.pos() == p0 + k);
            }
            break;
        }
        let ghost pp = br.pos();
        match br.read_bool() {
            Ok(set_bit) => {
                proof {
                    assert(pp < p0 + k);
                    assert(set_bit == crate::bits::bit_at(d, pp));
                }
                if set_bit {
                    proof {
                        reveal(crate::header::spec_trailing);
                        assert(p0 + ((pp - p0) as nat) == pp);
                        assert(((pp - p0) as nat) < k);
                        assert(crate::bits::bit_at(d, (p0 + (pp - p0) as nat) as nat));
                    }
                    return Err(ParserError::InvalidPadding);
                }
                proof {
                    assert(!crate::bits::bit_at(d, pp));
                }
            },
            Err(e) => {
                proof {
                    assert(false);
                }
                return Err(e);
            },
        }
    }
    proof {
        reveal(crate::header::spec_trailing);
        assert(forall|j: nat|
            j < k ==> p0 <= p0 + j < br.pos() && !(#[trigger] crate::bits::bit_at(
                d,
                (p0 + j) as nat,
            )));
    }
    Ok(())
}

/// One pass of loop filter delta updates over `arr`: each entry is
/// preceded by one bit saying whether a 6-bit signed update follows.
#[verifier::loop_isolation(false)]
fn delta_updates<const N: usize>(br: &mut BitReader, arr: &mut [i8; N]) -> (r: Result<
    (),
    ParserError,
>)
    requires
        old(br).wf(),
    ensures
        final(br).wf(),
        final(br).data == old(br).data,
        match r {
            Ok(u) => spec_delta_updates(old(arr)@, 0, old(br).data@, old(br).pos()) == Ok::<
                (Seq<i8>, nat),
                ParserError,
            >((final(arr)@, final(br).pos())),
            Err(e) => spec_delta_updates(old(arr)@, 0, old(br).data@, old(br).pos()) == Err::<
                (Seq<i8>, nat),
                ParserError,
            >(e),
        },
{
    let mut k: usize = 0;
    while k < N
        invariant
            br.wf(),
            br.data == old(br).data,
            k <= N,
            arr@.len() == N,
            spec_delta_updates(old(arr)@, 0, old(br).data@, old(br).pos()) == spec_delta_updates(
                arr@,
                k as nat,
                old(br).data@,
                br.pos(),
            ),
        decreases N - k,
    {
        let update = match br.read_bool() {
            Ok(v) => v,
            Err(e) => {
                return Err(e);
            },
        };
        if update {
            let v = match br.read_inverse_i8(6) {
                Ok(v) => v,
                Err(e) => {
                    return Err(e);
                },
            };
            arr[k] = v;
        }
        k = k + 1;
    }
    Ok(())
}

/// Fills `arr` with probability fields.
#[verifier::loop_isolation(false)]
fn read_probs<const N: usize>(br: &mut BitReader, arr: &mut [u8; N]) -> (r: Result<
    (),
    ParserError,
>)
    requires
        old(br).wf(),
    ensures
        final(br).wf(),
        final(br).data == old(br).data,
        match r {
            Ok(u) => spec_probs(old(arr)@, 0, old(br).data@, old(br).pos()) == Ok::<
                (Seq<u8>, nat),
                ParserError,
            >((final(arr)@, final(br).pos())),
            Err(e) => spec_probs(old(arr)@, 0, old(br).data@, old(br).pos()) == Err::<
                (Seq<u8>, nat),
                ParserError,
            >(e),
        },
{
    let mut k: usize = 0;
    while k < N
        invariant
            br.wf(),
            br.data == old(br).data,
            k <= N,
            arr@.len() == N,
            spec_probs(old(arr)@, 0, old(br).data@, old(br).pos()) == spec_probs(
                arr@,
                k as nat,
                old(br).data@,
                br.pos(),
            ),
        decreases N - k,
    {
        let v = match read_prob(br) {
            Ok(v) => v,
            Err(e) => {
                return Err(e);
            },
        };
        arr[k] = v;
        k = k + 1;
    }
    Ok(())
}

/// Reads the four feature entries of one segment.
fn one_segment(br: &mut BitReader) -> (r: Result<([bool; 4], [i16; 4]), ParserError>)
    requires
        old(br).wf(),
    ensures
        final(br).wf(),
        final(br).data == old(br).data,
        match r {
            Ok(row) => spec_one_segment(old(br).data@, old(br).pos()) == Ok::<
                ((Seq<bool>, Seq<i16>), nat),
                ParserError,
            >(((row.0@, row.1@), final(br).pos())),
            Err(e) => spec_one_segment(old(br).data@, old(br).pos()) == Err::<
                ((Seq<bool>, Seq<i16>), nat),
                ParserError,
            >(e),
        },
{
    proof {
        reveal(crate::header::spec_one_segment);
    }
    let fq = match br.read_bool() {
        Ok(v) => v,
        Err(e) => {
            return Err(e);
        },
    };
    let vq: i16 = if fq {
        match br.read_inverse_i16(8) {
            Ok(v) => v,
            Err(e) => {
                return Err(e);
            },
        }
    } else {
        0
    };
    let fl = match br.read_bool() {
        Ok(v) => v,
        Err(e) => {
            return Err(e);
        },
    };
    let vl: i16 = if fl {
        match br.read_inverse_i16(6) {
            Ok(v) => v,
            Err(e) => {
                return Err(e);
            },
        }
    } else {
        0
    };
    let fr = match br.read_bool() {
        Ok(v) => v,
        Err(e) => {
            return Err(e);
        },
    };
    let vr: i16 = if fr {
        match br.read_inverse_i16(2) {
            Ok(v) => v,
            Err(e) => {
                return Err(e);
            },
        }
    } else {
        0
    };
    let fs = match br.read_bool() {
        Ok(v) => v,
        Err(e) => {
            return Err(e);
        },
    };
    let active = [fq, fl, fr, fs];
    let values = [vq, vl, vr, 0i16];
    proof {
        assert(active@ =~= seq![fq, fl, fr, fs]);
        assert(values@ =~= seq![vq, vl, vr, 0i16]);
    }
    Ok((active, values))
}

/// Fills the two feature tables with the eight segments.
#[verifier::loop_isolation(false)]
fn read_segments(
    br: &mut BitReader,
    act: &mut [[bool; 4]; 8],
    dat: &mut [[i16; 4]; 8],
) -> (r: Result<(), ParserError>)
    requires
        old(br).wf(),
    ensures
        final(br).wf(),
        final(br).data == old(br).data,
        match r {
            Ok(u) => spec_segments(
                active_rows(old(act)@),
                data_rows(old(dat)@),
                0,
                old(br).data@,
                old(br).pos(),
            ) == Ok::<((Seq<Seq<bool>>, Seq<Seq<i16>>), nat), ParserError>(
                ((active_rows(final(act)@), data_rows(final(dat)@)), final(br).pos()),
            ),
            Err(e) => spec_segments(
                active_rows(old(act)@),
                data_rows(old(dat)@),
                0,
                old(br).data@,
                old(br).pos(),
            ) == Err::<((Seq<Seq<bool>>, Seq<Seq<i16>>), nat), ParserError>(e),
        },
{
    let mut k: usize = 0;
    while k < 8
        invariant
            br.wf(),
            br.data == old(br).data,
            k <= 8,
            spec_segments(
                active_rows(old(act)@),
                data_rows(old(dat)@),
                0,
                old(br).data@,
                old(br).pos(),
            ) == spec_segments(
                active_rows(act@),
                data_rows(dat@),
                k as nat,
                old(br).data@,
                br.pos(),
            ),
        decreases 8 - k,
    {
        let ghost act_before = active_rows(act@);
        let ghost dat_before = data_rows(dat@);
        let row = match one_segment(br) {
            Ok(v) => v,
            Err(e) => {
                return Err(e);
            },
        };
        act[k] = row.0;
        dat[k] = row.1;
        proof {
            assert(active_rows(act@) =~= act_before.update(k as int, row.0@));
            assert(data_rows(dat@) =~= dat_before.update(k as int, row.1@));
        }
        k = k + 1;
    }
    Ok(())
}

/// Reads the segmentation_params syntax.
fn segmentation_params(br: &mut BitReader) -> (r: Result<
    (SegFlags, [u8; 7], [u8; 3], [[bool; 4]; 8], [[i16; 4]; 8]),
    ParserError,
>)
    requires
        old(br).wf(),
    ensures
        final(br).wf(),
        final(br).data == old(br).data,
        match r {
            Ok(o) => spec_segmentation(old(br).data@, old(br).pos()) == Ok::<
                (SegModel, nat),
                ParserError,
            >(
                (
                    SegModel {
                        flags: o.0,
                        tree_probs: o.1@,
                        pred_probs: o.2@,
                        feature_active: active_rows(o.3@),
                        feature_data: data_rows(o.4@),
                    },
                    final(br).pos(),
                ),
            ),
            Err(e) => spec_segmentation(old(br).data@, old(br).pos()) == Err::<
                (SegModel, nat),
                ParserError,
            >(e),
        },
{
    proof {
        reveal(crate::header::spec_segmentation);
    }
    let mut tree_probs = [0u8, 0u8, 0u8, 0u8, 0u8, 0u8, 0u8];
    let mut pred_probs = [0u8, 0u8, 0u8];
    let mut feature_active = [[false, false, false, false]; 8];
    let mut feature_data = [[0i16, 0i16, 0i16, 0i16]; 8];
    proof {
        let base = default_seg_model();
        assert(tree_probs@ =~= base.tree_probs);
        assert(pred_probs@ =~= base.pred_probs);
        assert(active_rows(feature_active@) =~= base.feature_active);
        assert(data_rows(feature_data@) =~= base.feature_data);
    }
    let enabled = match br.read_bool() {
        Ok(v) => v,
        Err(e) => {
            return Err(e);
        },
    };
    if !enabled {
        let flags = SegFlags {
            enabled: false,
            update_map: false,
            temporal_update: false,
            update_data: false,
            abs_or_delta_update: false,
        };
        return Ok((flags, tree_probs, pred_probs, feature_active, feature_data));
    }
    let update_map = match br.read_bool() {
        Ok(v) => v,
        Err(e) => {
            return Err(e);
        },
    };
    let mut temporal_update = false;
    if update_map {
        match read_probs(br, &mut tree_probs) {
            Ok(u) => u,
            Err(e) => {
                return Err(e);
            },
        };
        temporal_update = match br.read_bool() {
            Ok(v) => v,
            Err(e) => {
                return Err(e);
            },
        };
        if temporal_update {
            match read_probs(br, &mut pred_probs) {
                Ok(u) => u,
                Err(e) => {
                    return Err(e);
                },
            };
        } else {
            pred_probs = [255u8, 255u8, 255u8];
            proof {
                assert(pred_probs@ =~= seq![255u8, 255u8, 255u8]);
            }
        }
    }
    let update_data = match br.read_bool() {
        Ok(v) => v,
        Err(e) => {
            return Err(e);
        },
    };
    let mut abs_or_delta_update = false;
    if update_data {
        abs_or_delta_update = match br.read_bool() {
            Ok(v) => v,
            Err(e) => {
                return Err(e);
            },
        };
        match read_segments(br, &mut feature_active, &mut feature_data) {
            Ok(u) => u,
            Err(e) => {
                return Err(e);
            },
        };
    }
    let flags = SegFlags {
        enabled: true,
        update_map,
        temporal_update,
        update_data,
        abs_or_delta_update,
    };
    Ok((flags, tree_probs, pred_probs, feature_active, feature_data))
}

/// Reads the tile_cols_log2 increment bits, starting from the minimum.
fn tile_cols(br: &mut BitReader, minl: u8, maxl: u8) -> (r: Result<u8, ParserError>)
    requires
        old(br).wf(),
    ensures
        final(br).wf(),
        final(br).data == old(br).data,
        match r {
            Ok(c) => spec_tile_cols(minl, maxl, old(br).data@, old(br).pos()) == Ok::<
                (u8, nat),
                ParserError,
            >((c, final(br).pos())),
            Err(e) => spec_tile_cols(minl, maxl, old(br).data@, old(br).pos()) == Err::<
                (u8, nat),
                ParserError,
            >(e),
        },
{
    let mut cur = minl;
    while cur < maxl
        invariant_except_break
            br.wf(),
            br.data == old(br).data,
            spec_tile_cols(minl, maxl, old(br).data@, old(br).pos()) == spec_tile_cols(
                cur,
                maxl,
                old(br).data@,
                br.pos(),
            ),
        ensures
            br.wf(),
            br.data == old(br).data,
            spec_tile_cols(minl, maxl, old(br).data@, old(br).pos()) == Ok::<
                (u8, nat),
                ParserError,
            >((cur, br.pos())),
        decreases maxl - cur,
    {
        let increment = match br.read_bool() {
            Ok(v) => v,
            Err(e) => {
                return Err(e);
            },
        };
        if increment {
            cur = cur + 1;
        } else {
            break;
        }
    }
    Ok(cur)
}

/// Reads the tile_info syntax for a frame `mi_cols` blocks wide.
fn tile_info(br: &mut BitReader, mi_cols: u16) -> (r: Result<(u8, u8), ParserError>)
    requires
        old(br).wf(),
    ensures
        final(br).wf(),
        final(br).data == old(br).data,
        match r {
            Ok(t) => spec_tile_info(mi_cols, old(br).data@, old(br).pos()) == Ok::<
                ((u8, u8), nat),
                ParserError,
            >((t, final(br).pos())),
            Err(e) => spec_tile_info(mi_cols, old(br).data@, old(br).pos()) == Err::<
                ((u8, u8), nat),
                ParserError,
            >(e),
        },
{
    proof {
        reveal(crate::header::spec_tile_info);
    }
    let sb64_wide = (mi_cols as u32 + 7) >> 3;
    proof {
        lemma_shr3_is_div8((mi_cols as u32 + 7) as u32);
    }
    if sb64_wide > 255 {
        return Err(ParserError::NumericRange);
    }
    let sb64 = sb64_wide as u8;
    let minl = if sb64 <= 64 {
        0u8
    } else if sb64 <= 128 {
        1u8
    } else {
        2u8
    };
    let maxl = if sb64 >= 128 {
        5u8
    } else if sb64 >= 64 {
        4u8
    } else if sb64 >= 32 {
        3u8
    } else if sb64 >= 16 {
        2u8
    } else if sb64 >= 8 {
        1u8
    } else {
        0u8
    };
    proof {
        assert(minl == min_tile_cols_log2(sb64));
        assert(maxl == max_tile_cols_log2(sb64));
    }
    let cols = match tile_cols(br, minl, maxl) {
        Ok(v) => v,
        Err(e) => {
            return Err(e);
        },
    };
    let rows0 = match br.read_u8(1) {
        Ok(v) => v,
        Err(e) => {
            return Err(e);
        },
    };
    if rows0 == 1 {
        let ghost pp = br.pos();
        let inc = match br.read_u8(1) {
            Ok(v) => v,
            Err(e) => {
                return Err(e);
            },
        };
        proof {
            assert(crate::bits::bits_value(br.data@, pp, 0) == 0);
            assert(inc <= 1);
        }
        Ok((cols, rows0 + inc))
    } else {
        Ok((cols, rows0))
    }
}

/// Reads the frame_size_with_refs syntax against the stored slot sizes.
fn frame_size_with_refs(
    br: &mut BitReader,
    sizes: &[RefSize; 8],
    idxs: &[u8; 3],
) -> (r: Result<SizeInfo, ParserError>)
    requires
        old(br).wf(),
        idxs@[0] < 8,
        idxs@[1] < 8,
        idxs@[2] < 8,
    ensures
        final(br).wf(),
        final(br).data == old(br).data,
        match r {
            Ok(s) => spec_size_with_refs(sizes@, idxs@, old(br).data@, old(br).pos()) == Ok::<
                (SizeInfo, nat),
                ParserError,
            >((s, final(br).pos())),
            Err(e) => spec_size_with_refs(sizes@, idxs@, old(br).data@, old(br).pos()) == Err::<
                (SizeInfo, nat),
                ParserError,
            >(e),
        },
{
    proof {
        reveal(crate::header::spec_size_with_refs);
    }
    let f0 = match br.read_bool() {
        Ok(v) => v,
        Err(e) => {
            return Err(e);
        },
    };
    if f0 {
        let slot = sizes[idxs[0] as usize];
        return Ok(make_size_info(slot.width, slot.height));
    }
    let f1 = match br.read_bool() {
        Ok(v) => v,
        Err(e) => {
            return Err(e);
        },
    };
    if f1 {
        let slot = sizes[idxs[1] as usize];
        return Ok(make_size_info(slot.width, slot.height));
    }
    let f2 = match br.read_bool() {
        Ok(v) => v,
        Err(e) => {
            return Err(e);
        },
    };
    if f2 {
        let slot = sizes[idxs[2] as usize];
        return Ok(make_size_info(slot.width, slot.height));
    }
    frame_size(br)
}

/// Reads the loop_filter_params syntax, updating the delta arrays in
/// place.
fn loop_filter_params(
    br: &mut BitReader,
    rd: &mut [i8; 4],
    md: &mut [i8; 2],
) -> (r: Result<LoopFilterInfo, ParserError>)
    requires
        old(br).wf(),
    ensures
        final(br).wf(),
        final(br).data == old(br).data,
        match r {
            Ok(info) => spec_loop_filter(old(rd)@, old(md)@, old(br).data@, old(br).pos()) == Ok::<
                ((LoopFilterInfo, Seq<i8>, Seq<i8>), nat),
                ParserError,
            >(((info, final(rd)@, final(md)@), final(br).pos())),
            Err(e) => spec_loop_filter(old(rd)@, old(md)@, old(br).data@, old(br).pos()) == Err::<
                ((LoopFilterInfo, Seq<i8>, Seq<i8>), nat),
                ParserError,
            >(e),
        },
{
    proof {
        reveal(crate::header::spec_loop_filter);
    }
    let level = match br.read_u8(6) {
        Ok(v) => v,
        Err(e) => {
            return Err(e);
        },
    };
    let sharpness = match br.read_u8(3) {
        Ok(v) => v,
        Err(e) => {
            return Err(e);
        },
    };
    let delta_enabled = match br.read_bool() {
        Ok(v) => v,
        Err(e) => {
            return Err(e);
        },
    };
    let info = LoopFilterInfo { level, sharpness, delta_enabled };
    if delta_enabled {
        let update = match br.read_bool() {
            Ok(v) => v,
            Err(e) => {
                return Err(e);
            },
        };
        if update {
            match delta_updates(br, rd) {
                Ok(u) => u,
                Err(e) => {
                    return Err(e);
                },
            };
            match delta_updates(br, md) {
                Ok(u) => u,
                Err(e) => {
                    return Err(e);
                },
            };
        }
    }
    Ok(info)
}

/// The header fields settled between the frame type and the common tail.
struct HeaderFields {
    intra_only: bool,
    reset_frame_context: ResetFrameContext,
    refresh_frame_flags: u8,
    ref_frame_indices: [u8; 3],
    ref_frame_sign_bias: [bool; 4],
    allow_high_precision_mv: bool,
    interpolation_filter: InterpolationFilter,
    color: ColorInfo,
    size: SizeInfo,
    render_width: u16,
    render_height: u16,
}

impl HeaderFields {
    /// The mathematical content of these fields.
    spec fn model(&self) -> HeaderMid {
        HeaderMid {
            intra_only: self.intra_only,
            reset_frame_context: self.reset_frame_context,
            refresh_frame_flags: self.refresh_frame_flags,
            ref_frame_indices: self.ref_frame_indices@,
            ref_frame_sign_bias: self.ref_frame_sign_bias@,
            allow_high_precision_mv: self.allow_high_precision_mv,
            interpolation_filter: self.interpolation_filter,
            color: self.color,
            size: self.size,
            render_width: self.render_width,
            render_height: self.render_height,
        }
    }
}

/// Reads the profile field: two bits, low bit first, plus one reserved
/// bit after profile 3.
fn read_profile(br: &mut BitReader) -> (r: Result<Profile, ParserError>)
    requires
        old(br).wf(),
    ensures
        final(br).wf(),
        final(br).data == old(br).data,
        match r {
            Ok(p) => spec_profile(old(br).data@, old(br).pos()) == Ok::<
                (Profile, nat),
                ParserError,
            >((p, final(br).pos())),
            Err(e) => spec_profile(old(br).data@, old(br).pos()) == Err::<
                (Profile, nat),
                ParserError,
            >(e),
        },
{
    proof {
        reveal(crate::header::spec_profile);
    }
    let lo = match br.read_bool() {
        Ok(v) => v,
        Err(e) => {
            return Err(e);
        },
    };
    let hi = match br.read_bool() {
        Ok(v) => v,
        Err(e) => {
            return Err(e);
        },
    };
    let raw: u8 = (if hi {
        2
    } else {
        0
    }) + (if lo {
        1
    } else {
        0
    });
    let profile = Profile::from_u8(raw);
    if matches!(profile, Profile::Profile3) {
        match br.read_bool() {
            Ok(reserved) => Ok(profile),
            Err(e) => Err(e),
        }
    } else {
        Ok(profile)
    }
}

/// Reads the key frame part: sync code, color config, explicit sizes.
fn key_part(br: &mut BitReader, profile: Profile) -> (r: Result<HeaderFields, ParserError>)
    requires
        old(br).wf(),
    ensures
        final(br).wf(),
        final(br).data == old(br).data,
        match r {
            Ok(o) => spec_key_part(profile, old(br).data@, old(br).pos()) == Ok::<
                (HeaderMid, nat),
                ParserError,
            >((o.model(), final(br).pos())),
            Err(e) => spec_key_part(profile, old(br).data@, old(br).pos()) == Err::<
                (HeaderMid, nat),
                ParserError,
            >(e),
        },
{
    proof {
        reveal(crate::header::spec_key_part);
    }
    match frame_sync_code(br) {
        Ok(u) => u,
        Err(e) => {
            return Err(e);
        },
    };
    let color = match color_config(br, profile) {
        Ok(v) => v,
        Err(e) => {
            return Err(e);
        },
    };
    let size = match frame_size(br) {
        Ok(v) => v,
        Err(e) => {
            return Err(e);
        },
    };
    let render = match render_size(br, size.width, size.height) {
        Ok(v) => v,
        Err(e) => {
            return Err(e);
        },
    };
    let o = HeaderFields {
        intra_only: false,
        reset_frame_context: ResetFrameContext::No0,
        refresh_frame_flags: 0xFF,
        ref_frame_indices: [0u8, 0u8, 0u8],
        ref_frame_sign_bias: [false, false, false, false],
        allow_high_precision_mv: false,
        interpolation_filter: InterpolationFilter::Eighttap,
        color,
        size,
        render_width: render.0,
        render_height: render.1,
    };
    proof {
        assert(o.ref_frame_indices@ =~= seq![0u8, 0u8, 0u8]);
        assert(o.ref_frame_sign_bias@ =~= seq![false, false, false, false]);
    }
    Ok(o)
}

/// Reads the intra-only sub-syntax: sync code, color config for
/// profiles above 0, refresh flags, then explicit sizes.
fn intra_part(
    br: &mut BitReader,
    profile: Profile,
    reset_frame_context: ResetFrameContext,
) -> (r: Result<HeaderFields, ParserError>)
    requires
        old(br).wf(),
    ensures
        final(br).wf(),
        final(br).data == old(br).data,
        match r {
            Ok(o) => crate::header::spec_intra_part(
                profile,
                reset_frame_context,
                old(br).data@,
                old(br).pos(),
            ) == Ok::<(HeaderMid, nat), ParserError>((o.model(), final(br).pos())),
            Err(e) => crate::header::spec_intra_part(
                profile,
                reset_frame_context,
                old(br).data@,
                old(br).pos(),
            ) == Err::<(HeaderMid, nat), ParserError>(e),
        },
{
    proof {
        reveal(crate::header::spec_intra_part);
    }
    match frame_sync_code(br) {
        Ok(u) => u,
        Err(e) => {
            return Err(e);
        },
    };
    let color = if !matches!(profile, Profile::Profile0) {
        match color_config(br, profile) {
            Ok(v) => v,
            Err(e) => {
                return Err(e);
            },
        }
    } else {
        ColorInfo {
            color_depth: ColorDepth::Depth8,
            color_space: ColorSpace::Bt601,
            color_range: ColorRange::StudioSwing,
            subsampling_x: true,
            subsampling_y: true,
        }
    };
    let refresh_frame_flags = match br.read_u8(8) {
        Ok(v) => v,
        Err(e) => {
            return Err(e);
        },
    };
    let size = match frame_size(br) {
        Ok(v) => v,
        Err(e) => {
            return Err(e);
        },
    };
    let render = match render_size(br, size.width, size.height) {
        Ok(v) => v,
        Err(e) => {
            return Err(e);
        },
    };
    let o = HeaderFields {
        intra_only: true,
        reset_frame_context,
        refresh_frame_flags,
        ref_frame_indices: [0u8, 0u8, 0u8],
        ref_frame_sign_bias: [false, false, false, false],
        allow_high_precision_mv: false,
        interpolation_filter: InterpolationFilter::Eighttap,
        color,
        size,
        render_width: render.0,
        render_height: render.1,
    };
    proof {
        assert(o.ref_frame_indices@ =~= seq![0u8, 0u8, 0u8]);
        assert(o.ref_frame_sign_bias@ =~= seq![false, false, false, false]);
    }
    Ok(o)
}

/// Reads the inter sub-syntax: refresh flags, reference indices and
/// sign bias, sizes from references, motion vector precision and the
/// interpolation filter.
fn inter_part(
    br: &mut BitReader,
    reset_frame_context: ResetFrameContext,
    sizes: &[RefSize; 8],
) -> (r: Result<HeaderFields, ParserError>)
    requires
        old(br).wf(),
    ensures
        final(br).wf(),
        final(br).data == old(br).data,
        match r {
            Ok(o) => crate::header::spec_inter_part(
                sizes@,
                reset_frame_context,
                old(br).data@,
                old(br).pos(),
            ) == Ok::<(HeaderMid, nat), ParserError>((o.model(), final(br).pos())),
            Err(e) => crate::header::spec_inter_part(
                sizes@,
                reset_frame_context,
                old(br).data@,
                old(br).pos(),
            ) == Err::<(HeaderMid, nat), ParserError>(e),
        },
{
    proof {
        reveal(crate::header::spec_inter_part);
    }
    let refresh_frame_flags = match br.read_u8(8) {
        Ok(v) => v,
        Err(e) => {
            return Err(e);
        },
    };
    let ghost d = br.data@;
    let ghost q0 = br.pos();
    let i0 = match br.read_u8(3) {
        Ok(v) => v,
        Err(e) => {
            return Err(e);
        },
    };
    let b0 = match br.read_bool() {
        Ok(v) => v,
        Err(e) => {
            return Err(e);
        },
    };
    let ghost q1 = br.pos();
    let i1 = match br.read_u8(3) {
        Ok(v) => v,
        Err(e) => {
            return Err(e);
        },
    };
    let b1 = match br.read_bool() {
        Ok(v) => v,
        Err(e) => {
            return Err(e);
        },
    };
    let ghost q2 = br.pos();
    let i2 = match br.read_u8(3) {
        Ok(v) => v,
        Err(e) => {
            return Err(e);
        },
    };
    let b2 = match br.read_bool() {
        Ok(v) => v,
        Err(e) => {
            return Err(e);
        },
    };
    proof {
        crate::bits::lemma_bits_value_bound(d, q0, 3);
        crate::bits::lemma_bits_value_bound(d, q1, 3);
        crate::bits::lemma_bits_value_bound(d, q2, 3);
        crate::bits::lemma_pow2_values();
    }
    let ref_frame_indices = [i0, i1, i2];
    let ref_frame_sign_bias = [false, b0, b1, b2];
    proof {
        assert(ref_frame_indices@ =~= seq![i0, i1, i2]);
        assert(ref_frame_sign_bias@ =~= seq![false, b0, b1, b2]);
    }
    let size = match frame_size_with_refs(br, sizes, &ref_frame_indices) {
        Ok(v) => v,
        Err(e) => {
            return Err(e);
        },
    };
    let render = match render_size(br, size.width, size.height) {
        Ok(v) => v,
        Err(e) => {
            return Err(e);
        },
    };
    let allow_high_precision_mv = match br.read_bool() {
        Ok(v) => v,
        Err(e) => {
            return Err(e);
        },
    };
    let interpolation_filter = match read_interpolation_filter(br) {
        Ok(v) => v,
        Err(e) => {
            return Err(e);
        },
    };
    let o = HeaderFields {
        intra_only: false,
        reset_frame_context,
        refresh_frame_flags,
        ref_frame_indices,
        ref_frame_sign_bias,
        allow_high_precision_mv,
        interpolation_filter,
        color: ColorInfo {
            color_depth: ColorDepth::Depth8,
            color_space: ColorSpace::Unknown,
            color_range: ColorRange::StudioSwing,
            subsampling_x: true,
            subsampling_y: true,
        },
        size,
        render_width: render.0,
        render_height: render.1,
    };
    Ok(o)
}

/// Reads the non-key frame part: the intra-only and reset fields, then
/// the intra-only or inter sub-syntax.
fn nonkey_part(
    br: &mut BitReader,
    profile: Profile,
    show_frame: bool,
    error_resilient: bool,
    sizes: &[RefSize; 8],
) -> (r: Result<HeaderFields, ParserError>)
    requires
        old(br).wf(),
    ensures
        final(br).wf(),
        final(br).data == old(br).data,
        match r {
            Ok(o) => spec_nonkey_part(
                sizes@,
                profile,
                show_frame,
                error_resilient,
                old(br).data@,
                old(br).pos(),
            ) == Ok::<(HeaderMid, nat), ParserError>((o.model(), final(br).pos())),
            Err(e) => spec_nonkey_part(
                sizes@,
                profile,
                show_frame,
                error_resilient,
                old(br).data@,
                old(br).pos(),
            ) == Err::<(HeaderMid, nat), ParserError>(e),
        },
{
    proof {
        reveal(crate::header::spec_nonkey_part);
    }
    let intra_only = if show_frame {
        false
    } else {
        match br.read_bool() {
            Ok(v) => v,
            Err(e) => {
                return Err(e);
            },
        }
    };
    let reset_frame_context = if error_resilient {
        ResetFrameContext::No0
    } else {
        let rc = match br.read_u8(2) {
            Ok(v) => v,
            Err(e) => {
                return Err(e);
            },
        };
        ResetFrameContext::from_u8(rc)
    };
    if intra_only {
        intra_part(br, profile, reset_frame_context)
    } else {
        inter_part(br, reset_frame_context, sizes)
    }
}

/// Stores this frame's width and height in every reference slot whose
/// bit is set in `flags`.
fn refresh_ref_frames(sizes: &mut [RefSize; 8], flags: u8, width: u16, height: u16)
    ensures
        final(sizes)@ == refreshed_sizes(old(sizes)@, flags, width, height),
{
    let mut i: usize = 0;
    while i < 8
        invariant
            i <= 8,
            forall|j: int|
                0 <= j < i ==> sizes@[j] == refreshed_sizes(old(sizes)@, flags, width, height)[j],
            forall|j: int| i <= j < 8 ==> sizes@[j] == old(sizes)@[j],
        decreases 8 - i,
    {
        if (flags >> (i as u8)) & 1 == 1 {
            sizes[i] = RefSize { width, height };
        }
        i = i + 1;
    }
    proof {
        assert(sizes@ =~= refreshed_sizes(old(sizes)@, flags, width, height));
    }
}



/// Everything the common tail of the header settles.
struct TailOut {
    refresh_frame_context: bool,
    frame_parallel_decoding_mode: bool,
    frame_context_idx: u8,
    lf: LoopFilterInfo,
    rd: [i8; 4],
    md: [i8; 2],
    quant: QuantInfo,
    seg_flags: SegFlags,
    tree_probs: [u8; 7],
    pred_probs: [u8; 3],
    feature_active: [[bool; 4]; 8],
    feature_data: [[i16; 4]; 8],
    tile_cols_log2: u8,
    tile_rows_log2: u8,
    uncompressed_header_size: usize,
    compressed_header_size: usize,
    tile_size: usize,
}

impl TailOut {
    /// The segmentation part of these fields.
    spec fn seg_model(&self) -> SegModel {
        SegModel {
            flags: self.seg_flags,
            tree_probs: self.tree_probs@,
            pred_probs: self.pred_probs@,
            feature_active: active_rows(self.feature_active@),
            feature_data: data_rows(self.feature_data@),
        }
    }

    /// The frame descriptor these tail fields build, together with the
    /// values settled before the tail.
    spec fn frame_model(
        &self,
        s: StateModel,
        profile: Profile,
        frame_type: FrameType,
        show_frame: bool,
        error_resilient: bool,
        mid: HeaderMid,
        d: Seq<u8>,
    ) -> FrameModel {
        crate::header::tail_frame_model(
            s,
            profile,
            frame_type,
            show_frame,
            error_resilient,
            mid,
            self.refresh_frame_context,
            self.frame_parallel_decoding_mode,
            self.frame_context_idx,
            self.lf,
            self.rd@,
            self.md@,
            self.quant,
            self.seg_model(),
            self.tile_cols_log2,
            self.tile_rows_log2,
            self.compressed_header_size as nat,
            self.uncompressed_header_size as nat,
            self.tile_size as nat,
            d,
        )
    }

    /// The parser state after this frame.
    spec fn state_model(&self, s: StateModel, frame_type: FrameType, mid: HeaderMid) -> StateModel {
        crate::header::tail_state_model(s, frame_type, mid, self.rd@, self.md@)
    }
}

/// Reads the common tail of the header: context refresh flags, the
/// frame context index, the loop filter reset and parameters,
/// quantization, segmentation, tile geometry, the compressed header
/// size and the trailing bits.
#[verifier::rlimit(100)]
fn parse_tail(
    br: &mut BitReader,
    Ghost(s): Ghost<StateModel>,
    profile: Profile,
    frame_type: FrameType,
    show_frame: bool,
    error_resilient: bool,
    hf: &HeaderFields,
    state_rd: [i8; 4],
    state_md: [i8; 2],
) -> (r: Result<TailOut, ParserError>)
    requires
        old(br).wf(),
        s.loop_filter_ref_deltas == state_rd@,
        s.loop_filter_mode_deltas == state_md@,
    ensures
        final(br).wf(),
        final(br).data == old(br).data,
        match r {
            Ok(o) => crate::header::spec_parse_tail(
                s,
                profile,
                frame_type,
                show_frame,
                error_resilient,
                hf.model(),
                old(br).data@,
                old(br).pos(),
            ) == Ok::<(FrameModel, StateModel), ParserError>(
                (
                    o.frame_model(
                        s,
                        profile,
                        frame_type,
                        show_frame,
                        error_resilient,
                        hf.model(),
                        old(br).data@,
                    ),
                    o.state_model(s, frame_type, hf.model()),
                ),
            ),
            Err(e) => crate::header::spec_parse_tail(
                s,
                profile,
                frame_type,
                show_frame,
                error_resilient,
                hf.model(),
                old(br).data@,
                old(br).pos(),
            ) == Err::<(FrameModel, StateModel), ParserError>(e),
        },
{
    proof {
        reveal(crate::header::spec_parse_tail);
    }
    let (refresh_frame_context, frame_parallel_decoding_mode) = if !error_resilient {
        let rfc = match br.read_bool() {
            Ok(v) => v,
            Err(e) => {
                return Err(e);
            },
        };
        let fpdm = match br.read_bool() {
            Ok(v) => v,
            Err(e) => {
                return Err(e);
            },
        };
        (rfc, fpdm)
    } else {
        (false, false)
    };
    let ctx_raw = match br.read_u8(2) {
        Ok(v) => v,
        Err(e) => {
            return Err(e);
        },
    };
    let frame_context_idx: u8 = if hf.intra_only || error_resilient {
        0
    } else {
        ctx_raw
    };
    let reset_deltas = matches!(frame_type, FrameType::KeyFrame) || error_resilient
        || hf.intra_only;
    let mut rd: [i8; 4] = if reset_deltas {
        [1i8, 0i8, -1i8, -1i8]
    } else {
        state_rd
    };
    let mut md: [i8; 2] = if reset_deltas {
        [0i8, 0i8]
    } else {
        state_md
    };
    proof {
        if reset_deltas {
            assert(rd@ =~= seq![1i8, 0i8, -1i8, -1i8]);
            assert(md@ =~= seq![0i8, 0i8]);
        }
    }
    let lf = match loop_filter_params(br, &mut rd, &mut md) {
        Ok(v) => v,
        Err(e) => {
            return Err(e);
        },
    };
    let quant = match quantization_params(br) {
        Ok(v) => v,
        Err(e) => {
            return Err(e);
        },
    };
    let seg = match segmentation_params(br) {
        Ok(v) => v,
        Err(e) => {
            return Err(e);
        },
    };
    let tiles = match tile_info(br, hf.size.mi_cols) {
        Ok(v) => v,
        Err(e) => {
            return Err(e);
        },
    };
    let chs = match br.read_u16(16) {
        Ok(v) => v,
        Err(e) => {
            return Err(e);
        },
    };
    match trailing_bits(br) {
        Ok(u) => u,
        Err(e) => {
            return Err(e);
        },
    };
    let uncompressed_header_size = br.position_in_bytes();
    let size = br.data.len();
    let compressed_header_size = chs as usize;
    let tile_size: usize = if compressed_header_size <= size && uncompressed_header_size <= size
        - compressed_header_size {
        size - uncompressed_header_size - compressed_header_size
    } else {
        0
    };
    let out = TailOut {
        refresh_frame_context,
        frame_parallel_decoding_mode,
        frame_context_idx,
        lf,
        rd,
        md,
        quant,
        seg_flags: seg.0,
        tree_probs: seg.1,
        pred_probs: seg.2,
        feature_active: seg.3,
        feature_data: seg.4,
        tile_cols_log2: tiles.0,
        tile_rows_log2: tiles.1,
        uncompressed_header_size,
        compressed_header_size,
        tile_size,
    };
    Ok(out)
}

/// Builds the frame descriptor out of everything the header settled.
fn assemble_frame(
    data: Vec<u8>,
    Ghost(s): Ghost<StateModel>,
    last_frame_type: FrameType,
    profile: Profile,
    frame_type: FrameType,
    show_frame: bool,
    error_resilient: bool,
    hf: &HeaderFields,
    o: &TailOut,
) -> (f: Frame)
    requires
        last_frame_type == s.last_frame_type,
    ensures
        f@ == o.frame_model(s, profile, frame_type, show_frame, error_resilient, hf.model(), data@),
{
    let f = Frame {
        data,
        profile,
        show_existing_frame: false,
        frame_to_show_map_idx: None,
        last_frame_type,
        frame_type,
        show_frame,
        error_resilient_mode: error_resilient,
        intra_only: hf.intra_only,
        reset_frame_context: hf.reset_frame_context,
        ref_frame_indices: hf.ref_frame_indices,
        ref_frame_sign_bias: hf.ref_frame_sign_bias,
        allow_high_precision_mv: hf.allow_high_precision_mv,
        refresh_frame_context: o.refresh_frame_context,
        refresh_frame_flags: hf.refresh_frame_flags,
        frame_parallel_decoding_mode: o.frame_parallel_decoding_mode,
        frame_context_idx: o.frame_context_idx,
        uncompressed_header_size: o.uncompressed_header_size,
        compressed_header_size: o.compressed_header_size,
        tile_size: o.tile_size,
        color_depth: hf.color.color_depth,
        color_space: hf.color.color_space,
        color_range: hf.color.color_range,
        subsampling_x: hf.color.subsampling_x,
        subsampling_y: hf.color.subsampling_y,
        width: hf.size.width,
        height: hf.size.height,
        render_width: hf.render_width,
        render_height: hf.render_height,
        mi_cols: hf.size.mi_cols,
        mi_rows: hf.size.mi_rows,
        tile_rows_log2: o.tile_rows_log2,
        tile_cols_log2: o.tile_cols_log2,
        interpolation_filter: hf.interpolation_filter,
        loop_filter_level: o.lf.level,
        loop_filter_sharpness: o.lf.sharpness,
        loop_filter_delta_enabled: o.lf.delta_enabled,
        update_ref_delta: false,
        loop_filter_ref_deltas: o.rd,
        update_mode_delta: false,
        loop_filter_mode_deltas: o.md,
        base_q_idx: o.quant.base_q_idx,
        delta_q_y_dc: o.quant.delta_q_y_dc,
        delta_q_uv_dc: o.quant.delta_q_uv_dc,
        delta_q_uv_ac: o.quant.delta_q_uv_ac,
        lossless: o.quant.lossless,
        segmentation_enabled: o.seg_flags.enabled,
        segmentation_update_map: o.seg_flags.update_map,
        segment_tree_probs: o.tree_probs,
        segment_pred_probs: o.pred_probs,
        segmentation_temporal_update: o.seg_flags.temporal_update,
        segmentation_update_data: o.seg_flags.update_data,
        segmentation_abs_or_delta_update: o.seg_flags.abs_or_delta_update,
        segment_feature_active: o.feature_active,
        segment_feature_data: o.feature_data,
    };
    proof {
        assert(f@ =~~= o.frame_model(
            s,
            profile,
            frame_type,
            show_frame,
            error_resilient,
            hf.model(),
            f.data@,
        )) by {
            reveal(crate::header::tail_frame_model);
        }
    }
    f
}

impl Vp9Parser {
    /// Commits what a parsed frame leaves behind: the frame type, the
    /// refreshed reference slot sizes and the loop filter deltas.
    fn commit_state(
        &mut self,
        Ghost(s): Ghost<StateModel>,
        frame_type: FrameType,
        hf: &HeaderFields,
        o: &TailOut,
    )
        requires
            old(self)@ == s,
        ensures
            final(self)@ == o.state_model(s, frame_type, hf.model()),
    {
        self.last_frame_type = frame_type;
        self.loop_filter_ref_deltas = o.rd;
        self.loop_filter_mode_deltas = o.md;
        refresh_ref_frames(
            &mut self.ref_frame_sizes,
            hf.refresh_frame_flags,
            hf.size.width,
            hf.size.height,
        );
        proof {
            assert(self@ =~~= o.state_model(s, frame_type, hf.model())) by {
                reveal(crate::header::tail_state_model);
            }
        }
    }
}

impl Vp9Parser {
    /// Parses one frame payload against the current state: the frame
    /// descriptor it yields and the state after it, exactly as
    /// `spec_parse_frame` describes.  An error leaves the state
    /// unchanged.
    #[verifier::rlimit(100)]
    fn parse_vp9_frame(&mut self, data: Vec<u8>) -> (r: Result<Frame, ParserError>)
        ensures
            match spec_parse_frame(old(self)@, data@) {
                Ok(fs) => r is Ok && r->Ok_0@ == fs.0 && final(self)@ == fs.1,
                Err(e) => r is Err && r->Err_0 == e && final(self)@ == old(self)@,
            },
    {
        proof {
            reveal(crate::header::spec_parse_frame);
            reveal(crate::header::spec_parse_rest);
        }

        let ghost s0 = self@;
        let ghost d = data@;
        let mut br = BitReader::new(data.as_slice());
        let marker = match br.read_u8(2) {
            Ok(v) => v,
            Err(e) => {
                return Err(e);
            },
        };
        if marker != 2 {
            return Err(ParserError::InvalidFrameMarker);
        }
        let profile = match read_profile(&mut br) {
            Ok(v) => v,
            Err(e) => {
                return Err(e);
            },
        };
        let show_existing = match br.read_bool() {
            Ok(v) => v,
            Err(e) => {
                return Err(e);
            },
        };
        if show_existing {
            let idx = match br.read_u8(3) {
                Ok(v) => v,
                Err(e) => {
                    return Err(e);
                },
            };
            let mut f = Frame::new(Vec::new());
            f.profile = profile;
            f.show_existing_frame = true;
            f.frame_to_show_map_idx = Some(idx);
            proof {
                assert(f@ =~~= show_existing_frame_model(profile, idx)) by {
                    reveal(crate::header::base_frame_model);
                    reveal(crate::header::show_existing_frame_model);
                }
            }
            return Ok(f);
        }
        let type_bit = match br.read_bool() {
            Ok(v) => v,
            Err(e) => {
                return Err(e);
            },
        };
        let show_frame = match br.read_bool() {
            Ok(v) => v,
            Err(e) => {
                return Err(e);
            },
        };
        let error_resilient = match br.read_bool() {
            Ok(v) => v,
            Err(e) => {
                return Err(e);
            },
        };
        let frame_type = FrameType::from_bool(type_bit);
        let hf = if matches!(frame_type, FrameType::KeyFrame) {
            match key_part(&mut br, profile) {
                Ok(v) => v,
                Err(e) => {
                    return Err(e);
                },
            }
        } else {
            match nonkey_part(
                &mut br,
                profile,
                show_frame,
                error_resilient,
                &self.ref_frame_sizes,
            ) {
                Ok(v) => v,
                Err(e) => {
                    return Err(e);
                },
            }
        };
        let o = match parse_tail(
            &mut br,
            Ghost(s0),
            profile,
            frame_type,
            show_frame,
            error_resilient,
            &hf,
            self.loop_filter_ref_deltas,
            self.loop_filter_mode_deltas,
        ) {
            Ok(v) => v,
            Err(e) => {
                return Err(e);
            },
        };
        let last_frame_type = self.last_frame_type;
        let f = assemble_frame(
            data,
            Ghost(s0),
            last_frame_type,
            profile,
            frame_type,
            show_frame,
            error_resilient,
            &hf,
            &o,
        );
        self.commit_state(Ghost(s0), frame_type, &hf, &o);
        proof {
            let pr = spec_parse_frame(s0, d);
            assert(pr is Ok);
        }
        Ok(f)
    }
}


/// One frame after another out of a superframe packet: size entry `i`
/// of the index is read, then the payload bytes it selects are parsed,
/// with both the selected range and the running offset clamped to the
/// packet length.  The state keeps the updates of the frames parsed
/// before an error.
pub open spec fn spec_parse_super(s: StateModel, d: Seq<u8>, i: nat, off: nat) -> (Result<
    Seq<FrameModel>,
    ParserError,
>, StateModel)
    recommends
        off <= d.len(),
    decreases frame_count(d.last()) - i,
{
    if i >= frame_count(d.last()) {
        (Ok(Seq::empty()), s)
    } else {
        let sz = frame_size_entry(d, i);
        if sz > usize::MAX {
            (Err(ParserError::NumericRange), s)
        } else {
            let hi = if off + sz <= d.len() {
                (off + sz) as nat
            } else {
                d.len()
            };
            match spec_parse_frame(s, d.subrange(off as int, hi as int)) {
                Err(e) => (Err(e), s),
                Ok((f, s1)) => {
                    let (r2, s2) = spec_parse_super(s1, d, i + 1, hi);
                    (
                        match r2 {
                            Ok(fs) => Ok(seq![f] + fs),
                            Err(e) => Err(e),
                        },
                        s2,
                    )
                },
            }
        }
    }
}

/// A whole packet against the current parser state: the frames it
/// yields and the state after them.  An empty packet yields no frames;
/// a packet with a superframe index is split by the index; any other
/// packet is a single frame.
pub open spec fn spec_parse_packet(s: StateModel, d: Seq<u8>) -> (Result<
    Seq<FrameModel>,
    ParserError,
>, StateModel) {
    if d.len() == 0 {
        (Ok(Seq::empty()), s)
    } else if has_superframe_index(d) {
        spec_parse_super(s, d, 0, 0)
    } else {
        match spec_parse_frame(s, d) {
            Err(e) => (Err(e), s),
            Ok((f, s1)) => (Ok(seq![f]), s1),
        }
    }
}

impl Vp9Parser {
    /// Parses a VP9 bitstream packet and returns the encoded frames.
    ///
    /// Packets need to be supplied in the order they appear in the
    /// bitstream.  The caller needs to reset the parser if the
    /// bitstream changed or a seek happened.  An empty packet yields no
    /// frames; a packet ending in a valid superframe index is split
    /// into the frames the index announces; any other packet is one
    /// frame.  On an error the state keeps only the updates of the
    /// frames parsed before it and the packet must be treated as not
    /// consumed.
    #[verifier::rlimit(100)]
    pub fn parse_vp9_packet(&mut self, packet: Vec<u8>) -> (r: Result<Vec<Frame>, ParserError>)
        ensures
            ({
                let (res, s2) = spec_parse_packet(old(self)@, packet@);
                &&& final(self)@ == s2
                &&& match res {
                    Ok(fs) => r is Ok && frame_models(r->Ok_0@) == fs,
                    Err(e) => r is Err && r->Err_0 == e,
                }
            }),
            packet@.len() == 0 ==> r is Ok && r->Ok_0@.len() == 0 && final(self)@ == old(self)@,
    {
        let ghost s0 = self@;
        let ghost d = packet@;
        let len = packet.len();
        if len == 0 {
            let frames: Vec<Frame> = Vec::new();
            proof {
                assert(frame_models(frames@) =~= Seq::<FrameModel>::empty());
            }
            return Ok(frames);
        }
        let last = packet[len - 1];
        let is_super = if last & 0xE0 == 0xC0 {
            proof {
                lemma_marker_fields(last);
            }
            let bytes_size = (((last & 0b11000) >> 3) + 1) as usize;
            let fc = ((last & 0b111) + 1) as usize;
            let index_size = 2 + fc * bytes_size;
            index_size <= len && packet[len - index_size] == last
        } else {
            false
        };
        proof {
            assert(d.last() == last);
            if last & 0xE0 == 0xC0 {
                lemma_marker_fields(last);
            }
            assert(is_super == has_superframe_index(d));
        }
        if !is_super {
            let frame = match self.parse_vp9_frame(packet) {
                Ok(v) => v,
                Err(e) => {
                    return Err(e);
                },
            };
            let mut frames: Vec<Frame> = Vec::new();
            frames.push(frame);
            proof {
                assert(frame_models(frames@) =~= seq![frame@]);
            }
            return Ok(frames);
        }
        proof {
            lemma_marker_fields(last);
        }
        let bytes_size = (((last & 0b11000) >> 3) + 1) as usize;
        let fc = ((last & 0b111) + 1) as usize;
        let index_size = 2 + fc * bytes_size;
        let entry_start = len - index_size + 1;
        let entries = vstd::slice::slice_subrange(
            packet.as_slice(),
            entry_start,
            entry_start + fc * bytes_size,
        );
        let mut frames: Vec<Frame> = Vec::new();
        let mut off: usize = 0;
        let mut i: usize = 0;
        while i < fc
            invariant
                i <= fc,
                off <= len,
                len == d.len(),
                d == packet@,
                s0 == old(self)@,
                has_superframe_index(d),
                d.last() == last,
                fc == frame_count(last),
                bytes_size == bytes_per_framesize(last),
                index_size == crate::superframe::index_size(last),
                entry_start == len - index_size + 1,
                entries@ == d.subrange(entry_start as int, entry_start + fc * bytes_size),
                ({
                    let (rr, ss) = spec_parse_super(self@, d, i as nat, off as nat);
                    let (rf, sf) = spec_parse_super(s0, d, 0, 0);
                    &&& sf == ss
                    &&& rf == (match rr {
                        Ok(fs) => Ok::<Seq<FrameModel>, ParserError>(
                            frame_models(frames@) + fs,
                        ),
                        Err(e) => Err::<Seq<FrameModel>, ParserError>(e),
                    })
                }),
            decreases fc - i,
        {
            let ghost s_here = self@;
            let ghost frames_before = frames@;
            proof {
                assert((i + 1) * bytes_size <= fc * bytes_size) by (nonlinear_arith)
                    requires
                        i + 1 <= fc && bytes_size >= 0,
                ;
                assert(i * bytes_size >= 0) by (nonlinear_arith)
                    requires
                        i >= 0 && bytes_size >= 0,
                ;
            }
            let sz = match read_frame_size(entries, bytes_size, i) {
                Ok(v) => v,
                Err(e) => {
                    proof {
                        lemma_marker_fields(last);
                        lemma_entry_is_frame_size(d, i as nat);
                    }
                    return Err(e);
                },
            };
            proof {
                lemma_entry_is_frame_size(d, i as nat);
                assert(sz as nat == frame_size_entry(d, i as nat));
            }
            let hi = if sz <= len - off {
                off + sz
            } else {
                len
            };
            let payload = vstd::slice::slice_to_vec(
                vstd::slice::slice_subrange(packet.as_slice(), off, hi),
            );
            let frame = match self.parse_vp9_frame(payload) {
                Ok(v) => v,
                Err(e) => {
                    return Err(e);
                },
            };
            frames.push(frame);
            proof {
                assert(frame_models(frames@) =~= frame_models(frames_before) + seq![frame@]);
                let (r_next, s_next) = spec_parse_super(self@, d, (i + 1) as nat, hi as nat);
                match r_next {
                    Ok(fs) => {
                        assert((frame_models(frames_before) + (seq![frame@] + fs)) =~= (
                        frame_models(frames@) + fs));
                    },
                    Err(e) => {},
                }
            }
            off = hi;
            i = i + 1;
        }
        proof {
            assert(frame_models(frames@) + Seq::<FrameModel>::empty() =~= frame_models(frames@));
        }
        Ok(frames)
    }
}


/// A packet whose superframe index announces a single frame is a valid
/// single-frame superframe: exactly the one indexed payload is parsed.
/// The marker byte of such an index lies in 0xC0..=0xDF with its low
/// three bits clear.
pub proof fn lemma_single_frame_superframe(s: StateModel, d: Seq<u8>)
    requires
        has_superframe_index(d),
        frame_count(d.last()) == 1,
        frame_size_entry(d, 0) <= usize::MAX,
    ensures
        ({
            let hi = if frame_size_entry(d, 0) <= d.len() {
                frame_size_entry(d, 0) as int
            } else {
                d.len() as int
            };
            let (res, s2) = spec_parse_packet(s, d);
            match spec_parse_frame(s, d.subrange(0, hi)) {
                Ok(fs) => res == Ok::<Seq<FrameModel>, ParserError>(seq![fs.0]) && s2 == fs.1,
                Err(e) => res == Err::<Seq<FrameModel>, ParserError>(e) && s2 == s,
            }
        }),
{
    let szn = frame_size_entry(d, 0);
    let hi_n: nat = if 0 + szn <= d.len() {
        (0 + szn) as nat
    } else {
        d.len()
    };
    let hi = if frame_size_entry(d, 0) <= d.len() {
        frame_size_entry(d, 0) as int
    } else {
        d.len() as int
    };
    assert(hi == hi_n as int);
    match spec_parse_frame(s, d.subrange(0, hi)) {
        Ok(fs) => {
            assert(spec_parse_super(fs.1, d, 1, hi_n) == (
                Ok::<Seq<FrameModel>, ParserError>(Seq::empty()),
                fs.1,
            ));
            assert(seq![fs.0] + Seq::<FrameModel>::empty() =~= seq![fs.0]);
        },
        Err(e) => {},
    }
}

/// A packet whose final byte looks like a superframe marker, but whose
/// first index byte does not repeat it or whose index would not fit,
/// is parsed as one ordinary frame.
pub proof fn lemma_marker_lookalike_is_single_frame(s: StateModel, d: Seq<u8>)
    requires
        d.len() >= 1,
        is_superframe_marker(d.last()),
        crate::superframe::index_size(d.last()) <= d.len() ==> d[d.len()
            - crate::superframe::index_size(d.last())] != d.last(),
    ensures
        ({
            let (res, s2) = spec_parse_packet(s, d);
            match spec_parse_frame(s, d) {
                Ok(fs) => res == Ok::<Seq<FrameModel>, ParserError>(seq![fs.0]) && s2 == fs.1,
                Err(e) => res == Err::<Seq<FrameModel>, ParserError>(e) && s2 == s,
            }
        }),
{
}

} // verus!
