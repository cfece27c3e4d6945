use vp9_parser::{FrameType, Vp9Parser};

/// Writes big-endian bit fields into a byte vector, most significant
/// bit of each byte first.
struct Writer {
    bytes: Vec<u8>,
    used: u8,
}

impl Writer {
    fn new() -> Self {
        Writer {
            bytes: Vec::new(),
            used: 0,
        }
    }

    fn push(&mut self, value: u64, n: u8) {
        let mut i = n;
        while i > 0 {
            i -= 1;
            let bit = ((value >> i) & 1) as u8;
            if self.used == 0 {
                self.bytes.push(0);
            }
            let last = self.bytes.len() - 1;
            self.bytes[last] |= bit << (7 - self.used);
            self.used = (self.used + 1) % 8;
        }
    }

    fn take(self) -> Vec<u8> {
        self.bytes
    }
}

/// A key frame that exercises the loop filter delta updates, the
/// quantizer deltas and the full segmentation syntax.
fn rich_key_frame_packet() -> Vec<u8> {
    let mut w = Writer::new();
    w.push(2, 2); // frame_marker
    w.push(0, 2); // profile 0 (low bit then high bit)
    w.push(0, 1); // show_existing_frame
    w.push(0, 1); // frame_type: key frame
    w.push(1, 1); // show_frame
    w.push(0, 1); // error_resilient_mode
    w.push(0x49, 8); // sync bytes
    w.push(0x83, 8);
    w.push(0x42, 8);
    w.push(1, 3); // color_space: BT.601
    w.push(0, 1); // color_range
    w.push(63, 16); // width 64
    w.push(63, 16); // height 64
    w.push(0, 1); // render size same as frame size
    w.push(0, 1); // refresh_frame_context
    w.push(0, 1); // frame_parallel_decoding_mode
    w.push(0, 2); // frame_context_idx
    // Loop filter: level 31, sharpness 5, deltas enabled and updated.
    w.push(31, 6);
    w.push(5, 3);
    w.push(1, 1); // delta enabled
    w.push(1, 1); // delta update
    w.push(1, 1); // update ref delta 0
    w.push(3, 6); // magnitude 3
    w.push(1, 1); // sign: negative
    w.push(0, 1); // keep ref delta 1
    w.push(1, 1); // update ref delta 2
    w.push(2, 6); // magnitude 2
    w.push(0, 1); // sign: positive
    w.push(0, 1); // keep ref delta 3
    w.push(1, 1); // update mode delta 0
    w.push(1, 6); // magnitude 1
    w.push(0, 1); // sign: positive
    w.push(0, 1); // keep mode delta 1
    // Quantization: base 0, y_dc delta -5, others uncoded.
    w.push(0, 8);
    w.push(1, 1); // delta_q_y_dc coded
    w.push(5, 4); // magnitude 5
    w.push(1, 1); // sign: negative
    w.push(0, 1); // delta_q_uv_dc coded
    w.push(0, 1); // delta_q_uv_ac coded
    // Segmentation: everything on.
    w.push(1, 1); // enabled
    w.push(1, 1); // update map
    w.push(1, 1); // tree prob 0 coded
    w.push(200, 8);
    w.push(0, 1); // tree prob 1 defaults to 255
    w.push(1, 1); // tree prob 2 coded
    w.push(34, 8);
    w.push(0, 1); // tree prob 3
    w.push(0, 1); // tree prob 4
    w.push(1, 1); // tree prob 5 coded
    w.push(1, 8);
    w.push(0, 1); // tree prob 6
    w.push(1, 1); // temporal update
    w.push(0, 1); // pred prob 0 defaults to 255
    w.push(1, 1); // pred prob 1 coded
    w.push(77, 8);
    w.push(0, 1); // pred prob 2
    w.push(1, 1); // update data
    w.push(1, 1); // absolute values
    // Segment 0: ALT_Q -100, REF_FRAME 2, SKIP active.
    w.push(1, 1);
    w.push(100, 8);
    w.push(1, 1); // sign: negative
    w.push(0, 1); // ALT_L inactive
    w.push(1, 1);
    w.push(2, 2);
    w.push(0, 1); // sign: positive
    w.push(1, 1); // SKIP active
    // Segments 1..=7: all features inactive.
    for _ in 1..8 {
        w.push(0, 4);
    }
    w.push(0, 1); // tile_rows_log2
    w.push(0, 16); // compressed header size 0
    // Pad to the byte boundary with zero bits.
    let used = w.used;
    if used != 0 {
        w.push(0, 8 - used);
    }
    w.take()
}

#[test]
fn loop_filter_and_segmentation_fields_parse_exactly() {
    let packet = rich_key_frame_packet();
    let packet_len = packet.len();
    let mut parser = Vp9Parser::new();
    let frames = parser.parse_vp9_packet(packet).unwrap();
    assert_eq!(frames.len(), 1);
    let f = &frames[0];
    assert_eq!(f.frame_type(), FrameType::KeyFrame);
    assert_eq!(f.width(), 64);
    assert_eq!(f.height(), 64);
    assert_eq!(f.mi_cols(), 8);
    assert_eq!(f.mi_rows(), 8);

    assert_eq!(f.loop_filter_level(), 31);
    assert_eq!(f.loop_filter_sharpness(), 5);
    assert!(f.loop_filter_delta_enabled());
    // Key frame deltas start from (1, 0, -1, -1) and (0, 0), then the
    // coded updates land on entries 0 and 2, and mode entry 0.
    assert_eq!(f.loop_filter_ref_deltas(), &[-3, 0, 2, -1]);
    assert_eq!(f.loop_filter_mode_deltas(), &[1, 0]);

    assert_eq!(f.base_q_idx(), 0);
    assert_eq!(f.delta_q_y_dc(), -5);
    assert_eq!(f.delta_q_uv_dc(), 0);
    assert_eq!(f.delta_q_uv_ac(), 0);
    assert!(!f.lossless());

    assert!(f.segmentation_enabled());
    assert!(f.segmentation_update_map());
    assert!(f.segmentation_temporal_update());
    assert!(f.segmentation_update_data());
    assert!(f.segmentation_abs_or_delta_update());
    assert_eq!(f.segment_tree_probs(), &[200, 255, 34, 255, 255, 1, 255]);
    assert_eq!(f.segment_pred_probs(), &[255, 77, 255]);
    assert_eq!(f.segment_feature_active()[0], [true, false, true, true]);
    assert_eq!(f.segment_feature_data()[0], [-100, 0, 2, 0]);
    for i in 1..8 {
        assert_eq!(f.segment_feature_active()[i], [false; 4]);
        assert_eq!(f.segment_feature_data()[i], [0; 4]);
    }

    assert_eq!(f.compressed_header_size(), 0);
    assert_eq!(f.uncompressed_header_size(), packet_len);
    assert_eq!(f.tile_size(), 0);
    assert!(f.tile_data().is_empty());
}

#[test]
fn all_zero_quantizers_mean_lossless() {
    let mut w = Writer::new();
    w.push(2, 2);
    w.push(0, 2);
    w.push(0, 1);
    w.push(0, 1);
    w.push(1, 1);
    w.push(0, 1);
    w.push(0x49, 8);
    w.push(0x83, 8);
    w.push(0x42, 8);
    w.push(1, 3);
    w.push(0, 1);
    w.push(63, 16);
    w.push(63, 16);
    w.push(0, 1);
    w.push(0, 1);
    w.push(0, 1);
    w.push(0, 2);
    w.push(0, 10); // loop filter level, sharpness, delta flag
    w.push(0, 8); // base_q_idx 0
    w.push(0, 3); // three uncoded deltas
    w.push(0, 1); // segmentation
    w.push(0, 1); // tile_rows_log2
    w.push(0, 16); // compressed header size
    let used = w.used;
    if used != 0 {
        w.push(0, 8 - used);
    }
    let packet = w.take();
    let mut parser = Vp9Parser::new();
    let frames = parser.parse_vp9_packet(packet).unwrap();
    assert!(frames[0].lossless());
}

#[test]
fn profile_two_rgb_color_config() {
    let mut w = Writer::new();
    w.push(2, 2); // frame_marker
    w.push(0, 1); // profile low bit
    w.push(1, 1); // profile high bit: profile 2
    w.push(0, 1); // show_existing_frame
    w.push(0, 1); // frame_type: key frame
    w.push(1, 1); // show_frame
    w.push(0, 1); // error_resilient_mode
    w.push(0x49, 8);
    w.push(0x83, 8);
    w.push(0x42, 8);
    w.push(0, 1); // ten_or_twelve: 10 bit
    w.push(7, 3); // color_space: sRGB
    // sRGB below profile 1/3 reads no range and no subsampling bits.
    w.push(63, 16);
    w.push(63, 16);
    w.push(0, 1); // render size same as frame size
    w.push(0, 1);
    w.push(0, 1);
    w.push(0, 2);
    w.push(0, 10);
    w.push(0, 8);
    w.push(0, 3);
    w.push(0, 1);
    w.push(0, 1);
    w.push(0, 16);
    let used = w.used;
    if used != 0 {
        w.push(0, 8 - used);
    }
    let mut parser = Vp9Parser::new();
    let frames = parser.parse_vp9_packet(w.take()).unwrap();
    let f = &frames[0];
    assert_eq!(f.profile(), vp9_parser::Profile::Profile2);
    assert_eq!(f.color_depth(), vp9_parser::ColorDepth::Depth10);
    assert_eq!(f.color_space(), vp9_parser::ColorSpace::Rgb);
    assert_eq!(f.color_range(), vp9_parser::ColorRange::FullSwing);
    assert!(f.subsampling_x());
    assert!(f.subsampling_y());
}

#[test]
fn profile_three_explicit_subsampling() {
    let mut w = Writer::new();
    w.push(2, 2); // frame_marker
    w.push(1, 1); // profile low bit
    w.push(1, 1); // profile high bit: profile 3
    w.push(0, 1); // reserved bit after profile 3
    w.push(0, 1); // show_existing_frame
    w.push(0, 1); // frame_type: key frame
    w.push(1, 1); // show_frame
    w.push(0, 1); // error_resilient_mode
    w.push(0x49, 8);
    w.push(0x83, 8);
    w.push(0x42, 8);
    w.push(1, 1); // ten_or_twelve: 12 bit
    w.push(2, 3); // color_space: BT.709
    w.push(1, 1); // color_range: full swing
    w.push(0, 1); // subsampling_x
    w.push(0, 1); // subsampling_y
    w.push(0, 1); // reserved
    w.push(63, 16);
    w.push(63, 16);
    w.push(0, 1);
    w.push(0, 1);
    w.push(0, 1);
    w.push(0, 2);
    w.push(0, 10);
    w.push(0, 8);
    w.push(0, 3);
    w.push(0, 1);
    w.push(0, 1);
    w.push(0, 16);
    let used = w.used;
    if used != 0 {
        w.push(0, 8 - used);
    }
    let mut parser = Vp9Parser::new();
    let frames = parser.parse_vp9_packet(w.take()).unwrap();
    let f = &frames[0];
    assert_eq!(f.profile(), vp9_parser::Profile::Profile3);
    assert_eq!(f.color_depth(), vp9_parser::ColorDepth::Depth12);
    assert_eq!(f.color_space(), vp9_parser::ColorSpace::Bt709);
    assert_eq!(f.color_range(), vp9_parser::ColorRange::FullSwing);
    assert!(!f.subsampling_x());
    assert!(!f.subsampling_y());
    assert_eq!(f.subsampling(), vp9_parser::Subsampling::Yuv444);
}

/// An intra-only frame of profile 0: forced BT.601 color, an explicit
/// refresh bitmap and size, and a frame context index forced to zero.
fn intra_only_packet() -> Vec<u8> {
    let mut w = Writer::new();
    w.push(2, 2); // frame_marker
    w.push(0, 2); // profile 0
    w.push(0, 1); // show_existing_frame
    w.push(1, 1); // frame_type: non key frame
    w.push(0, 1); // show_frame: hidden
    w.push(0, 1); // error_resilient_mode
    w.push(1, 1); // intra_only
    w.push(1, 2); // reset_frame_context: No1
    w.push(0x49, 8);
    w.push(0x83, 8);
    w.push(0x42, 8);
    // Profile 0 forces the color configuration; nothing is read.
    w.push(0x0C, 8); // refresh_frame_flags: slots 2 and 3
    w.push(63, 16); // width 64
    w.push(63, 16); // height 64
    w.push(0, 1); // render size same as frame size
    w.push(0, 1); // refresh_frame_context
    w.push(0, 1); // frame_parallel_decoding_mode
    w.push(3, 2); // frame_context_idx: read but forced to 0
    w.push(0, 10);
    w.push(0, 8);
    w.push(0, 3);
    w.push(0, 1);
    w.push(0, 1);
    w.push(0, 16);
    let used = w.used;
    if used != 0 {
        w.push(0, 8 - used);
    }
    w.take()
}

#[test]
fn intra_only_frame_forces_color_and_context() {
    let mut parser = Vp9Parser::new();
    let frames = parser.parse_vp9_packet(intra_only_packet()).unwrap();
    let f = &frames[0];
    assert_eq!(f.frame_type(), FrameType::NonKeyFrame);
    assert!(f.intra_only());
    assert!(!f.show_frame());
    assert_eq!(
        f.reset_frame_context(),
        vp9_parser::ResetFrameContext::No1
    );
    assert_eq!(f.refresh_frame_flags(), 0x0C);
    assert_eq!(f.color_space(), vp9_parser::ColorSpace::Bt601);
    assert_eq!(f.color_depth(), vp9_parser::ColorDepth::Depth8);
    assert!(f.subsampling_x());
    assert!(f.subsampling_y());
    assert_eq!(f.frame_context_idx(), 0);
    assert_eq!(f.width(), 64);
    assert_eq!(f.height(), 64);
}

#[test]
fn intra_only_frame_refreshes_the_flagged_slots() {
    let mut parser = Vp9Parser::new();
    parser.parse_vp9_packet(intra_only_packet()).unwrap();

    // An inter frame that takes its size from slot 2, which the
    // intra-only frame has just filled with 64x64.
    let mut w = Writer::new();
    w.push(2, 2);
    w.push(0, 2);
    w.push(0, 1); // show_existing_frame
    w.push(1, 1); // non key frame
    w.push(1, 1); // show_frame
    w.push(0, 1); // error_resilient_mode
    w.push(0, 2); // reset_frame_context
    w.push(0, 8); // refresh_frame_flags
    w.push(2, 3); // ref index LAST: slot 2
    w.push(0, 1);
    w.push(0, 3);
    w.push(0, 1);
    w.push(0, 3);
    w.push(0, 1);
    w.push(1, 1); // size from first reference
    w.push(0, 1); // render size same as frame size
    w.push(0, 1); // allow_high_precision_mv
    w.push(1, 1); // switchable filter
    w.push(0, 1);
    w.push(0, 1);
    w.push(0, 2);
    w.push(0, 10);
    w.push(0, 8);
    w.push(0, 3);
    w.push(0, 1);
    w.push(0, 1);
    w.push(0, 16);
    let used = w.used;
    if used != 0 {
        w.push(0, 8 - used);
    }
    let frames = parser.parse_vp9_packet(w.take()).unwrap();
    assert_eq!(frames[0].width(), 64);
    assert_eq!(frames[0].height(), 64);
    assert_eq!(frames[0].last_frame_type(), FrameType::NonKeyFrame);
}

#[test]
fn error_resilient_frame_skips_context_syntax() {
    let mut parser = Vp9Parser::new();
    parser.parse_vp9_packet(intra_only_packet()).unwrap();

    let mut w = Writer::new();
    w.push(2, 2);
    w.push(0, 2);
    w.push(0, 1); // show_existing_frame
    w.push(1, 1); // non key frame
    w.push(1, 1); // show_frame
    w.push(1, 1); // error_resilient_mode: reset context not read
    w.push(0, 8); // refresh_frame_flags
    w.push(2, 3); // ref index LAST: slot 2
    w.push(0, 1);
    w.push(0, 3);
    w.push(0, 1);
    w.push(0, 3);
    w.push(0, 1);
    w.push(1, 1); // size from first reference
    w.push(0, 1); // render size same as frame size
    w.push(0, 1); // allow_high_precision_mv
    w.push(1, 1); // switchable filter
    // refresh_frame_context and frame_parallel_decoding_mode not read.
    w.push(3, 2); // frame_context_idx: read but forced to 0
    w.push(0, 10);
    w.push(0, 8);
    w.push(0, 3);
    w.push(0, 1);
    w.push(0, 1);
    w.push(0, 16);
    let used = w.used;
    if used != 0 {
        w.push(0, 8 - used);
    }
    let frames = parser.parse_vp9_packet(w.take()).unwrap();
    let f = &frames[0];
    assert!(f.error_resilient_mode());
    assert_eq!(
        f.reset_frame_context(),
        vp9_parser::ResetFrameContext::No0
    );
    assert!(!f.refresh_frame_context());
    assert!(!f.frame_parallel_decoding_mode());
    assert_eq!(f.frame_context_idx(), 0);
    assert_eq!(f.width(), 64);
}
