use vp9_parser::{
    ColorDepth, ColorRange, ColorSpace, FrameType, InterpolationFilter, Level, Metadata,
    MetadataSubsampling, ParserError, Profile, ResetFrameContext, Subsampling, Vp9Parser,
};

/// Writes big-endian bit fields into a byte vector, most significant
/// bit of each byte first, the way the VP9 uncompressed header stores
/// them.
struct BitWriter {
    bytes: Vec<u8>,
    used: u8,
}

impl BitWriter {
    fn new() -> Self {
        BitWriter {
            bytes: Vec::new(),
            used: 0,
        }
    }

    fn push(&mut self, value: u64, n: u8) {
        let mut i = n;
        while i > 0 {
            i -= 1;
            let bit = ((value >> i) & 1) as u8;
            if self.used == 0 {
                self.bytes.push(0);
            }
            let last = self.bytes.len() - 1;
            self.bytes[last] |= bit << (7 - self.used);
            self.used = (self.used + 1) % 8;
        }
    }

    fn take(self) -> Vec<u8> {
        self.bytes
    }
}

/// The uncompressed header of a simple profile-0 key frame: 320x180,
/// base_q_idx 100, ending exactly on a byte boundary (14 bytes, no
/// padding bits), with the given compressed header size field.
fn key_frame_header_with(compressed_header_size: u64) -> Vec<u8> {
    let mut w = BitWriter::new();
    w.push(2, 2); // frame_marker
    w.push(0, 1); // profile low bit
    w.push(0, 1); // profile high bit
    w.push(0, 1); // show_existing_frame
    w.push(0, 1); // frame_type: key frame
    w.push(1, 1); // show_frame
    w.push(0, 1); // error_resilient_mode
    w.push(0x49, 8); // sync bytes
    w.push(0x83, 8);
    w.push(0x42, 8);
    w.push(1, 3); // color_space: BT.601
    w.push(0, 1); // color_range: studio swing
    w.push(319, 16); // width - 1
    w.push(179, 16); // height - 1
    w.push(0, 1); // render size same as frame size
    w.push(0, 1); // refresh_frame_context
    w.push(0, 1); // frame_parallel_decoding_mode
    w.push(0, 2); // frame_context_idx
    w.push(0, 6); // loop filter level
    w.push(0, 3); // loop filter sharpness
    w.push(0, 1); // loop filter delta enabled
    w.push(100, 8); // base_q_idx
    w.push(0, 1); // delta_q_y_dc coded
    w.push(0, 1); // delta_q_uv_dc coded
    w.push(0, 1); // delta_q_uv_ac coded
    w.push(0, 1); // segmentation enabled
    w.push(0, 1); // tile_rows_log2
    w.push(compressed_header_size, 16);
    let bytes = w.take();
    assert_eq!(bytes.len(), 14);
    bytes
}

/// The key frame header with a compressed header size of 2.
fn key_frame_header() -> Vec<u8> {
    key_frame_header_with(2)
}

/// A whole key frame packet: the 14 header bytes, 2 compressed header
/// bytes and 4 tile bytes.
fn key_frame_packet() -> Vec<u8> {
    let mut packet = key_frame_header();
    packet.extend_from_slice(&[0xAA, 0xBB]); // compressed header
    packet.extend_from_slice(&[0x00, 0x01, 0x02, 0x03]); // tile data
    packet
}

/// An inter frame packet that takes its size from reference slot 0 and
/// refreshes slot 0; 10 header bytes (3 zero padding bits), 1
/// compressed header byte and 3 tile bytes.
fn inter_frame_packet() -> Vec<u8> {
    let mut w = BitWriter::new();
    w.push(2, 2); // frame_marker
    w.push(0, 1); // profile low bit
    w.push(0, 1); // profile high bit
    w.push(0, 1); // show_existing_frame
    w.push(1, 1); // frame_type: non key frame
    w.push(1, 1); // show_frame
    w.push(0, 1); // error_resilient_mode
    w.push(0, 2); // reset_frame_context
    w.push(0x01, 8); // refresh_frame_flags: slot 0
    w.push(0, 3); // ref index LAST
    w.push(0, 1); // sign bias LAST
    w.push(1, 3); // ref index GOLDEN
    w.push(0, 1); // sign bias GOLDEN
    w.push(2, 3); // ref index ALTREF
    w.push(0, 1); // sign bias ALTREF
    w.push(1, 1); // size from first reference
    w.push(0, 1); // render size same as frame size
    w.push(0, 1); // allow_high_precision_mv
    w.push(1, 1); // interpolation filter: switchable
    w.push(0, 1); // refresh_frame_context
    w.push(0, 1); // frame_parallel_decoding_mode
    w.push(0, 2); // frame_context_idx
    w.push(0, 6); // loop filter level
    w.push(0, 3); // loop filter sharpness
    w.push(0, 1); // loop filter delta enabled
    w.push(50, 8); // base_q_idx
    w.push(0, 1); // delta_q_y_dc coded
    w.push(0, 1); // delta_q_uv_dc coded
    w.push(0, 1); // delta_q_uv_ac coded
    w.push(0, 1); // segmentation enabled
    w.push(0, 1); // tile_rows_log2
    w.push(1, 16); // compressed header size
    w.push(0, 3); // trailing zero bits
    let mut packet = w.take();
    assert_eq!(packet.len(), 10);
    packet.push(0xCC); // compressed header
    packet.extend_from_slice(&[0x0A, 0x0B, 0x0C]); // tile data
    packet
}

#[test]
fn parse_metadata() {
    let data: Vec<u8> = vec![0x04, 0x03, 0x03, 0x08, 0x02, 0x28, 0x01, 0x03];

    let metadata = Metadata::new(&data).unwrap();

    assert_eq!(metadata.profile(), Profile::Profile3);
    assert_eq!(metadata.level(), Level::Level4);
    assert_eq!(metadata.color_depth(), ColorDepth::Depth8);
    assert_eq!(metadata.chroma_subsampling(), MetadataSubsampling::Yuv444);
}

#[test]
fn metadata_missing_feature_is_an_error() {
    // Feature id 4 (chroma subsampling) is missing.
    let data: Vec<u8> = vec![0x01, 0x00, 0x02, 0x28, 0x03, 0x08];
    assert!(matches!(
        Metadata::new(&data),
        Err(ParserError::InvalidMetadata)
    ));
}

#[test]
fn metadata_last_pair_wins() {
    let data: Vec<u8> = vec![0x01, 0x00, 0x02, 0x28, 0x03, 0x08, 0x04, 0x02, 0x01, 0x02];
    let metadata = Metadata::new(&data).unwrap();
    assert_eq!(metadata.profile(), Profile::Profile2);
    assert_eq!(metadata.chroma_subsampling(), MetadataSubsampling::Yuv422);
}

#[test]
fn metadata_ignores_trailing_lone_byte() {
    let data: Vec<u8> = vec![0x01, 0x03, 0x02, 0x28, 0x03, 0x08, 0x04, 0x03, 0x09];
    let metadata = Metadata::new(&data).unwrap();
    assert_eq!(metadata.profile(), Profile::Profile3);
}

#[test]
fn parse_key_frame_packet() {
    let packet = key_frame_packet();
    let packet_len = packet.len();
    let mut parser = Vp9Parser::new();
    let frames = parser.parse_vp9_packet(packet).unwrap();
    assert_eq!(frames.len(), 1);
    let f = &frames[0];
    assert_eq!(f.profile(), Profile::Profile0);
    assert!(!f.show_existing_frame());
    assert!(f.frame_to_show_map_idx().is_none());
    assert_eq!(f.frame_type(), FrameType::KeyFrame);
    assert_eq!(f.last_frame_type(), FrameType::NonKeyFrame);
    assert!(f.show_frame());
    assert!(!f.error_resilient_mode());
    assert!(!f.intra_only());
    assert_eq!(f.reset_frame_context(), ResetFrameContext::No0);
    assert_eq!(f.refresh_frame_flags(), 0xFF);
    assert_eq!(f.ref_frame_sign_bias(), &[false, false, false, false]);
    assert_eq!(f.width(), 320);
    assert_eq!(f.height(), 180);
    assert_eq!(f.render_width(), 320);
    assert_eq!(f.render_height(), 180);
    assert_eq!(f.mi_cols(), (320 + 7) >> 3);
    assert_eq!(f.mi_rows(), (180 + 7) >> 3);
    assert_eq!(f.color_depth(), ColorDepth::Depth8);
    assert_eq!(f.color_space(), ColorSpace::Bt601);
    assert_eq!(f.color_range(), ColorRange::StudioSwing);
    assert!(f.subsampling_x());
    assert!(f.subsampling_y());
    assert_eq!(f.subsampling(), Subsampling::Yuv420);
    assert_eq!(f.frame_context_idx(), 0);
    assert_eq!(f.tile_cols_log2(), 0);
    assert_eq!(f.tile_rows_log2(), 0);
    assert_eq!(f.loop_filter_level(), 0);
    assert_eq!(f.loop_filter_sharpness(), 0);
    assert!(!f.loop_filter_delta_enabled());
    assert_eq!(f.loop_filter_ref_deltas(), &[1, 0, -1, -1]);
    assert_eq!(f.loop_filter_mode_deltas(), &[0, 0]);
    assert_eq!(f.base_q_idx(), 100);
    assert_eq!(f.delta_q_y_dc(), 0);
    assert_eq!(f.delta_q_uv_dc(), 0);
    assert_eq!(f.delta_q_uv_ac(), 0);
    assert!(!f.lossless());
    assert!(!f.segmentation_enabled());
    assert_eq!(f.uncompressed_header_size(), 14);
    assert_eq!(f.compressed_header_size(), 2);
    assert_eq!(f.tile_size(), 4);
    assert_eq!(
        f.uncompressed_header_size() + f.compressed_header_size() + f.tile_size(),
        packet_len
    );
    assert_eq!(f.compressed_header_data(), &[0xAA, 0xBB]);
    assert_eq!(f.tile_data(), &[0x00, 0x01, 0x02, 0x03]);
    assert_eq!(
        f.compressed_header_and_tile_data(),
        &[0xAA, 0xBB, 0x00, 0x01, 0x02, 0x03]
    );
}

#[test]
fn inter_frame_inherits_size_from_reference_slot() {
    let mut parser = Vp9Parser::new();
    let frames = parser.parse_vp9_packet(key_frame_packet()).unwrap();
    assert_eq!(frames[0].frame_type(), FrameType::KeyFrame);

    let frames = parser.parse_vp9_packet(inter_frame_packet()).unwrap();
    assert_eq!(frames.len(), 1);
    let f = &frames[0];
    assert_eq!(f.frame_type(), FrameType::NonKeyFrame);
    assert_eq!(f.last_frame_type(), FrameType::KeyFrame);
    // The size comes from reference slot 0, which the key frame filled.
    assert_eq!(f.width(), 320);
    assert_eq!(f.height(), 180);
    assert_eq!(f.render_width(), 320);
    assert_eq!(f.render_height(), 180);
    assert_eq!(f.refresh_frame_flags(), 0x01);
    assert_eq!(f.ref_frame_indices(), &[0, 1, 2]);
    assert_eq!(f.last_ref_frame_index(), 0);
    assert_eq!(f.golden_ref_frame_index(), 1);
    assert_eq!(f.alt_ref_frame_index(), 2);
    assert_eq!(
        f.interpolation_filter(),
        InterpolationFilter::Switchable
    );
    assert!(!f.allow_high_precision_mv());
    assert_eq!(f.base_q_idx(), 50);
    assert_eq!(f.uncompressed_header_size(), 10);
    assert_eq!(f.compressed_header_size(), 1);
    assert_eq!(f.tile_size(), 3);
    assert_eq!(f.tile_data(), &[0x0A, 0x0B, 0x0C]);
}

#[test]
fn two_frame_superframe_yields_both_frames() {
    // Marker 0xC9: two frames, two bytes per size entry.
    let first = key_frame_packet();
    let second = inter_frame_packet();
    let mut packet = Vec::new();
    packet.extend_from_slice(&first);
    packet.extend_from_slice(&second);
    packet.push(0xC9);
    packet.push(first.len() as u8);
    packet.push(0);
    packet.push(second.len() as u8);
    packet.push(0);
    packet.push(0xC9);

    let mut parser = Vp9Parser::new();
    let frames = parser.parse_vp9_packet(packet).unwrap();
    assert_eq!(frames.len(), 2);
    assert_eq!(frames[0].frame_type(), FrameType::KeyFrame);
    assert_eq!(frames[0].width(), 320);
    assert_eq!(frames[1].frame_type(), FrameType::NonKeyFrame);
    assert_eq!(frames[1].last_frame_type(), FrameType::KeyFrame);
    assert_eq!(frames[1].width(), 320);
    assert_eq!(frames[1].tile_data(), &[0x0A, 0x0B, 0x0C]);
}

#[test]
fn single_frame_superframe_is_valid() {
    // Marker 0xC0: one frame, one byte per size entry.
    let first = key_frame_packet();
    let mut packet = first.clone();
    packet.push(0xC0);
    packet.push(first.len() as u8);
    packet.push(0xC0);

    let mut parser = Vp9Parser::new();
    let frames = parser.parse_vp9_packet(packet).unwrap();
    assert_eq!(frames.len(), 1);
    assert_eq!(frames[0].frame_type(), FrameType::KeyFrame);
    assert_eq!(frames[0].width(), 320);
    assert_eq!(frames[0].tile_size(), 4);
}

#[test]
fn marker_lookalike_without_index_is_a_normal_frame() {
    // The last tile byte looks like a superframe marker, but the byte
    // where the index would start does not repeat it.
    let mut packet = inter_frame_packet();
    let last = packet.len() - 1;
    packet[last] = 0xC0;

    let mut parser = Vp9Parser::new();
    parser.parse_vp9_packet(key_frame_packet()).unwrap();
    let frames = parser.parse_vp9_packet(packet).unwrap();
    assert_eq!(frames.len(), 1);
    assert_eq!(frames[0].tile_data(), &[0x0A, 0x0B, 0xC0]);
}

#[test]
fn empty_packet_yields_no_frames() {
    let mut parser = Vp9Parser::new();
    let frames = parser.parse_vp9_packet(Vec::new()).unwrap();
    assert!(frames.is_empty());
    // The state is untouched: a following key frame still reports the
    // initial last frame type.
    let frames = parser.parse_vp9_packet(key_frame_packet()).unwrap();
    assert_eq!(frames[0].last_frame_type(), FrameType::NonKeyFrame);
}

#[test]
fn show_existing_frame_leaves_state_unchanged() {
    let mut parser = Vp9Parser::new();
    parser.parse_vp9_packet(key_frame_packet()).unwrap();

    // marker 10, profile bits 00, show_existing 1, map index 101.
    let frames = parser.parse_vp9_packet(vec![0x8D]).unwrap();
    assert_eq!(frames.len(), 1);
    let f = &frames[0];
    assert!(f.show_existing_frame());
    assert_eq!(f.frame_to_show_map_idx(), Some(5));
    assert_eq!(f.profile(), Profile::Profile0);
    assert_eq!(f.uncompressed_header_size(), 0);
    assert_eq!(f.compressed_header_size(), 0);
    assert_eq!(f.tile_size(), 0);
    assert_eq!(f.width(), 0);
    assert!(f.tile_data().is_empty());

    // The following frame still sees the key frame as its predecessor.
    let frames = parser.parse_vp9_packet(inter_frame_packet()).unwrap();
    assert_eq!(frames[0].last_frame_type(), FrameType::KeyFrame);
    assert_eq!(frames[0].width(), 320);
}

#[test]
fn bad_frame_marker_is_rejected() {
    let mut parser = Vp9Parser::new();
    assert!(matches!(
        parser.parse_vp9_packet(vec![0x00]),
        Err(ParserError::InvalidFrameMarker)
    ));
}

#[test]
fn truncated_packet_is_rejected() {
    // A valid start of a key frame that ends before the sync code.
    let mut parser = Vp9Parser::new();
    assert!(matches!(
        parser.parse_vp9_packet(vec![0x80]),
        Err(ParserError::BitRead)
    ));
}

#[test]
fn all_three_bad_sync_bytes_are_rejected() {
    let mut packet = key_frame_packet();
    packet[1] = 0x00; // the three sync bytes occupy bytes 1..4
    packet[2] = 0x00;
    packet[3] = 0x01;
    let mut parser = Vp9Parser::new();
    assert!(matches!(
        parser.parse_vp9_packet(packet),
        Err(ParserError::InvalidSyncByte)
    ));
}

#[test]
fn one_matching_sync_byte_is_tolerated() {
    // Only the first sync byte is wrong: the check requires all three
    // to differ, a known laxity that is preserved.
    let mut packet = key_frame_packet();
    packet[1] = 0x00;
    let mut parser = Vp9Parser::new();
    let frames = parser.parse_vp9_packet(packet).unwrap();
    assert_eq!(frames.len(), 1);
    assert_eq!(frames[0].width(), 320);
}

#[test]
fn set_padding_bit_is_rejected() {
    let mut packet = inter_frame_packet();
    // The last header byte carries 5 used bits and 3 zero padding
    // bits; set the first padding bit.
    packet[9] |= 0b0000_0100;
    let mut parser = Vp9Parser::new();
    parser.parse_vp9_packet(key_frame_packet()).unwrap();
    assert!(matches!(
        parser.parse_vp9_packet(packet),
        Err(ParserError::InvalidPadding)
    ));
}

#[test]
fn width_field_overflow_is_rejected() {
    // A key frame whose width-minus-one field is 0xFFFF would need a
    // width of 65536, which does not fit the 16-bit descriptor field.
    let mut w = BitWriter::new();
    w.push(2, 2);
    w.push(0, 1);
    w.push(0, 1);
    w.push(0, 1);
    w.push(0, 1);
    w.push(1, 1);
    w.push(0, 1);
    w.push(0x49, 8);
    w.push(0x83, 8);
    w.push(0x42, 8);
    w.push(1, 3);
    w.push(0, 1);
    w.push(0xFFFF, 16); // width - 1
    w.push(179, 16); // height - 1
    w.push(0, 8); // more than enough bits to reach the size fields
    let packet = w.take();
    let mut parser = Vp9Parser::new();
    assert!(matches!(
        parser.parse_vp9_packet(packet),
        Err(ParserError::NumericRange)
    ));
}

#[test]
fn failed_packet_leaves_earlier_state() {
    // A failing packet must leave the parser as it was before it.
    let mut parser = Vp9Parser::new();
    parser.parse_vp9_packet(key_frame_packet()).unwrap();
    assert!(parser.parse_vp9_packet(vec![0x00]).is_err());
    let frames = parser.parse_vp9_packet(inter_frame_packet()).unwrap();
    assert_eq!(frames[0].last_frame_type(), FrameType::KeyFrame);
    assert_eq!(frames[0].width(), 320);
}

#[test]
fn parser_reset_restores_initial_state() {
    let mut parser = Vp9Parser::new();
    parser.parse_vp9_packet(key_frame_packet()).unwrap();
    parser.reset();
    let frames = parser.parse_vp9_packet(key_frame_packet()).unwrap();
    assert_eq!(frames[0].last_frame_type(), FrameType::NonKeyFrame);
}

#[test]
fn oversized_compressed_header_clamps_tile_region() {
    // The header announces a compressed header far past the end of the
    // packet.  The descriptor is still emitted; the caller sees a
    // zero-length tile region and clamped, empty data slices.
    let packet = key_frame_header_with(1000);
    let packet_len = packet.len();
    let mut parser = Vp9Parser::new();
    let frames = parser.parse_vp9_packet(packet).unwrap();
    assert_eq!(frames.len(), 1);
    let f = &frames[0];
    assert_eq!(f.uncompressed_header_size(), packet_len);
    assert_eq!(f.compressed_header_size(), 1000);
    assert_eq!(f.tile_size(), 0);
    assert!(f.compressed_header_data().is_empty());
    assert!(f.compressed_header_and_tile_data().is_empty());
    assert!(f.tile_data().is_empty());
}
