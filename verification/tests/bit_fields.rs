use vp9_parser::{BitReader, ParserError};

#[test]
fn unsigned_fields_read_big_endian() {
    let data: Vec<u8> = vec![0b1011_0010, 0xFF];
    let mut br = BitReader::new(&data);
    assert!(br.is_byte_aligned());
    assert_eq!(br.position(), 0);
    assert_eq!(br.read_u8(3).unwrap(), 0b101);
    assert!(!br.is_byte_aligned());
    assert_eq!(br.position(), 3);
    assert_eq!(br.read_u8(5).unwrap(), 0b10010);
    assert!(br.is_byte_aligned());
    assert_eq!(br.position_in_bytes(), 1);
    assert_eq!(br.read_u16(8).unwrap(), 255);
}

#[test]
fn bools_follow_the_bit_order() {
    let data: Vec<u8> = vec![0b1010_0000];
    let mut br = BitReader::new(&data);
    assert!(br.read_bool().unwrap());
    assert!(!br.read_bool().unwrap());
    assert!(br.read_bool().unwrap());
    assert!(!br.read_bool().unwrap());
}

#[test]
fn reads_past_the_end_fail() {
    let data: Vec<u8> = vec![0xAB];
    let mut br = BitReader::new(&data);
    assert_eq!(br.read_u8(8).unwrap(), 0xAB);
    assert!(matches!(br.read_bool(), Err(ParserError::BitRead)));
    assert!(matches!(br.read_u16(1), Err(ParserError::BitRead)));
}

#[test]
fn signed_fields_round_trip() {
    // Each case encodes a magnitude and a sign bit, then reads the
    // field back: sign-set negates the magnitude.
    let cases: Vec<(u8, bool, i8)> = vec![
        (5, true, -5),
        (5, false, 5),
        (0, false, 0),
        (0, true, 0), // magnitude 0 with a set sign bit still reads 0
        (15, true, -15),
    ];
    for (mag, sign, expected) in cases {
        // 4 magnitude bits, 1 sign bit, packed at the top of one byte.
        let byte = (mag << 4) | (if sign { 0b1000 } else { 0 });
        let data: Vec<u8> = vec![byte];
        let mut br = BitReader::new(&data);
        assert_eq!(br.read_inverse_i8(4).unwrap(), expected);
    }
}

#[test]
fn wide_signed_fields_round_trip() {
    // A 9-bit magnitude of 300 with the sign bit set: 10 bits in all.
    let value: u16 = 300;
    let data: Vec<u8> = vec![((value >> 1) as u8), (((value & 1) as u8) << 7) | 0b0100_0000];
    let mut br = BitReader::new(&data);
    assert_eq!(br.read_inverse_i16(9).unwrap(), -300);
}

#[test]
fn signed_fields_in_sequence() {
    // 0101 1 01 0: magnitude 5 sign 1, then magnitude 1 sign 0.
    let data: Vec<u8> = vec![0b0101_1010];
    let mut br = BitReader::new(&data);
    assert_eq!(br.read_inverse_i8(4).unwrap(), -5);
    assert_eq!(br.read_inverse_i8(2).unwrap(), 1);
}
