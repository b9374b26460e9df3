use smolqr::bits::BitsWriter;
use smolqr::encode::{encode, encode_alphanumeric, encode_numeric, payload_len};
use smolqr::{ErrorCorrectLv, Mode, Version};

#[test]
fn test_encode() {
    assert_eq!(
        encode(
            b"HELLO WORLD",
            Mode::Alphanumeric,
            Version::new(1),
            ErrorCorrectLv::Q
        ),
        Some(vec![
            0b00100000, 0b01011011, 0b00001011, 0b01111000, 0b11010001, 0b01110010, 0b11011100,
            0b01001101, 0b01000011, 0b01000000, 0b11101100, 0b00010001, 0b11101100
        ])
    );
}

#[test]
fn test_numeric() {
    let mut w = BitsWriter::new();
    assert!(encode_numeric(b"8675309", &mut w).is_some());

    assert_eq!(&w.bits, &[0b1101_1000, 0b1110_0001, 0b0010_1001, 0]);
    assert_eq!(w.last_length, 0);
}

#[test]
fn test_alphanumeric() {
    let mut w = BitsWriter::new();
    assert!(encode_alphanumeric(b"HELLO WORLD", &mut w).is_some());

    assert_eq!(
        &w.bits,
        &[
            0b0110_0001,
            0b0110_1111,
            0b0001_1010,
            0b0010_1110,
            0b0101_1011,
            0b1000_1001,
            0b1010_1000,
            0b0110_1000
        ]
    );
    assert_eq!(w.last_length, 5);
}

#[test]
fn bits_writer_basics() {
    let mut w = BitsWriter::new();
    assert_eq!(w.len(), 0);
    w.write_bit(true);
    w.write_bit(false);
    assert_eq!(w.len(), 2);
    assert_eq!(&w.bits, &[0b1000_0000]);
    w.write_bits(6, 0b101011);
    assert_eq!(w.len(), 8);
    assert_eq!(&w.bits, &[0b1010_1011, 0]);
    w.write_u8_aligned(0xEC);
    assert_eq!(&w.bits, &[0b1010_1011, 0xEC, 0]);
    w.write_bit(true);
    w.align();
    assert_eq!(w.len(), 24);
    assert_eq!(&w.bits, &[0b1010_1011, 0xEC, 0b1000_0000, 0]);
    assert_eq!(w.last_length, 0);
}

#[test]
fn encode_rejects_bad_numeric() {
    assert_eq!(
        encode(b"12a4", Mode::Numeric, Version::new(1), ErrorCorrectLv::L),
        None
    );
    let mut w = BitsWriter::new();
    assert!(encode_numeric(b"12a4", &mut w).is_none());
}

#[test]
fn encode_rejects_bad_alphanumeric() {
    assert_eq!(
        encode(b"hello", Mode::Alphanumeric, Version::new(1), ErrorCorrectLv::Q),
        None
    );
    let mut w = BitsWriter::new();
    assert!(encode_alphanumeric(b"lower", &mut w).is_none());
}

#[test]
fn encode_bytes_mode() {
    let r = encode(b"ab", Mode::Bytes, Version::new(1), ErrorCorrectLv::L).unwrap();
    assert_eq!(r.len(), 19);
    // 4-bit indicator 0100, 8-bit count 00000010, then 'a' and 'b'
    assert_eq!(r[0], 0b0100_0000);
    assert_eq!(r[1], 0b0010_0110);
    assert_eq!(r[2], 0b0001_0110);
    assert_eq!(r[3], 0b0010_0000);
    assert_eq!(&r[4..], &[0xEC, 0x11, 0xEC, 0x11, 0xEC, 0x11, 0xEC, 0x11, 0xEC, 0x11, 0xEC, 0x11, 0xEC, 0x11, 0xEC]);
}

#[test]
fn encode_rejects_over_capacity() {
    // 27 alphanumeric characters need more than the 104 data bits of
    // version 1 at level Q
    assert_eq!(
        encode(
            b"HELLO WORLD HELLO WORLD HEL",
            Mode::Alphanumeric,
            Version::new(1),
            ErrorCorrectLv::Q
        ),
        None
    );
}

#[test]
fn best_mode_classifies() {
    assert_eq!(Mode::best_mode(b"8675309"), Mode::Numeric);
    assert_eq!(Mode::best_mode(b"HELLO WORLD"), Mode::Alphanumeric);
    assert_eq!(Mode::best_mode(b"hello"), Mode::Bytes);
    assert_eq!(Mode::best_mode(b""), Mode::Numeric);
}

#[test]
fn smallest_version_scans() {
    let v = Version::smallest_version(11, ErrorCorrectLv::Q, Mode::Alphanumeric).unwrap();
    assert_eq!(v.version(), 1);
    // 4 + 9 + 61 bits fit in 13 codewords at level Q of version 1
    assert_eq!(payload_len(Mode::Alphanumeric, 11), 61);
    // far beyond the capacity of version 40
    assert!(Version::smallest_version(10000, ErrorCorrectLv::L, Mode::Bytes).is_none());
    // a byte payload that only a later version holds
    let v = Version::smallest_version(20, ErrorCorrectLv::H, Mode::Bytes).unwrap();
    assert!(v.version() > 1);
}

#[test]
fn char_count_widths() {
    assert_eq!(Version::new(1).char_count_length(Mode::Numeric), 10);
    assert_eq!(Version::new(9).char_count_length(Mode::Numeric), 10);
    assert_eq!(Version::new(10).char_count_length(Mode::Numeric), 12);
    assert_eq!(Version::new(27).char_count_length(Mode::Numeric), 14);
    assert_eq!(Version::new(1).char_count_length(Mode::Alphanumeric), 9);
    assert_eq!(Version::new(26).char_count_length(Mode::Alphanumeric), 11);
    assert_eq!(Version::new(40).char_count_length(Mode::Bytes), 16);
    assert_eq!(Version::new(1).char_count_length(Mode::Bytes), 8);
}

#[test]
fn capacity_table_spots() {
    assert_eq!(Version::new(1).max_data_bytes(ErrorCorrectLv::L), 19);
    assert_eq!(Version::new(1).max_data_bytes(ErrorCorrectLv::Q), 13);
    assert_eq!(Version::new(1).max_data_bytes(ErrorCorrectLv::H), 9);
    assert_eq!(Version::new(5).max_data_bytes(ErrorCorrectLv::Q), 62);
    assert_eq!(Version::new(40).max_data_bytes(ErrorCorrectLv::L), 2956);
    let bd = Version::new(5).blocks_data(ErrorCorrectLv::Q);
    assert_eq!(
        (bd.g1_blocks, bd.g1_bytes, bd.g2_blocks, bd.g2_bytes, bd.ec_bytes),
        (2, 15, 2, 16, 18)
    );
}
