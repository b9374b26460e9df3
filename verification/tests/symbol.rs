use smolqr::matrix::{apply_mask, QrMatrix};
use smolqr::penalty::{calculate_penalty, rule1_penalty, rule3_penalty};
use smolqr::structure::structure;
use smolqr::tables::format_info;
use smolqr::{ErrorCorrectLv, Mode, Version};

#[test]
fn structure_test() {
    let m = structure(&[0b01000011,
        0b01010101,
        0b01000110,
        0b10000110,
        0b01010111,
        0b00100110,
        0b01010101,
        0b11000010,
        0b01110111,
        0b00110010,
        0b00000110,
        0b00010010,
        0b00000110,
        0b01100111,
        0b00100110,
        0b11110110,
        0b11110110,
        0b01000010,
        0b00000111,
        0b01110110,
        0b10000110,
        0b11110010,
        0b00000111,
        0b00100110,
        0b01010110,
        0b00010110,
        0b11000110,
        0b11000111,
        0b10010010,
        0b00000110,
        0b10110110,
        0b11100110,
        0b11110111,
        0b01110111,
        0b00110010,
        0b00000111,
        0b01110110,
        0b10000110,
        0b01010111,
        0b00100110,
        0b01010010,
        0b00000110,
        0b10000110,
        0b10010111,
        0b00110010,
        0b00000111,
        0b01000110,
        0b11110111,
        0b01110110,
        0b01010110,
        0b11000010,
        0b00000110,
        0b10010111,
        0b00110010,
        0b00010000,
        0b11101100,
        0b00010001,
        0b11101100,
        0b00010001,
        0b11101100,
        0b00010001,
        0b11101100,], Version::new(5), ErrorCorrectLv::Q);
    assert_eq!(&m, &[0b01000011,
        0b11110110,
        0b10110110,
        0b01000110,
        0b01010101,
        0b11110110,
        0b11100110,
        0b11110111,
        0b01000110,
        0b01000010,
        0b11110111,
        0b01110110,
        0b10000110,
        0b00000111,
        0b01110111,
        0b01010110,
        0b01010111,
        0b01110110,
        0b00110010,
        0b11000010,
        0b00100110,
        0b10000110,
        0b00000111,
        0b00000110,
        0b01010101,
        0b11110010,
        0b01110110,
        0b10010111,
        0b11000010,
        0b00000111,
        0b10000110,
        0b00110010,
        0b01110111,
        0b00100110,
        0b01010111,
        0b00010000,
        0b00110010,
        0b01010110,
        0b00100110,
        0b11101100,
        0b00000110,
        0b00010110,
        0b01010010,
        0b00010001,
        0b00010010,
        0b11000110,
        0b00000110,
        0b11101100,
        0b00000110,
        0b11000111,
        0b10000110,
        0b00010001,
        0b01100111,
        0b10010010,
        0b10010111,
        0b11101100,
        0b00100110,
        0b00000110,
        0b00110010,
        0b00010001,
        0b00000111,
        0b11101100,
        0b11010101,
        0b01010111,
        0b10010100,
        0b11101011,
        0b11000111,
        0b11001100,
        0b01110100,
        0b10011111,
        0b00001011,
        0b01100000,
        0b10110001,
        0b00000101,
        0b00101101,
        0b00111100,
        0b11010100,
        0b10101101,
        0b01110011,
        0b11001010,
        0b01001100,
        0b00011000,
        0b11110111,
        0b10110110,
        0b10000101,
        0b10010011,
        0b11110001,
        0b01111100,
        0b01001011,
        0b00111011,
        0b11011111,
        0b10011101,
        0b11110010,
        0b00100001,
        0b11100101,
        0b11001000,
        0b11101110,
        0b01101010,
        0b11111000,
        0b10000110,
        0b01001100,
        0b00101000,
        0b10011010,
        0b00011011,
        0b11000011,
        0b11111111,
        0b01110101,
        0b10000001,
        0b11100110,
        0b10101100,
        0b10011010,
        0b11010001,
        0b10111101,
        0b01010010,
        0b01101111,
        0b00010001,
        0b00001010,
        0b00000010,
        0b01010110,
        0b10100011,
        0b01101100,
        0b10000011,
        0b10100001,
        0b10100011,
        0b11110000,
        0b00100000,
        0b01101111,
        0b01111000,
        0b11000000,
        0b10110010,
        0b00100111,
        0b10000101,
        0b10001101,
        0b11101100,]);
}

#[test]
fn mask_involution() {
    let mat = QrMatrix::generate(
        b"HELLO WORLD",
        Mode::Alphanumeric,
        Version::new(1),
        ErrorCorrectLv::Q,
    )
    .unwrap();
    let functions = QrMatrix::new(21);
    for m in 0..8usize {
        let mut once = mat.duplicate();
        apply_mask(&mut once, &functions, m);
        let mut twice = once.duplicate();
        apply_mask(&mut twice, &functions, m);
        for y in 0..21 {
            for x in 0..21 {
                assert_eq!(twice.get(x, y), mat.get(x, y));
            }
        }
        // and the single application did flip something
        let mut changed = false;
        for y in 0..21 {
            for x in 0..21 {
                if once.get(x, y) != mat.get(x, y) {
                    changed = true;
                }
            }
        }
        assert!(changed);
    }
}

#[test]
fn penalty_rule1_monotonicity() {
    // a: one row holds a run of 6 dark modules in an otherwise
    // checkerboard grid; b: plain checkerboard, no run of 2 anywhere
    let mut a = QrMatrix::new(21);
    let mut b = QrMatrix::new(21);
    for y in 0..21 {
        for x in 0..21 {
            let c = (x + y) % 2 == 0;
            a.set(x, y, c);
            b.set(x, y, c);
        }
    }
    for x in 5..11 {
        a.set(x, 10, true);
    }
    assert_eq!(rule1_penalty(&b), 0);
    assert!(rule1_penalty(&a) > rule1_penalty(&b));
    assert!(rule1_penalty(&a) >= 4);
}

#[test]
fn penalty_rule3_edge_window() {
    // a finder-like window whose four trailing light modules end exactly at
    // the row's last module scores 40; the dark module before the window
    // keeps the leading flank from scoring
    let mut m = QrMatrix::new(21);
    for x in [9, 10, 12, 13, 14, 16] {
        m.set(x, 5, true);
    }
    assert_eq!(rule3_penalty(&m), 40);
}

#[test]
fn penalty_all_same_high() {
    let dark = QrMatrix::new(21);
    // an all-light matrix is one huge run in every row and column
    assert!(rule1_penalty(&dark) > 0);
    assert!(calculate_penalty(&dark) >= rule1_penalty(&dark));
}

#[test]
fn end_to_end_symbol() {
    let mat = QrMatrix::generate(
        b"HELLO WORLD",
        Mode::Alphanumeric,
        Version::new(1),
        ErrorCorrectLv::Q,
    )
    .unwrap();
    assert_eq!(mat.size(), 21);

    // finder nesting at the three fixed corners
    let corners = [(0usize, 0usize), (14, 0), (0, 14)];
    for &(cx, cy) in corners.iter() {
        for i in 0..7 {
            // outer dark ring
            assert!(mat.get(cx + i, cy));
            assert!(mat.get(cx + i, cy + 6));
            assert!(mat.get(cx, cy + i));
            assert!(mat.get(cx + 6, cy + i));
        }
        for i in 1..6 {
            // light ring
            assert!(!mat.get(cx + i, cy + 1));
            assert!(!mat.get(cx + i, cy + 5));
            assert!(!mat.get(cx + 1, cy + i));
            assert!(!mat.get(cx + 5, cy + i));
        }
        for yy in 2..5 {
            for xx in 2..5 {
                // dark core
                assert!(mat.get(cx + xx, cy + yy));
            }
        }
    }

    // timing pattern and dark module
    for i in 8..13 {
        assert_eq!(mat.get(i, 6), i % 2 == 0);
        assert_eq!(mat.get(6, i), i % 2 == 0);
    }
    assert!(mat.get(8, 13));

    // deterministic across repeated calls
    let again = QrMatrix::generate(
        b"HELLO WORLD",
        Mode::Alphanumeric,
        Version::new(1),
        ErrorCorrectLv::Q,
    )
    .unwrap();
    for y in 0..21 {
        for x in 0..21 {
            assert_eq!(mat.get(x, y), again.get(x, y));
        }
    }
}

#[test]
fn generate_reports_errors() {
    // a byte outside the alphanumeric alphabet
    assert!(QrMatrix::generate(b"hello", Mode::Alphanumeric, Version::new(1), ErrorCorrectLv::Q)
        .is_none());
    // too long for version 1 at level Q
    assert!(QrMatrix::generate(
        b"HELLO WORLD HELLO WORLD HELLO",
        Mode::Alphanumeric,
        Version::new(1),
        ErrorCorrectLv::Q
    )
    .is_none());
}

#[test]
fn format_info_spots() {
    assert_eq!(format_info(ErrorCorrectLv::L, 0), 0b111011111000100);
    assert_eq!(format_info(ErrorCorrectLv::M, 0), 0b101010000010010);
    assert_eq!(format_info(ErrorCorrectLv::Q, 7), 0b010101111101101);
    assert_eq!(format_info(ErrorCorrectLv::H, 7), 0b000100000111011);
}

#[test]
fn version_info_spots() {
    assert_eq!(Version::new(1).version_info(), 0);
    assert_eq!(Version::new(7).version_info(), 0b000111110010010100);
    assert_eq!(Version::new(40).version_info(), 0b101000110001101001);
}

#[test]
fn align_locations_spots() {
    assert_eq!(Version::new(1).align_locations(), Vec::<usize>::new());
    assert_eq!(Version::new(2).align_locations(), vec![6, 18]);
    assert_eq!(Version::new(7).align_locations(), vec![6, 22, 38]);
    assert_eq!(
        Version::new(40).align_locations(),
        vec![6, 30, 58, 86, 114, 142, 170]
    );
}

#[test]
fn larger_symbol_generates() {
    // a version-7 symbol exercises alignment patterns and version info
    let mat = QrMatrix::generate(
        b"0123456789012345678901234567890123456789",
        Mode::Numeric,
        Version::new(7),
        ErrorCorrectLv::Q,
    )
    .unwrap();
    assert_eq!(mat.size(), 45);
    // dark module
    assert!(mat.get(8, 4 * 7 + 9));
}
